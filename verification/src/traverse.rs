//! What listing, finding and searching share.
//!
//! All three begin at a directory that is checked the same way, walk the tree
//! below it, and take each entry relative to where the walk began.

use vstd::prelude::*;
use vstd::utf8::encode_utf8;

use crate::backend::LocalGitAwareFs;
use crate::error::FsError;
use crate::io::{ActionView, FsAction, FsEvent};
use crate::path::{components, is_absolute, stripped, FsPath};
use crate::repo::{RepoSearch, RepoStep};

verus! {

/// Which operation a traversal serves. It decides the checks that are made of
/// the start and the errors that they give.
#[derive(Debug, Clone, Copy, PartialEq, Eq, Structural)]
pub enum Purpose {
    List,
    Find,
    Search,
}

/// The error for a relative start that resolves to a place outside the root.
pub open spec fn escape_error(purpose: Purpose, path: FsPath) -> FsError {
    match purpose {
        Purpose::Search => FsError::SearchRootEscapesRepo { path },
        _ => FsError::PathEscapesRepo { path },
    }
}

/// The error for a start that is not there.
pub open spec fn missing_error(purpose: Purpose, path: FsPath) -> FsError {
    match purpose {
        Purpose::Find => FsError::FindRootNotExist { path },
        _ => FsError::ListRootNotExist { path },
    }
}

/// The error for a start that is no directory.
pub open spec fn not_directory_error(purpose: Purpose, path: FsPath) -> FsError {
    match purpose {
        Purpose::Find => FsError::FindRootNotDirectory { path },
        _ => FsError::ListRootNotDirectory { path },
    }
}

/// The error for an absolute start outside every repository.
pub open spec fn no_repo_error(purpose: Purpose, path: FsPath) -> FsError {
    match purpose {
        Purpose::List => FsError::ListRootNotInGit { path },
        Purpose::Find => FsError::FindRootNotInGit { path },
        Purpose::Search => FsError::SearchRootNotInGit { path },
    }
}

/// The checks of the start, on their way.
#[derive(Debug, PartialEq, Eq)]
pub enum Prelude {
    /// The start is being resolved.
    Resolving { purpose: Purpose, located: FsPath, was_absolute: bool },
    /// The resolved start is being looked up.
    Checking { purpose: Purpose, start: FsPath, was_absolute: bool },
    /// A repository is being looked for above the start.
    Locating { purpose: Purpose, start: FsPath, search: RepoSearch },
}

/// What an event leads to.
#[derive(Debug, PartialEq)]
pub enum PreludeStep {
    /// Another action is needed.
    Ask(Prelude),
    /// The start passed every check; here is its canonical form.
    Ready(FsPath),
    Failed(FsError),
}

impl Prelude {
    pub open spec fn awaits(&self) -> ActionView {
        match *self {
            Prelude::Resolving { located, .. } => ActionView::Canonicalize { path: located@ },
            Prelude::Checking { start, .. } => ActionView::Metadata { path: start@ },
            Prelude::Locating { search, .. } => search.awaits(),
        }
    }

    pub fn request(&self) -> (action: FsAction)
        ensures
            action@ == self.awaits(),
    {
        match self {
            Prelude::Resolving { located, .. } => FsAction::Canonicalize { path: located.copy() },
            Prelude::Checking { start, .. } => FsAction::Metadata { path: start.copy() },
            Prelude::Locating { search, .. } => search.request(),
        }
    }

    /// Whether these are the checks, not yet begun, for the start that a
    /// request names: the start is located below the root of the engine unless
    /// it is absolute, and is resolved first.
    pub open spec fn begins(self, fs: &LocalGitAwareFs, purpose: Purpose, root: Option<String>) -> bool {
        self matches Prelude::Resolving { purpose: p, located, was_absolute } && p == purpose
            && located@ == fs.located(given_root(root)) && was_absolute == is_absolute(
            encode_utf8(given_root(root)),
        )
    }

    /// The checks for the start that a request names, or for the root itself
    /// where it names none.
    pub fn begin(fs: &LocalGitAwareFs, purpose: Purpose, root: &Option<String>) -> (state: Prelude)
        ensures
            state.begins(fs, purpose, *root),
    {
        match root {
            Some(text) => {
                let given = FsPath::from_str(text.as_str());
                let was_absolute = given.is_absolute();
                Prelude::Resolving { purpose, located: fs.locate(text.as_str()), was_absolute }
            },
            None => {
                proof {
                    reveal_strlit(".");
                }
                let given = FsPath::from_str(".");
                let was_absolute = given.is_absolute();
                Prelude::Resolving { purpose, located: fs.locate("."), was_absolute }
            },
        }
    }

    /// The error that an event ends the checks with, if it does.
    ///
    /// The start must resolve. A relative start must lie under the root. For
    /// listing and finding it must be an existing directory. An absolute start
    /// must lie in a repository.
    pub open spec fn failure(self, fs: &LocalGitAwareFs, event: FsEvent<'_>) -> Option<FsError> {
        match (self, event) {
            (Prelude::Resolving { located, .. }, FsEvent::Resolved(Err(source))) => Some(
                FsError::CanonicalizePath { path: located, source },
            ),
            (Prelude::Resolving { purpose, was_absolute, .. }, FsEvent::Resolved(Ok(c))) => {
                if !was_absolute && !fs.contains(c@) {
                    Some(escape_error(purpose, c))
                } else {
                    None
                }
            },
            (Prelude::Checking { purpose, start, .. }, FsEvent::Meta(Err(_))) => Some(
                missing_error(purpose, start),
            ),
            (Prelude::Checking { purpose, start, .. }, FsEvent::Meta(Ok(meta))) => {
                if !meta.is_dir {
                    Some(not_directory_error(purpose, start))
                } else {
                    None
                }
            },
            (Prelude::Locating { purpose, start, search }, FsEvent::Exists(found)) => {
                if !found && search.at_top() {
                    Some(no_repo_error(purpose, start))
                } else {
                    None
                }
            },
            _ => None,
        }
    }

    /// The start that an event lets through, if it is the last check.
    ///
    /// For searching, a relative start is ready once it is resolved and lies
    /// under the root. For listing and finding, it is ready once it is known
    /// to be a directory. An absolute start is ready when a repository is
    /// found above it.
    pub open spec fn ready(self, fs: &LocalGitAwareFs, event: FsEvent<'_>) -> Option<FsPath> {
        match (self, event) {
            (Prelude::Resolving { purpose, was_absolute, .. }, FsEvent::Resolved(Ok(c))) => {
                if purpose == Purpose::Search && !was_absolute && fs.contains(c@) {
                    Some(c)
                } else {
                    None
                }
            },
            (Prelude::Checking { start, was_absolute, .. }, FsEvent::Meta(Ok(meta))) => {
                if meta.is_dir && !was_absolute {
                    Some(start)
                } else {
                    None
                }
            },
            (Prelude::Locating { start, .. }, FsEvent::Exists(found)) => {
                if found {
                    Some(start)
                } else {
                    None
                }
            },
            _ => None,
        }
    }

    /// Whether `next` is where the checks stand after an event that neither
    /// fails nor completes them. An event of another kind than was asked for
    /// changes nothing.
    pub open spec fn continues(self, fs: &LocalGitAwareFs, event: FsEvent<'_>, next: Prelude) -> bool {
        match (self, event) {
            (Prelude::Resolving { purpose, was_absolute, .. }, FsEvent::Resolved(Ok(c))) => {
                if purpose != Purpose::Search {
                    next == (Prelude::Checking { purpose, start: c, was_absolute })
                } else {
                    next matches Prelude::Locating { purpose: p, start, search } && p == purpose
                        && start == c && search.parts() == components(c@) && search.depth()
                        == search.parts().len()
                }
            },
            (Prelude::Checking { purpose, start, .. }, FsEvent::Meta(Ok(_))) => {
                next matches Prelude::Locating { purpose: p, start: s, search } && p == purpose && s
                    == start && search.parts() == components(start@) && search.depth()
                    == search.parts().len()
            },
            (Prelude::Locating { purpose, start, search }, FsEvent::Exists(_)) => {
                next matches Prelude::Locating { purpose: p, start: s, search: above } && p
                    == purpose && s == start && above.parts() == search.parts() && above.depth()
                    == search.depth() - 1
            },
            _ => next == self,
        }
    }

    /// Takes the event for the action that was asked for.
    pub fn resume(self, fs: &LocalGitAwareFs, event: FsEvent<'_>) -> (step: PreludeStep)
        ensures
            match step {
                PreludeStep::Failed(e) => self.failure(fs, event) == Some(e),
                PreludeStep::Ready(start) => self.failure(fs, event) is None && self.ready(
                    fs,
                    event,
                ) == Some(start),
                PreludeStep::Ask(next) => self.failure(fs, event) is None && self.ready(fs, event)
                    is None && self.continues(fs, event, next),
            },
    {
        match self {
            Prelude::Resolving { purpose, located, was_absolute } => match event {
                FsEvent::Resolved(Err(source)) => PreludeStep::Failed(
                    FsError::CanonicalizePath { path: located, source },
                ),
                FsEvent::Resolved(Ok(c)) => {
                    if !was_absolute && !fs.is_inside(&c) {
                        PreludeStep::Failed(make_escape_error(purpose, c))
                    } else if purpose != Purpose::Search {
                        PreludeStep::Ask(Prelude::Checking { purpose, start: c, was_absolute })
                    } else if was_absolute {
                        let search = RepoSearch::begin(&c);
                        PreludeStep::Ask(Prelude::Locating { purpose, start: c, search })
                    } else {
                        PreludeStep::Ready(c)
                    }
                },
                _ => PreludeStep::Ask(Prelude::Resolving { purpose, located, was_absolute }),
            },
            Prelude::Checking { purpose, start, was_absolute } => match event {
                FsEvent::Meta(Err(_)) => PreludeStep::Failed(make_missing_error(purpose, start)),
                FsEvent::Meta(Ok(meta)) => {
                    if !meta.is_dir {
                        PreludeStep::Failed(make_not_directory_error(purpose, start))
                    } else if was_absolute {
                        let search = RepoSearch::begin(&start);
                        PreludeStep::Ask(Prelude::Locating { purpose, start, search })
                    } else {
                        PreludeStep::Ready(start)
                    }
                },
                _ => PreludeStep::Ask(Prelude::Checking { purpose, start, was_absolute }),
            },
            Prelude::Locating { purpose, start, search } => match event {
                FsEvent::Exists(found) => match search.resume(found) {
                    RepoStep::Found(_) => PreludeStep::Ready(start),
                    RepoStep::Missing => PreludeStep::Failed(make_no_repo_error(purpose, start)),
                    RepoStep::Probe(above) => PreludeStep::Ask(
                        Prelude::Locating { purpose, start, search: above },
                    ),
                },
                _ => PreludeStep::Ask(Prelude::Locating { purpose, start, search }),
            },
        }
    }
}

/// The start that a request names: the root itself where it names none.
pub open spec fn given_root(root: Option<String>) -> Seq<char> {
    match root {
        Some(text) => text@,
        None => "."@,
    }
}

fn make_escape_error(purpose: Purpose, path: FsPath) -> (e: FsError)
    ensures
        e == escape_error(purpose, path),
{
    match purpose {
        Purpose::Search => FsError::SearchRootEscapesRepo { path },
        _ => FsError::PathEscapesRepo { path },
    }
}

fn make_missing_error(purpose: Purpose, path: FsPath) -> (e: FsError)
    ensures
        e == missing_error(purpose, path),
{
    match purpose {
        Purpose::Find => FsError::FindRootNotExist { path },
        _ => FsError::ListRootNotExist { path },
    }
}

fn make_not_directory_error(purpose: Purpose, path: FsPath) -> (e: FsError)
    ensures
        e == not_directory_error(purpose, path),
{
    match purpose {
        Purpose::Find => FsError::FindRootNotDirectory { path },
        _ => FsError::ListRootNotDirectory { path },
    }
}

fn make_no_repo_error(purpose: Purpose, path: FsPath) -> (e: FsError)
    ensures
        e == no_repo_error(purpose, path),
{
    match purpose {
        Purpose::List => FsError::ListRootNotInGit { path },
        Purpose::Find => FsError::FindRootNotInGit { path },
        Purpose::Search => FsError::SearchRootNotInGit { path },
    }
}

/// An entry relative to where the traversal began; where it does not lie
/// below the start, relative to the root; and as it stands where it lies below
/// neither.
pub open spec fn relative_to(start: Seq<u8>, root: Seq<u8>, path: Seq<u8>) -> Seq<u8> {
    match stripped(path, start) {
        Some(rest) => rest,
        None => match stripped(path, root) {
            Some(rest) => rest,
            None => path,
        },
    }
}

impl LocalGitAwareFs {
    pub fn relative_to(&self, start: &FsPath, path: &FsPath) -> (rel: FsPath)
        ensures
            rel@ == relative_to(start@, self.root_view(), path@),
    {
        match path.strip_prefix(start) {
            Some(rest) => rest,
            None => match path.strip_prefix(self.root()) {
                Some(rest) => rest,
                None => path.copy(),
            },
        }
    }
}

} // verus!
