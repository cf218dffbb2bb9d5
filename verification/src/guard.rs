//! The rule that every path passes before it is read or written.
//!
//! A path is resolved to its canonical form first. What was given as a
//! relative path must then lie under the root. What was given as an absolute
//! path must lie in a repository, as must both ends of a copy or a move,
//! however they were given.

use vstd::prelude::*;

use crate::backend::LocalGitAwareFs;
use crate::error::FsError;
use crate::io::{ActionView, FsAction, FsEvent};
use crate::path::{components, FsPath};
use crate::repo::{RepoSearch, RepoStep};

verus! {

/// What a path is wanted for. It decides the error for a path outside every
/// repository.
#[derive(Debug, Clone, Copy, PartialEq, Eq, Structural)]
pub enum Access {
    Read,
    Write,
}

/// The rule for one path.
#[derive(Debug, Clone, Copy, PartialEq, Eq, Structural)]
pub enum Rule {
    /// The canonical form must lie under the root.
    UnderRoot,
    /// The canonical form must lie in a repository.
    InRepository(Access),
    /// The canonical form must lie under the root, and in a repository.
    UnderRootInRepository(Access),
}

impl Rule {
    /// Whether the rule holds the path to the root.
    pub open spec fn holds_to_root(self) -> bool {
        self is UnderRoot || self is UnderRootInRepository
    }

    /// The purpose for which the rule asks for a repository, if it asks for
    /// one.
    pub open spec fn asks_repository(self) -> Option<Access> {
        match self {
            Rule::UnderRoot => None,
            Rule::InRepository(access) => Some(access),
            Rule::UnderRootInRepository(access) => Some(access),
        }
    }
}

/// The rule for an end of a copy or a move: it must lie in a repository
/// however it was given, and under the root where it was given as a relative
/// path.
pub open spec fn rule_for_end(absolute: bool) -> Rule {
    if absolute {
        Rule::InRepository(Access::Write)
    } else {
        Rule::UnderRootInRepository(Access::Write)
    }
}

pub fn choose_rule_for_end(absolute: bool) -> (rule: Rule)
    ensures
        rule == rule_for_end(absolute),
{
    if absolute {
        Rule::InRepository(Access::Write)
    } else {
        Rule::UnderRootInRepository(Access::Write)
    }
}

/// The rule for a path of a request: by how it was given.
pub open spec fn rule_for(absolute: bool, access: Access) -> Rule {
    if absolute {
        Rule::InRepository(access)
    } else {
        Rule::UnderRoot
    }
}

pub fn choose_rule(absolute: bool, access: Access) -> (rule: Rule)
    ensures
        rule == rule_for(absolute, access),
{
    if absolute {
        Rule::InRepository(access)
    } else {
        Rule::UnderRoot
    }
}

/// The error for a path outside every repository.
pub open spec fn outside_error(access: Access, path: FsPath) -> FsError {
    match access {
        Access::Read => FsError::ReadFileNotInGit { path },
        Access::Write => FsError::WritePathNotInGit { path },
    }
}

/// A check on its way.
#[derive(Debug, PartialEq, Eq)]
pub enum Guard {
    /// The path is being resolved.
    Resolving { path: FsPath, rule: Rule },
    /// A repository is being looked for above the canonical form.
    Locating { canonical: FsPath, access: Access, search: RepoSearch },
}

/// A path that passed.
#[derive(Debug, PartialEq, Eq)]
pub struct Cleared {
    pub canonical: FsPath,
    /// The root of the repository, where the rule asked for one.
    pub repo: Option<FsPath>,
}

/// A path that passed, with the root of its repository as plain text.
pub struct ClearedView {
    pub canonical: FsPath,
    pub repo: Option<Seq<u8>>,
}

impl View for Cleared {
    type V = ClearedView;

    open spec fn view(&self) -> ClearedView {
        ClearedView {
            canonical: self.canonical,
            repo: match self.repo {
                Some(r) => Some(r@),
                None => None,
            },
        }
    }
}

/// What an event leads to.
#[derive(Debug, PartialEq)]
pub enum GuardStep {
    Ask(Guard),
    Passed(Cleared),
    Failed(FsError),
}

impl Guard {
    pub open spec fn awaits(&self) -> ActionView {
        match *self {
            Guard::Resolving { path, .. } => ActionView::Canonicalize { path: path@ },
            Guard::Locating { search, .. } => search.awaits(),
        }
    }

    pub fn request(&self) -> (action: FsAction)
        ensures
            action@ == self.awaits(),
    {
        match self {
            Guard::Resolving { path, .. } => FsAction::Canonicalize { path: path.copy() },
            Guard::Locating { search, .. } => search.request(),
        }
    }

    /// The check of `path` by `rule`.
    pub fn begin(path: FsPath, rule: Rule) -> (guard: Guard)
        ensures
            guard == (Guard::Resolving { path, rule }),
    {
        Guard::Resolving { path, rule }
    }

    /// The error that an event ends the check with, if it does: the path
    /// does not resolve, it resolves to a place outside the root, or the
    /// search for a repository reaches the top.
    pub open spec fn failure(self, fs: &LocalGitAwareFs, event: FsEvent<'_>) -> Option<FsError> {
        match (self, event) {
            (Guard::Resolving { path, .. }, FsEvent::Resolved(Err(source))) => Some(
                FsError::CanonicalizePath { path, source },
            ),
            (Guard::Resolving { rule, .. }, FsEvent::Resolved(Ok(c))) => {
                if rule.holds_to_root() && !fs.contains(c@) {
                    Some(FsError::PathEscapesRepo { path: c })
                } else {
                    None
                }
            },
            (Guard::Locating { canonical, access, search }, FsEvent::Exists(found)) => {
                if !found && search.at_top() {
                    Some(outside_error(access, canonical))
                } else {
                    None
                }
            },
            _ => None,
        }
    }

    /// The path that an event lets through, if it does: one that lies under
    /// the root, or one above which a repository was found.
    pub open spec fn clears(self, fs: &LocalGitAwareFs, event: FsEvent<'_>) -> Option<ClearedView> {
        match (self, event) {
            (Guard::Resolving { rule, .. }, FsEvent::Resolved(Ok(c))) => {
                if rule == Rule::UnderRoot && fs.contains(c@) {
                    Some(ClearedView { canonical: c, repo: None })
                } else {
                    None
                }
            },
            (Guard::Locating { canonical, search, .. }, FsEvent::Exists(found)) => {
                if found {
                    Some(ClearedView { canonical, repo: Some(search.dir()) })
                } else {
                    None
                }
            },
            _ => None,
        }
    }

    /// Whether `next` is where the check stands after an event that neither
    /// fails nor completes it. An event of another kind than was asked for
    /// changes nothing.
    pub open spec fn continues(self, fs: &LocalGitAwareFs, event: FsEvent<'_>, next: Guard) -> bool {
        match (self, event) {
            (Guard::Resolving { rule, .. }, FsEvent::Resolved(Ok(c))) => {
                next matches Guard::Locating { canonical, access, search } && canonical == c
                    && Some(access) == rule.asks_repository() && search.parts() == components(c@)
                    && search.depth() == search.parts().len()
            },
            (Guard::Locating { canonical, access, search }, FsEvent::Exists(false)) => {
                next matches Guard::Locating { canonical: c, access: a, search: above } && c
                    == canonical && a == access && above.parts() == search.parts()
                    && above.depth() == search.depth() - 1
            },
            _ => next == self,
        }
    }

    /// Takes the event for the action that was asked for.
    pub fn resume(self, fs: &LocalGitAwareFs, event: FsEvent<'_>) -> (step: GuardStep)
        ensures
            match step {
                GuardStep::Failed(e) => self.failure(fs, event) == Some(e),
                GuardStep::Passed(cleared) => self.failure(fs, event) is None && self.clears(
                    fs,
                    event,
                ) == Some(cleared@),
                GuardStep::Ask(next) => self.failure(fs, event) is None && self.clears(fs, event)
                    is None && self.continues(fs, event, next),
            },
    {
        match self {
            Guard::Resolving { path, rule } => match event {
                FsEvent::Resolved(Err(source)) => GuardStep::Failed(
                    FsError::CanonicalizePath { path, source },
                ),
                FsEvent::Resolved(Ok(c)) => match rule {
                    Rule::UnderRoot => {
                        if fs.is_inside(&c) {
                            GuardStep::Passed(Cleared { canonical: c, repo: None })
                        } else {
                            GuardStep::Failed(FsError::PathEscapesRepo { path: c })
                        }
                    },
                    Rule::InRepository(access) => {
                        let search = RepoSearch::begin(&c);
                        GuardStep::Ask(Guard::Locating { canonical: c, access, search })
                    },
                    Rule::UnderRootInRepository(access) => {
                        if fs.is_inside(&c) {
                            let search = RepoSearch::begin(&c);
                            GuardStep::Ask(Guard::Locating { canonical: c, access, search })
                        } else {
                            GuardStep::Failed(FsError::PathEscapesRepo { path: c })
                        }
                    },
                },
                _ => GuardStep::Ask(Guard::Resolving { path, rule }),
            },
            Guard::Locating { canonical, access, search } => match event {
                FsEvent::Exists(found) => match search.resume(found) {
                    RepoStep::Found(root) => GuardStep::Passed(
                        Cleared { canonical, repo: Some(root) },
                    ),
                    RepoStep::Missing => GuardStep::Failed(
                        match access {
                            Access::Read => FsError::ReadFileNotInGit { path: canonical },
                            Access::Write => FsError::WritePathNotInGit { path: canonical },
                        },
                    ),
                    RepoStep::Probe(above) => GuardStep::Ask(
                        Guard::Locating { canonical, access, search: above },
                    ),
                },
                _ => GuardStep::Ask(Guard::Locating { canonical, access, search }),
            },
        }
    }
}

/// A relative path that resolves to a place outside the root is never let
/// through: the check fails as an escape, whatever the path is made of and
/// whatever it is wanted for.
pub proof fn lemma_escape_fails(
    fs: &LocalGitAwareFs,
    path: FsPath,
    canonical: FsPath,
    access: Access,
)
    requires
        !fs.contains(canonical@),
    ensures
        (Guard::Resolving { path, rule: rule_for(false, access) }).failure(
            fs,
            FsEvent::Resolved(Ok(canonical)),
        ) == Some(FsError::PathEscapesRepo { path: canonical }),
        (Guard::Resolving { path, rule: rule_for_end(false) }).failure(
            fs,
            FsEvent::Resolved(Ok(canonical)),
        ) == Some(FsError::PathEscapesRepo { path: canonical }),
{
}

} // verus!
