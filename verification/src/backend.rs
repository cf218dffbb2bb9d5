//! The sandbox and its rules for paths.
//!
//! Every operation begins here. A path in a request is text; it is taken below
//! the root unless it is absolute. A relative path must stay under the root
//! once it is resolved. An absolute path may lie anywhere, but only inside a
//! repository.

use vstd::prelude::*;
use vstd::utf8::encode_utf8;

use crate::error::{FsError, IoFailure};
use crate::io::{answers, ActionView, FsAction, FsEvent, Step};
use crate::path::{is_absolute, joined, starts_with, stripped, FsPath, DOT};
use crate::text::lossy_decoded;

verus! {

/// The engine, bound to one root directory for as long as it lives.
#[derive(Debug, Clone, PartialEq, Eq)]
pub struct LocalGitAwareFs {
    root: FsPath,
}

/// A path that was resolved, with the rule that applies to it.
#[derive(Debug, Clone, PartialEq, Eq)]
pub struct ResolvedPath {
    /// The canonical, absolute form.
    pub canonical: FsPath,
    /// Whether the request gave the path as an absolute one.
    pub was_absolute: bool,
}

/// The path that a root is made of when `root` is given: the empty path
/// stands for the current directory.
pub open spec fn startup_path(root: Seq<u8>) -> Seq<u8> {
    if root.len() == 0 {
        seq![DOT]
    } else {
        root
    }
}

/// Setting up an engine.
#[derive(Debug, PartialEq, Eq)]
pub enum Startup {
    /// The root is being resolved.
    Resolving { given: FsPath },
    /// The resolved root is being looked up.
    Checking { root: FsPath },
}

impl Startup {
    pub open spec fn awaits(&self) -> ActionView {
        match *self {
            Startup::Resolving { given } => ActionView::Canonicalize { path: given@ },
            Startup::Checking { root } => ActionView::Metadata { path: root@ },
        }
    }

    pub fn request(&self) -> (action: FsAction)
        ensures
            action@ == self.awaits(),
    {
        match self {
            Startup::Resolving { given } => FsAction::Canonicalize { path: given.copy() },
            Startup::Checking { root } => FsAction::Metadata { path: root.copy() },
        }
    }

    /// Takes the event for the action that was asked for.
    ///
    /// A root that cannot be resolved fails with the failure of the operating
    /// system. A resolved root must be a directory; whatever keeps the look-up
    /// from saying so counts as its not being one. An event of another kind
    /// changes nothing, and the action is asked for again.
    pub fn resume(self, event: FsEvent<'_>) -> (step: Step<Startup, LocalGitAwareFs>)
        ensures
            step matches Step::Perform(s, a) ==> a@ == s.awaits(),
            !answers(self.awaits(), event) ==> (step matches Step::Perform(s, _) && s == self),
            self matches Startup::Resolving { given } ==> match event {
                FsEvent::Resolved(Ok(canonical)) => step matches Step::Perform(
                    Startup::Checking { root },
                    _,
                ) && root == canonical,
                FsEvent::Resolved(Err(source)) => step == Step::<
                    Startup,
                    LocalGitAwareFs,
                >::Finished(Err(FsError::CanonicalizeRoot { root: given, source })),
                _ => true,
            },
            self matches Startup::Checking { root } ==> match event {
                FsEvent::Meta(Ok(meta)) if meta.is_dir => step matches Step::Finished(Ok(fs))
                    && fs.root_view() == root@,
                FsEvent::Meta(_) => step == Step::<Startup, LocalGitAwareFs>::Finished(
                    Err(FsError::RootNotDirectory { path: root }),
                ),
                _ => true,
            },
    {
        match self {
            Startup::Resolving { given } => match event {
                FsEvent::Resolved(Ok(canonical)) => {
                    let next = Startup::Checking { root: canonical };
                    let action = next.request();
                    Step::Perform(next, action)
                },
                FsEvent::Resolved(Err(source)) => Step::Finished(
                    Err(FsError::CanonicalizeRoot { root: given, source }),
                ),
                _ => {
                    let same = Startup::Resolving { given };
                    let action = same.request();
                    Step::Perform(same, action)
                },
            },
            Startup::Checking { root } => match event {
                FsEvent::Meta(Ok(meta)) => {
                    if meta.is_dir {
                        Step::Finished(Ok(LocalGitAwareFs { root }))
                    } else {
                        Step::Finished(Err(FsError::RootNotDirectory { path: root }))
                    }
                },
                FsEvent::Meta(Err(_)) => Step::Finished(
                    Err(FsError::RootNotDirectory { path: root }),
                ),
                _ => {
                    let same = Startup::Checking { root };
                    let action = same.request();
                    Step::Perform(same, action)
                },
            },
        }
    }
}

impl LocalGitAwareFs {
    /// The text of the root.
    pub closed spec fn root_view(&self) -> Seq<u8> {
        self.root@
    }

    pub fn root(&self) -> (root: &FsPath)
        ensures
            root@ == self.root_view(),
    {
        &self.root
    }

    /// Begins to set up an engine below `root`.
    pub fn new(root: FsPath) -> (step: Step<Startup, LocalGitAwareFs>)
        ensures
            step matches Step::Perform(Startup::Resolving { given }, a) && given@ == startup_path(
                root@,
            ) && a@ == (ActionView::Canonicalize { path: given@ }),
    {
        let given = if root.bytes.len() == 0 {
            let dot: Vec<u8> = vec![DOT];
            assert(dot@ =~= seq![DOT]);
            FsPath::new(dot)
        } else {
            root
        };
        let state = Startup::Resolving { given };
        let action = state.request();
        Step::Perform(state, action)
    }

    /// Where a path of a request leads before it is resolved: below the root,
    /// unless it is absolute.
    pub open spec fn located(&self, raw: Seq<char>) -> Seq<u8> {
        joined(self.root_view(), encode_utf8(raw))
    }

    pub fn locate(&self, raw: &str) -> (path: FsPath)
        ensures
            path@ == self.located(raw@),
            is_absolute(encode_utf8(raw@)) ==> path@ == encode_utf8(raw@),
    {
        let given = FsPath::from_str(raw);
        self.root.join(&given)
    }

    /// Whether a resolved path lies under the root.
    pub open spec fn contains(&self, canonical: Seq<u8>) -> bool {
        starts_with(canonical, self.root_view())
    }

    pub fn is_inside(&self, canonical: &FsPath) -> (inside: bool)
        ensures
            inside == self.contains(canonical@),
    {
        canonical.starts_with(&self.root)
    }

    /// Judges what resolving a path of a request came to.
    ///
    /// `rel` is the path as the request gave it, `canonical` what the
    /// operating system made of it, taken below the root, and `repo` the
    /// nearest directory from the canonical form upward that holds the marker
    /// of a repository, if there is one. A path that could not be resolved
    /// fails with that failure. A relative path must lie under the root once
    /// it is resolved, whatever it is made of; where it does not, it fails as
    /// an escape. An absolute path may lie anywhere, but only inside a
    /// repository; outside every repository it is refused.
    pub fn resolve_path(
        &self,
        rel: &str,
        canonical: std::result::Result<FsPath, IoFailure>,
        repo: Option<FsPath>,
    ) -> (resolved: std::result::Result<ResolvedPath, FsError>)
        ensures
            match canonical {
                Err(source) => resolved matches Err(FsError::CanonicalizePath { path, source: s })
                    && path@ == self.located(rel@) && s == source,
                Ok(c) => if !is_absolute(encode_utf8(rel@)) {
                    if self.contains(c@) {
                        resolved == Ok::<ResolvedPath, FsError>(
                            ResolvedPath { canonical: c, was_absolute: false },
                        )
                    } else {
                        resolved == Err::<ResolvedPath, FsError>(
                            FsError::PathEscapesRepo { path: c },
                        )
                    }
                } else if repo is None {
                    resolved == Err::<ResolvedPath, FsError>(FsError::ReadFileNotInGit { path: c })
                } else {
                    resolved == Ok::<ResolvedPath, FsError>(
                        ResolvedPath { canonical: c, was_absolute: true },
                    )
                },
            },
    {
        let given = FsPath::from_str(rel);
        let was_absolute = given.is_absolute();
        match canonical {
            Err(source) => Err(FsError::CanonicalizePath { path: self.root.join(&given), source }),
            Ok(c) => {
                if !was_absolute {
                    if c.starts_with(&self.root) {
                        Ok(ResolvedPath { canonical: c, was_absolute })
                    } else {
                        Err(FsError::PathEscapesRepo { path: c })
                    }
                } else if repo.is_none() {
                    Err(FsError::ReadFileNotInGit { path: c })
                } else {
                    Ok(ResolvedPath { canonical: c, was_absolute })
                }
            },
        }
    }

    /// The path below the root as text, where it lies under the root.
    pub open spec fn relative_text(&self, path: Seq<u8>) -> Option<Seq<char>> {
        match stripped(path, self.root_view()) {
            Some(rest) => Some(lossy_decoded(rest)),
            None => None,
        }
    }

    pub fn strip_root(&self, path: &FsPath) -> (text: Option<String>)
        ensures
            match text {
                Some(t) => Some(t@),
                None => None,
            } == self.relative_text(path@),
    {
        match path.strip_prefix(&self.root) {
            Some(rest) => Some(rest.display()),
            None => None,
        }
    }

    /// How a path is shown in a reply: relative to the root where it lies
    /// under it, and in full otherwise.
    pub open spec fn shown(&self, path: Seq<u8>) -> Seq<char> {
        match self.relative_text(path) {
            Some(t) => t,
            None => lossy_decoded(path),
        }
    }

    pub fn show(&self, path: &FsPath) -> (text: String)
        ensures
            text@ == self.shown(path@),
    {
        match self.strip_root(path) {
            Some(t) => t,
            None => path.display(),
        }
    }
}

/// What a request names by a relative path lies below the root as far as its
/// text tells. Where its canonical form lies elsewhere, a `..` or a link led
/// there, and the path is refused.
pub proof fn lemma_located_below_root(fs: &LocalGitAwareFs, raw: Seq<char>)
    requires
        !is_absolute(encode_utf8(raw)),
        fs.root_view().len() > 0,
    ensures
        fs.contains(fs.located(raw)),
{
    crate::path::lemma_joined_components(fs.root_view(), encode_utf8(raw));
}

} // verus!
