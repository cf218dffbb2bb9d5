//! Finding the repository that a path lies in.
//!
//! A repository root is a directory that holds the marker `.git`. The search
//! begins at a path and goes upward, one component at a time, until a marker
//! is there or the path has no parent left. Reaching the top is an answer, not
//! an error. The directories that are looked at are written out from the
//! components of the path, with one separator between them.

use vstd::prelude::*;

use crate::backend::LocalGitAwareFs;
use crate::io::{ActionView, FsAction};
use crate::path::{
    components, join_bytes, joined, parts_view, render_prefix, rendered, root_part, FsPath, SEP,
};

verus! {

/// The name of the marker, `.git`.
pub open spec fn git_marker() -> Seq<u8> {
    seq![46u8, 103u8, 105u8, 116u8]
}

/// The directory that the first `depth` components name.
pub open spec fn ancestor(parts: Seq<Seq<u8>>, depth: int) -> Seq<u8> {
    rendered(parts.take(depth))
}

/// Whether the directory of the first `depth` components has no parent: it is
/// the empty path or the root.
pub open spec fn is_top(parts: Seq<Seq<u8>>, depth: int) -> bool {
    depth <= 0 || (depth == 1 && parts[0] == root_part())
}

/// The nearest directory that holds a marker, among the one that the first
/// `depth` components name and its ancestors, given where markers are.
pub open spec fn nearest_repo(
    parts: Seq<Seq<u8>>,
    depth: int,
    has_marker: spec_fn(Seq<u8>) -> bool,
) -> Option<Seq<u8>>
    decreases depth,
{
    if has_marker(joined(ancestor(parts, depth), git_marker())) {
        Some(ancestor(parts, depth))
    } else if is_top(parts, depth) {
        None
    } else {
        nearest_repo(parts, depth - 1, has_marker)
    }
}

/// A search on its way upward.
#[derive(Debug, PartialEq, Eq)]
pub struct RepoSearch {
    /// The components of the path at which the search began.
    parts: Vec<Vec<u8>>,
    /// How many of them name the directory that is looked at now.
    depth: usize,
}

/// What an answer leads to.
#[derive(Debug, PartialEq, Eq)]
pub enum RepoStep {
    /// The directory holds the marker.
    Found(FsPath),
    /// No directory up to the top holds one.
    Missing,
    /// The parent is looked at next.
    Probe(RepoSearch),
}

impl RepoSearch {
    #[verifier::type_invariant]
    spec fn wf(&self) -> bool {
        self.depth <= self.parts.len()
    }

    /// The components of the path at which the search began.
    pub closed spec fn parts(&self) -> Seq<Seq<u8>> {
        parts_view(self.parts@)
    }

    /// How many components name the directory that is looked at.
    pub closed spec fn depth(&self) -> int {
        self.depth as int
    }

    /// The directory that is looked at.
    pub open spec fn dir(&self) -> Seq<u8> {
        ancestor(self.parts(), self.depth())
    }

    /// The path at which the marker would be.
    pub open spec fn marker(&self) -> Seq<u8> {
        joined(self.dir(), git_marker())
    }

    pub open spec fn at_top(&self) -> bool {
        is_top(self.parts(), self.depth())
    }

    /// What the search asks: whether the marker is there.
    pub open spec fn awaits(&self) -> ActionView {
        ActionView::Exists { path: self.marker() }
    }

    /// The repository that the search will find, given where markers are.
    pub open spec fn outcome(&self, has_marker: spec_fn(Seq<u8>) -> bool) -> Option<Seq<u8>> {
        nearest_repo(self.parts(), self.depth(), has_marker)
    }

    /// A search that begins at `start` itself.
    pub fn begin(start: &FsPath) -> (search: RepoSearch)
        ensures
            search.parts() == components(start@),
            search.depth() == search.parts().len(),
    {
        let parts = start.components();
        let depth = parts.len();
        RepoSearch { parts, depth }
    }

    pub fn request(&self) -> (action: FsAction)
        ensures
            action@ == self.awaits(),
    {
        proof {
            use_type_invariant(self);
        }
        let dir = render_prefix(&self.parts, self.depth);
        let name: Vec<u8> = vec![46u8, 103u8, 105u8, 116u8];
        assert(name@ =~= git_marker());
        FsAction::Exists { path: FsPath::new(join_bytes(&dir, &name)) }
    }

    /// Takes the answer for the directory that was looked at.
    pub fn resume(self, found: bool) -> (step: RepoStep)
        ensures
            0 <= self.depth() <= self.parts().len(),
            found ==> (step matches RepoStep::Found(dir) && dir@ == self.dir()),
            !found && self.at_top() ==> step is Missing,
            !found && !self.at_top() ==> (step matches RepoStep::Probe(next) && next.parts()
                == self.parts() && next.depth() == self.depth() - 1),
    {
        proof {
            use_type_invariant(&self);
        }
        if found {
            return RepoStep::Found(FsPath::new(render_prefix(&self.parts, self.depth)));
        }
        if self.depth == 0 {
            return RepoStep::Missing;
        }
        if self.depth == 1 {
            let first = &self.parts[0];
            let is_root = first.len() == 1 && first[0] == SEP;
            proof {
                let f = parts_view(self.parts@)[0];
                assert(f == first@);
                if f == root_part() {
                    assert(f.len() == 1 && f[0] == SEP);
                }
                if is_root {
                    assert(f =~= root_part());
                }
            }
            if is_root {
                return RepoStep::Missing;
            }
        }
        RepoStep::Probe(RepoSearch { parts: self.parts, depth: self.depth - 1 })
    }
}

impl LocalGitAwareFs {
    /// Begins to look for the repository that `start` lies in: the nearest
    /// directory, from `start` itself upward, that holds the marker.
    pub fn find_git_root(start: &FsPath) -> (search: RepoSearch)
        ensures
            search.parts() == components(start@),
            search.depth() == search.parts().len(),
    {
        RepoSearch::begin(start)
    }
}

/// One step of a search agrees with what the search will find, wherever the
/// markers are: a marker at the directory looked at settles the search there,
/// the top without one settles that there is none, and otherwise the answer is
/// that of the search one level up.
pub proof fn lemma_search_step(search: RepoSearch, has_marker: spec_fn(Seq<u8>) -> bool)
    ensures
        search.outcome(has_marker) == (if has_marker(search.marker()) {
            Some(search.dir())
        } else if search.at_top() {
            None
        } else {
            nearest_repo(search.parts(), search.depth() - 1, has_marker)
        }),
{
}

/// What a search finds is an ancestor of the path it began at, and one that
/// holds the marker.
pub proof fn lemma_search_finds_ancestor(parts: Seq<Seq<u8>>, depth: int, has_marker: spec_fn(Seq<u8>) -> bool)
    requires
        0 <= depth <= parts.len(),
    ensures
        nearest_repo(parts, depth, has_marker) matches Some(dir) ==> exists|k: int|
            0 <= k <= depth && dir == ancestor(parts, k) && has_marker(
                joined(#[trigger] ancestor(parts, k), git_marker()),
            ),
    decreases depth,
{
    if has_marker(joined(ancestor(parts, depth), git_marker())) {
    } else if is_top(parts, depth) {
    } else {
        lemma_search_finds_ancestor(parts, depth - 1, has_marker);
    }
}

} // verus!
