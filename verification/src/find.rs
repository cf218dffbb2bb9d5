//! Finding entries by name or by path.
//!
//! The entries may come in any order, from a walk that several workers share.
//! Matches are gathered as they come, up to the number that the page and what
//! is skipped before it need; a path that comes a second time is passed over.
//! When the walk is over they are sorted by path, and only then is the page
//! cut out: two walks that gathered the same matches give the same page,
//! whatever the order in which the matches came.

use vstd::prelude::*;
use vstd::relations::{sorted_by, total_ordering};
use vstd::utf8::{decode_utf8, encode_utf8, valid_utf8};

use crate::backend::LocalGitAwareFs;
use crate::error::FsError;
use crate::glob::{compiles, filter_of, given_patterns, rejected_label, set_matches, GlobFilterSet};
use crate::io::{answers, ActionView, EntryKind, FsAction, FsEvent, Step, WalkEntry};
use crate::order::{
    lemma_lex_both_ways, lemma_lex_total, lemma_lex_transitive, lex_le, rank_bytes, Rank,
};
use crate::paging::{page_of, take_page};
use crate::path::{file_name_of, same_path, FsPath};
use crate::pattern::{escaped, text_pattern_compiles, text_pattern_matches, NameMatcher};
use crate::text::{decode_strict, lossy_decoded};
use crate::traverse::{relative_to, Prelude, PreludeStep, Purpose};
use crate::types::{
    FindFileMatch, FindFilesArgs, FindFilesResult, FindMatchMode, DEFAULT_MAX_SEARCH_RESULTS,
};

verus! {

/// A request with every default filled in.
#[derive(Debug, Clone, Copy, PartialEq, Eq)]
pub struct FindOptions {
    pub recursive: bool,
    pub include_dirs: bool,
    pub max_results: u32,
    pub skip: u32,
    pub match_mode: FindMatchMode,
    pub case_sensitive: bool,
}

/// The options that a request stands for: all levels, directories too, names
/// only, without regard to case, from the first match on, unless it says
/// otherwise.
pub open spec fn find_options(args: FindFilesArgs) -> FindOptions {
    FindOptions {
        recursive: match args.recursive {
            Some(b) => b,
            None => true,
        },
        include_dirs: match args.include_dirs {
            Some(b) => b,
            None => true,
        },
        max_results: match args.max_results {
            Some(n) => n,
            None => DEFAULT_MAX_SEARCH_RESULTS,
        },
        skip: match args.skip {
            Some(n) => n,
            None => 0,
        },
        match_mode: match args.match_mode {
            Some(m) => m,
            None => FindMatchMode::Name,
        },
        case_sensitive: match args.case_sensitive {
            Some(b) => b,
            None => false,
        },
    }
}

fn resolve_options(args: &FindFilesArgs) -> (options: FindOptions)
    ensures
        options == find_options(*args),
{
    FindOptions {
        recursive: match args.recursive {
            Some(b) => b,
            None => true,
        },
        include_dirs: match args.include_dirs {
            Some(b) => b,
            None => true,
        },
        max_results: match args.max_results {
            Some(n) => n,
            None => DEFAULT_MAX_SEARCH_RESULTS,
        },
        skip: match args.skip {
            Some(n) => n,
            None => 0,
        },
        match_mode: match args.match_mode {
            Some(m) => m,
            None => FindMatchMode::Name,
        },
        case_sensitive: match args.case_sensitive {
            Some(b) => b,
            None => false,
        },
    }
}

/// How many matches are gathered at most: those that are skipped and those of
/// the page, as far as the count fits.
pub open spec fn needed(options: FindOptions) -> int {
    if options.skip + options.max_results > u32::MAX {
        u32::MAX as int
    } else {
        options.skip + options.max_results
    }
}

/// A match as plain values.
pub struct MatchView {
    pub path: Seq<char>,
    pub is_dir: bool,
}

impl View for FindFileMatch {
    type V = MatchView;

    open spec fn view(&self) -> MatchView {
        MatchView { path: self.path@, is_dir: self.is_dir }
    }
}

/// The matches of a vector as plain values.
pub open spec fn match_views(matches: Seq<FindFileMatch>) -> Seq<MatchView> {
    Seq::new(matches.len(), |i: int| matches[i]@)
}

/// Whether `a` stands before `b` or equals it: by the bytes of the path, and
/// for one and the same path the file before the directory.
pub open spec fn match_leq(a: MatchView, b: MatchView) -> bool {
    if a.path == b.path {
        !a.is_dir || b.is_dir
    } else {
        lex_le(encode_utf8(a.path), encode_utf8(b.path))
    }
}

/// The order in which matches are returned.
pub open spec fn match_order() -> spec_fn(MatchView, MatchView) -> bool {
    |a: MatchView, b: MatchView| match_leq(a, b)
}

/// Text is what its encoding says: two texts with the same bytes are one.
pub proof fn lemma_encoding_tells_apart(a: Seq<char>, b: Seq<char>)
    requires
        encode_utf8(a) == encode_utf8(b),
    ensures
        a == b,
{
    vstd::utf8::encode_utf8_decode_utf8(a);
    vstd::utf8::encode_utf8_decode_utf8(b);
}

/// The order of matches is total: any two matches compare, and two that
/// compare both ways are the same match.
pub proof fn lemma_match_order_total()
    ensures
        total_ordering(match_order()),
{
    let r = match_order();
    assert forall|x: MatchView| #[trigger] r(x, x) by {}
    assert forall|x: MatchView, y: MatchView| #[trigger] r(x, y) && #[trigger] r(y, x) implies x
        == y by {
        if x.path != y.path {
            lemma_lex_both_ways(encode_utf8(x.path), encode_utf8(y.path));
            lemma_encoding_tells_apart(x.path, y.path);
        }
    }
    assert forall|x: MatchView, y: MatchView, z: MatchView| #[trigger]
        r(x, y) && #[trigger] r(y, z) implies r(x, z) by {
        let bx = encode_utf8(x.path);
        let by = encode_utf8(y.path);
        let bz = encode_utf8(z.path);
        if x.path == y.path || y.path == z.path {
            if x.path == z.path && x.path != y.path {
                lemma_lex_both_ways(bx, by);
                lemma_encoding_tells_apart(x.path, y.path);
            }
        } else {
            lemma_lex_transitive(bx, by, bz, 0);
            if x.path == z.path {
                lemma_lex_both_ways(bx, by);
                lemma_encoding_tells_apart(x.path, y.path);
            }
        }
    }
    assert forall|x: MatchView, y: MatchView| #[trigger] r(x, y) || #[trigger] r(y, x) by {
        lemma_lex_total(encode_utf8(x.path), encode_utf8(y.path), 0);
    }
}

/// Whether `a` stands before `b` or equals it.
pub fn match_le(a: &FindFileMatch, b: &FindFileMatch) -> (le: bool)
    ensures
        le == match_leq(a@, b@),
{
    let rank = rank_bytes(a.path.as_str().as_bytes(), b.path.as_str().as_bytes());
    proof {
        if encode_utf8(a.path@) == encode_utf8(b.path@) {
            lemma_encoding_tells_apart(a.path@, b.path@);
        }
    }
    match rank {
        Rank::Before => true,
        Rank::Same => !a.is_dir || b.is_dir,
        Rank::After => false,
    }
}

/// Sorts matches by path.
pub fn sort_matches(matches: Vec<FindFileMatch>) -> (sorted: Vec<FindFileMatch>)
    ensures
        match_views(sorted@) == match_views(matches@).sort_by(match_order()),
{
    broadcast use vstd::seq_lib::group_to_multiset_ensures;

    let ghost all = match_views(matches@);
    let ghost leq = match_order();
    let mut rest = matches;
    let mut sorted: Vec<FindFileMatch> = Vec::new();
    proof {
        lemma_match_order_total();
        assert(match_views(sorted@) =~= Seq::<MatchView>::empty());
        assert(match_views(sorted@).to_multiset().add(all.to_multiset()) =~= all.to_multiset());
    }
    while rest.len() > 0
        invariant
            leq == match_order(),
            total_ordering(leq),
            sorted_by(match_views(sorted@), leq),
            match_views(sorted@).to_multiset().add(match_views(rest@).to_multiset())
                == all.to_multiset(),
        decreases rest.len(),
    {
        let ghost before_rest = match_views(rest@);
        let ghost before = match_views(sorted@);
        let item = rest.pop().unwrap();
        proof {
            assert(before_rest =~= match_views(rest@).push(item@));
        }
        let mut at: usize = 0;
        while at < sorted.len() && !match_le(&item, &sorted[at])
            invariant
                at <= sorted.len(),
                before == match_views(sorted@),
                forall|k: int| 0 <= k < at ==> !match_leq(item@, #[trigger] before[k]),
            decreases sorted.len() - at,
        {
            at += 1;
        }
        sorted.insert(at, item);
        proof {
            let after = match_views(sorted@);
            assert(after =~= before.insert(at as int, item@));
            assert forall|i: int, j: int| 0 <= i < j < after.len() implies #[trigger] leq(
                after[i],
                after[j],
            ) by {
                if j < at {
                    assert(leq(before[i], before[j]));
                } else if j == at {
                    assert(!match_leq(item@, before[i]));
                    assert(leq(item@, before[i]) || leq(before[i], item@));
                } else if i < at {
                    assert(leq(before[i], before[j - 1]));
                } else if i == at {
                    if at < j - 1 {
                        assert(leq(before[at as int], before[j - 1]));
                        assert(leq(item@, before[at as int]));
                    }
                } else {
                    assert(leq(before[i - 1], before[j - 1]));
                }
            }
            vstd::seq_lib::to_multiset_build(match_views(rest@), item@);
            vstd::seq_lib::to_multiset_insert(before, at as int, item@);
            assert(before_rest.to_multiset() == match_views(rest@).to_multiset().insert(item@));
            assert(after.to_multiset() == before.to_multiset().insert(item@));
            assert(after.to_multiset().add(match_views(rest@).to_multiset()) =~= all.to_multiset());
        }
    }
    proof {
        assert(match_views(rest@) =~= Seq::<MatchView>::empty());
        assert(match_views(sorted@).to_multiset() =~= all.to_multiset());
        all.lemma_sort_by_ensures(leq);
        vstd::seq_lib::lemma_sorted_unique(match_views(sorted@), all.sort_by(leq), leq);
    }
    sorted
}

/// Whether a match with this path is among `matches`.
pub open spec fn has_path(matches: Seq<MatchView>, path: Seq<char>) -> bool {
    exists|i: int| 0 <= i < matches.len() && (#[trigger] matches[i]).path == path
}

/// Whether no path comes twice in `matches`.
pub open spec fn distinct_paths(matches: Seq<MatchView>) -> bool {
    forall|i: int, j: int|
        0 <= i < j < matches.len() ==> (#[trigger] matches[i]).path != (#[trigger] matches[j]).path
}

/// Whether the path `a` stands before the path `b` in the order of their
/// bytes, and is not `b`.
pub open spec fn path_before(a: Seq<char>, b: Seq<char>) -> bool {
    lex_le(encode_utf8(a), encode_utf8(b)) && encode_utf8(a) != encode_utf8(b)
}

/// Whether the paths of `matches` rise from each match to the next, so that
/// no path comes twice.
pub open spec fn strictly_rising(matches: Seq<MatchView>) -> bool {
    forall|i: int, j: int|
        0 <= i < j < matches.len() ==> path_before(
            (#[trigger] matches[i]).path,
            (#[trigger] matches[j]).path,
        )
}

/// Sorting matches of which no two have the same path gives paths that rise
/// from each match to the next.
pub proof fn lemma_sorted_paths_rise(matches: Seq<MatchView>)
    requires
        distinct_paths(matches),
    ensures
        strictly_rising(matches.sort_by(match_order())),
        distinct_paths(matches.sort_by(match_order())),
        matches.sort_by(match_order()).len() == matches.len(),
{
    broadcast use vstd::seq_lib::group_to_multiset_ensures;

    lemma_match_order_total();
    matches.lemma_sort_by_ensures(match_order());
    let sorted = matches.sort_by(match_order());
    assert(sorted.len() == matches.len()) by {
        assert(sorted.to_multiset().len() == matches.to_multiset().len());
    }
    assert(matches.no_duplicates());
    matches.lemma_multiset_has_no_duplicates();
    sorted.lemma_multiset_has_no_duplicates_conv();
    assert forall|i: int, j: int| 0 <= i < j < sorted.len() implies path_before(
        (#[trigger] sorted[i]).path,
        (#[trigger] sorted[j]).path,
    ) by {
        let x = sorted[i];
        let y = sorted[j];
        assert(x != y);
        assert(sorted.contains(x) && sorted.contains(y));
        assert(matches.to_multiset().count(x) > 0 && matches.to_multiset().count(y) > 0);
        assert(matches.contains(x) && matches.contains(y));
        let a = choose|a: int| 0 <= a < matches.len() && matches[a] == x;
        let b = choose|b: int| 0 <= b < matches.len() && matches[b] == y;
        assert(a != b);
        assert(x.path != y.path) by {
            if a < b {
                assert(matches[a].path != matches[b].path);
            } else {
                assert(matches[b].path != matches[a].path);
            }
        }
        assert(match_order()(x, y));
        if encode_utf8(x.path) == encode_utf8(y.path) {
            lemma_encoding_tells_apart(x.path, y.path);
        }
    }
}

/// A search by name under way, as plain values.
pub struct FindModel {
    /// The canonical directory at which the walk began.
    pub start: Seq<u8>,
    pub includes: Option<Seq<Seq<char>>>,
    pub excludes: Option<Seq<Seq<char>>>,
    pub options: FindOptions,
    /// The query, escaped.
    pub pattern: Seq<char>,
    /// Whether the walk has been asked for.
    pub begun: bool,
    /// The matches gathered so far, as they came.
    pub matches: Seq<MatchView>,
}

impl FindModel {
    /// There is room on the page, no more matches were gathered than are
    /// needed, and no path was gathered twice.
    pub open spec fn wf(self) -> bool {
        &&& self.options.max_results > 0
        &&& self.matches.len() <= needed(self.options)
        &&& distinct_paths(self.matches)
    }

    /// How an entry of the walk is shown.
    pub open spec fn shown(self, root: Seq<u8>, entry: WalkEntry) -> Seq<char> {
        lossy_decoded(relative_to(self.start, root, entry.path@))
    }

    /// Whether an entry of the walk passes the filters.
    pub open spec fn keeps(self, root: Seq<u8>, entry: WalkEntry) -> bool {
        &&& !same_path(entry.path@, self.start)
        &&& entry.kind == EntryKind::Dir ==> self.options.include_dirs
        &&& self.includes matches Some(inc) ==> set_matches(inc, self.shown(root, entry))
        &&& self.excludes matches Some(exc) ==> !set_matches(exc, self.shown(root, entry))
    }

    /// The text in which the query is looked for: the name of the entry, where
    /// it has one that is text, or the path as it is shown.
    pub open spec fn haystack(self, root: Seq<u8>, entry: WalkEntry) -> Option<Seq<char>> {
        match self.options.match_mode {
            FindMatchMode::Name => match file_name_of(entry.path@) {
                Some(name) => if valid_utf8(name) {
                    Some(decode_utf8(name))
                } else {
                    None
                },
                None => None,
            },
            FindMatchMode::Path => Some(self.shown(root, entry)),
        }
    }

    /// Whether an entry of the walk is a match.
    pub open spec fn accepts(self, root: Seq<u8>, entry: WalkEntry) -> bool {
        &&& self.keeps(root, entry)
        &&& self.haystack(root, entry) matches Some(text) && text_pattern_matches(
            self.pattern,
            !self.options.case_sensitive,
            text,
        )
    }

    /// Whether an entry of the walk is a match that was not gathered before.
    /// A path that the walk hands out a second time is passed over.
    pub open spec fn fresh(self, root: Seq<u8>, entry: WalkEntry) -> bool {
        self.accepts(root, entry) && !has_path(self.matches, self.shown(root, entry))
    }

    /// The walk may hand out the entries in any order.
    pub open spec fn awaits(self) -> ActionView {
        if self.begun {
            ActionView::NextEntry
        } else {
            ActionView::Walk {
                root: self.start,
                max_depth: if self.options.recursive {
                    None
                } else {
                    Some(1usize)
                },
                parallel: true,
            }
        }
    }

    pub open spec fn passed(self) -> FindModel {
        FindModel { begun: true, ..self }
    }

    pub open spec fn gathered(self, found: MatchView) -> FindModel {
        FindModel { begun: true, matches: self.matches.push(found), ..self }
    }

    /// The page that the matches gathered so far give.
    pub open spec fn page(self) -> Seq<MatchView> {
        page_of(
            self.matches.sort_by(match_order()),
            self.options.skip as int,
            self.options.max_results as int,
        )
    }
}

/// A search by name under way.
pub struct FindSession {
    start: FsPath,
    filters: GlobFilterSet,
    options: FindOptions,
    matcher: NameMatcher,
    begun: bool,
    matches: Vec<FindFileMatch>,
}

impl View for FindSession {
    type V = FindModel;

    closed spec fn view(&self) -> FindModel {
        FindModel {
            start: self.start@,
            includes: self.filters.include_patterns(),
            excludes: self.filters.exclude_patterns(),
            options: self.options,
            pattern: self.matcher.pattern(),
            begun: self.begun,
            matches: match_views(self.matches@),
        }
    }
}

impl FindSession {
    #[verifier::type_invariant]
    spec fn inv(&self) -> bool {
        &&& self@.wf()
        &&& self.matcher.folds_case() == !self.options.case_sensitive
    }

    fn request(&self) -> (action: FsAction)
        ensures
            action@ == self@.awaits(),
    {
        if self.begun {
            FsAction::NextEntry
        } else {
            FsAction::Walk {
                root: self.start.copy(),
                max_depth: if self.options.recursive {
                    None
                } else {
                    Some(1usize)
                },
                parallel: true,
            }
        }
    }
}

/// Where a search by name stands.
pub enum FindState {
    /// The start is being checked.
    Starting { args: FindFilesArgs, prelude: Prelude },
    /// The walk is under way.
    Walking { session: FindSession },
}

impl FindState {
    /// The options of the search.
    pub open spec fn options(self) -> FindOptions {
        match self {
            FindState::Starting { args, .. } => find_options(args),
            FindState::Walking { session } => session@.options,
        }
    }

    /// How many matches the walk has come upon once `event` is taken.
    pub open spec fn seen_with(self, fs: &LocalGitAwareFs, event: FsEvent<'_>) -> nat {
        match (self, event) {
            (FindState::Walking { session }, FsEvent::Entry(Some(Ok(entry)))) => {
                if session@.fresh(fs.root_view(), entry) {
                    session@.matches.len() + 1
                } else {
                    session@.matches.len()
                }
            },
            (FindState::Walking { session }, _) => session@.matches.len(),
            (FindState::Starting { .. }, _) => 0nat,
        }
    }

    /// Whether the search under way is well formed. Every state that the
    /// library hands out is.
    pub open spec fn wf(self) -> bool {
        match self {
            FindState::Starting { .. } => true,
            FindState::Walking { session } => session@.wf(),
        }
    }

    pub open spec fn awaits(&self) -> ActionView {
        match *self {
            FindState::Starting { prelude, .. } => prelude.awaits(),
            FindState::Walking { session } => session@.awaits(),
        }
    }

    pub fn request(&self) -> (action: FsAction)
        ensures
            action@ == self.awaits(),
    {
        match self {
            FindState::Starting { prelude, .. } => prelude.request(),
            FindState::Walking { session } => session.request(),
        }
    }

    /// Whether `step` is what the start's passing its checks leads to: the
    /// filters are compiled, a request for no matches is answered at once
    /// without a walk, the query is compiled, and the walk begins.
    pub open spec fn begins(
        args: FindFilesArgs,
        start: FsPath,
        step: Step<FindState, FindFilesResult>,
    ) -> bool {
        let inc = given_patterns(args.include_globs);
        let exc = given_patterns(args.exclude_globs);
        let options = find_options(args);
        if !(compiles(inc) && compiles(exc)) {
            step matches Step::Finished(Err(FsError::InvalidGlobPattern { pattern, .. }))
                && pattern@ == rejected_label(
                if compiles(inc) {
                    exc
                } else {
                    inc
                },
            )
        } else if options.max_results == 0 {
            step matches Step::Finished(Ok(result)) && result.matches@.len() == 0
                && !result.has_more
        } else if !text_pattern_compiles(escaped(args.query@), !options.case_sensitive) {
            step matches Step::Finished(Err(FsError::InvalidFindFilesRegex { query, .. }))
                && query@ == args.query@
        } else {
            step matches Step::Perform(FindState::Walking { session }, _) && session@
                == (FindModel {
                start: start@,
                includes: filter_of(inc),
                excludes: filter_of(exc),
                options,
                pattern: escaped(args.query@),
                begun: false,
                matches: Seq::empty(),
            })
        }
    }

    /// Whether `step` is what an event leads to from this state.
    ///
    /// A match is gathered while fewer than are needed have come. The match
    /// that comes when all that are needed are there ends the walk, and the
    /// result says that there are more. At the end of the walk there are no
    /// more. Either way the result is the page of the sorted matches.
    pub open spec fn follows(
        self,
        fs: &LocalGitAwareFs,
        event: FsEvent<'_>,
        step: Step<FindState, FindFilesResult>,
    ) -> bool {
        match self {
            FindState::Starting { args, prelude } => {
                if let Some(e) = prelude.failure(fs, event) {
                    step == Step::<FindState, FindFilesResult>::Finished(Err(e))
                } else if let Some(start) = prelude.ready(fs, event) {
                    Self::begins(args, start, step)
                } else {
                    step matches Step::Perform(FindState::Starting { args: a, prelude: p }, _)
                        && a == args && prelude.continues(fs, event, p)
                }
            },
            FindState::Walking { session } => match event {
                FsEvent::Entry(None) => step matches Step::Finished(Ok(result)) && match_views(
                    result.matches@,
                ) == session@.page() && !result.has_more,
                FsEvent::Entry(Some(Err(_))) => step matches Step::Perform(
                    FindState::Walking { session: s },
                    _,
                ) && s@ == session@.passed(),
                FsEvent::Entry(Some(Ok(entry))) => {
                    let m = session@;
                    if !m.fresh(fs.root_view(), entry) {
                        step matches Step::Perform(FindState::Walking { session: s }, _) && s@
                            == m.passed()
                    } else if m.matches.len() >= needed(m.options) {
                        step matches Step::Finished(Ok(result)) && match_views(result.matches@)
                            == m.page() && result.has_more
                    } else {
                        step matches Step::Perform(FindState::Walking { session: s }, _) && s@
                            == m.gathered(
                            MatchView {
                                path: m.shown(fs.root_view(), entry),
                                is_dir: entry.kind == EntryKind::Dir,
                            },
                        )
                    }
                },
                _ => step matches Step::Perform(s, _) && s == self,
            },
        }
    }

    /// Takes the event for the action that was asked for.
    pub fn resume(self, fs: &LocalGitAwareFs, event: FsEvent<'_>) -> (step: Step<
        FindState,
        FindFilesResult,
    >)
        ensures
            self.follows(fs, event, step),
            step matches Step::Perform(s, a) ==> a@ == s.awaits() && s.wf() && s.options()
                == self.options(),
            !answers(self.awaits(), event) ==> (step matches Step::Perform(s, _) && s == self),
    {
        match self {
            FindState::Starting { args, prelude } => match prelude.resume(fs, event) {
                PreludeStep::Failed(e) => Step::Finished(Err(e)),
                PreludeStep::Ask(next) => {
                    let state = FindState::Starting { args, prelude: next };
                    let action = state.request();
                    Step::Perform(state, action)
                },
                PreludeStep::Ready(start) => begin_walk(args, start),
            },
            FindState::Walking { session } => match event {
                FsEvent::Entry(None) => finish(session, false),
                FsEvent::Entry(Some(Err(_))) => pass(session),
                FsEvent::Entry(Some(Ok(entry))) => {
                    proof {
                        use_type_invariant(&session);
                    }
                    if entry.path.same_path(&session.start) {
                        return pass(session);
                    }
                    let is_dir = entry.kind == EntryKind::Dir;
                    if is_dir && !session.options.include_dirs {
                        return pass(session);
                    }
                    let text = fs.relative_to(&session.start, &entry.path).display();
                    if !session.filters.is_kept(text.as_str()) {
                        return pass(session);
                    }
                    let hit = match session.options.match_mode {
                        FindMatchMode::Name => match entry.path.file_name() {
                            Some(name) => match decode_strict(name) {
                                Some(name_text) => session.matcher.is_match(name_text.as_str()),
                                None => false,
                            },
                            None => false,
                        },
                        FindMatchMode::Path => session.matcher.is_match(text.as_str()),
                    };
                    if !hit || holds_path(&session.matches, text.as_str()) {
                        return pass(session);
                    }
                    let cap = session.options.skip as u64 + session.options.max_results as u64;
                    let cap = if cap > u32::MAX as u64 {
                        u32::MAX as u64
                    } else {
                        cap
                    };
                    if session.matches.len() as u64 >= cap {
                        return finish(session, true);
                    }
                    let ghost before = match_views(session.matches@);
                    let FindSession { start, filters, options, matcher, begun, matches } = session;
                    let mut matches = matches;
                    let found = FindFileMatch { path: text, is_dir };
                    let ghost found_view = found@;
                    matches.push(found);
                    assert(match_views(matches@) =~= before.push(found_view));
                    assert(distinct_paths(before.push(found_view))) by {
                        let grown = before.push(found_view);
                        assert forall|i: int, j: int| 0 <= i < j < grown.len() implies (
                        #[trigger] grown[i]).path != (#[trigger] grown[j]).path by {
                            if j < before.len() {
                                assert(grown[i] == before[i] && grown[j] == before[j]);
                            } else {
                                assert(grown[i] == before[i]);
                            }
                        }
                    }
                    let next = FindSession {
                        start,
                        filters,
                        options,
                        matcher,
                        begun: true,
                        matches,
                    };
                    let state = FindState::Walking { session: next };
                    let action = state.request();
                    Step::Perform(state, action)
                },
                _ => {
                    proof {
                        use_type_invariant(&session);
                    }
                    let state = FindState::Walking { session };
                    let action = state.request();
                    Step::Perform(state, action)
                },
            },
        }
    }
}

/// Whether a match with this path was gathered.
fn holds_path(matches: &Vec<FindFileMatch>, path: &str) -> (held: bool)
    ensures
        held == has_path(match_views(matches@), path@),
{
    let mut i: usize = 0;
    while i < matches.len()
        invariant
            i <= matches.len(),
            forall|k: int| 0 <= k < i ==> (#[trigger] match_views(matches@)[k]).path != path@,
        decreases matches.len() - i,
    {
        let rank = rank_bytes(matches[i].path.as_str().as_bytes(), path.as_bytes());
        proof {
            if encode_utf8(matches@[i as int].path@) == encode_utf8(path@) {
                lemma_encoding_tells_apart(matches@[i as int].path@, path@);
            }
            assert(match_views(matches@)[i as int].path == matches@[i as int].path@);
        }
        if rank == Rank::Same {
            return true;
        }
        i += 1;
    }
    false
}

fn begin_walk(args: FindFilesArgs, start: FsPath) -> (step: Step<FindState, FindFilesResult>)
    ensures
        FindState::begins(args, start, step),
        step matches Step::Perform(s, a) ==> a@ == s.awaits() && s.wf() && s.options()
            == find_options(args),
{
    let options = resolve_options(&args);
    match GlobFilterSet::compile(&args.include_globs, &args.exclude_globs) {
        Err(e) => Step::Finished(Err(e)),
        Ok(filters) => {
            if options.max_results == 0 {
                return Step::Finished(Ok(FindFilesResult { matches: Vec::new(), has_more: false }));
            }
            match NameMatcher::literal(args.query.as_str(), options.case_sensitive) {
                Err(e) => Step::Finished(Err(e)),
                Ok(matcher) => {
                    let session = FindSession {
                        start,
                        filters,
                        options,
                        matcher,
                        begun: false,
                        matches: Vec::new(),
                    };
                    assert(session@.matches =~= Seq::<MatchView>::empty());
                    let state = FindState::Walking { session };
                    let action = state.request();
                    Step::Perform(state, action)
                },
            }
        },
    }
}

fn pass(session: FindSession) -> (step: Step<FindState, FindFilesResult>)
    ensures
        step matches Step::Perform(FindState::Walking { session: s }, a) && s@ == session@.passed()
            && a@ == s@.awaits() && s@.wf(),
{
    proof {
        use_type_invariant(&session);
    }
    let next = FindSession {
        start: session.start,
        filters: session.filters,
        options: session.options,
        matcher: session.matcher,
        begun: true,
        matches: session.matches,
    };
    let state = FindState::Walking { session: next };
    let action = state.request();
    Step::Perform(state, action)
}

fn finish(session: FindSession, has_more: bool) -> (step: Step<FindState, FindFilesResult>)
    ensures
        step matches Step::Finished(Ok(result)) && match_views(result.matches@) == session@.page()
            && result.has_more == has_more,
{
    let ghost m = session@;
    let options = session.options;
    let sorted = sort_matches(session.matches);
    let ghost sorted_views = match_views(sorted@);
    let page = take_page(sorted, options.skip, options.max_results);
    assert(match_views(page@) =~= page_of(
        sorted_views,
        options.skip as int,
        options.max_results as int,
    ));
    Step::Finished(Ok(FindFilesResult { matches: page, has_more }))
}

/// A search by name never returns more matches than were asked for. What it
/// returns is in the order of the paths, which rise from each match to the
/// next: no path comes twice. And it says that there are more exactly when
/// the walk has come upon more matches than the page and what is skipped
/// before it hold.
pub proof fn lemma_find_result(
    state: FindState,
    fs: &LocalGitAwareFs,
    event: FsEvent<'_>,
    step: Step<FindState, FindFilesResult>,
)
    requires
        state.wf(),
        state.follows(fs, event, step),
        step is Finished,
    ensures
        step matches Step::Finished(Ok(result)) ==> result.matches@.len()
            <= state.options().max_results && strictly_rising(match_views(result.matches@))
            && (state.options().max_results > 0 ==> (result.has_more <==> state.seen_with(
            fs,
            event,
        ) > needed(state.options()))),
{
    match (state, step) {
        (FindState::Walking { session }, Step::Finished(Ok(result))) => {
            lemma_page_sorted(session@);
            assert(match_views(result.matches@).len() == result.matches@.len());
        },
        (FindState::Starting { .. }, Step::Finished(Ok(result))) => {
            assert(match_views(result.matches@) =~= Seq::<MatchView>::empty());
        },
        _ => {},
    }
}

/// The page does not depend on the order in which the matches came: two runs
/// that gathered the same matches return the same page.
pub proof fn lemma_page_ignores_order(a: FindModel, b: FindModel)
    requires
        a.options == b.options,
        a.matches.to_multiset() == b.matches.to_multiset(),
    ensures
        a.page() == b.page(),
{
    lemma_match_order_total();
    a.matches.lemma_sort_by_ensures(match_order());
    b.matches.lemma_sort_by_ensures(match_order());
    vstd::seq_lib::lemma_sorted_unique(
        a.matches.sort_by(match_order()),
        b.matches.sort_by(match_order()),
        match_order(),
    );
}

/// The page is in the order of the paths, it is never longer than was asked
/// for, and it is full exactly when enough matches were gathered. Where no
/// path was gathered twice, the paths of the page rise from each match to
/// the next.
pub proof fn lemma_page_sorted(m: FindModel)
    ensures
        sorted_by(m.page(), match_order()),
        distinct_paths(m.matches) ==> strictly_rising(m.page()),
        m.page().len() <= m.options.max_results,
        m.options.max_results > 0 ==> (m.page().len() == m.options.max_results <==> m.matches.len()
            >= m.options.skip + m.options.max_results),
{
    broadcast use vstd::seq_lib::group_to_multiset_ensures;

    lemma_match_order_total();
    m.matches.lemma_sort_by_ensures(match_order());
    let sorted = m.matches.sort_by(match_order());
    let skip = m.options.skip as int;
    let max = m.options.max_results as int;
    crate::paging::lemma_page_len(sorted, skip, max);
    assert(sorted.len() == m.matches.len()) by {
        assert(sorted.to_multiset().len() == m.matches.to_multiset().len());
    }
    let page = m.page();
    assert forall|i: int, j: int| 0 <= i < j < page.len() implies #[trigger] match_order()(
        page[i],
        page[j],
    ) by {
        assert(page[i] == sorted[skip + i]);
        assert(page[j] == sorted[skip + j]);
    }
    if distinct_paths(m.matches) {
        lemma_sorted_paths_rise(m.matches);
        assert forall|i: int, j: int| 0 <= i < j < page.len() implies path_before(
            (#[trigger] page[i]).path,
            (#[trigger] page[j]).path,
        ) by {
            assert(page[i] == sorted[skip + i]);
            assert(page[j] == sorted[skip + j]);
        }
    }
}

impl LocalGitAwareFs {
    /// Begins a search by name.
    pub fn find_files(&self, args: FindFilesArgs) -> (step: Step<FindState, FindFilesResult>)
        ensures
            step matches Step::Perform(FindState::Starting { args: a, prelude }, action) && a
                == args && action@ == prelude.awaits() && prelude.begins(self, Purpose::Find, args.root),
    {
        let prelude = Prelude::begin(self, Purpose::Find, &args.root);
        let state = FindState::Starting { args, prelude };
        let action = state.request();
        Step::Perform(state, action)
    }
}

} // verus!
