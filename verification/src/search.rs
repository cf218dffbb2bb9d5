//! Searching the text of files.
//!
//! Every regular file that passes the filters is mapped and scanned line by
//! line. A line gives at most one hit, at its leftmost match. Hits are counted
//! as they are found: the first `skip` are passed over and the next
//! `max_results` are collected. The search ends with the walk, or with the
//! first hit that the page has no room for; only then are there more. The
//! files come in the order of the walk, which is not fixed, and hits are not
//! sorted afterwards.

use vstd::prelude::*;

use crate::backend::LocalGitAwareFs;
use crate::error::FsError;
use crate::glob::{compiles, filter_of, given_patterns, rejected_label, set_matches, GlobFilterSet};
use crate::io::{answers, ActionView, EntryKind, FsAction, FsEvent, Step, WalkEntry};
use crate::lines::{
    collect_lines, context_from, context_to, index_lines, line_at, line_count, line_slice,
    lines_text, offsets,
};
use crate::paging::page_of;
use crate::path::FsPath;
use crate::pattern::{bytes_pattern_compiles, first_match_start, search_pattern, LineMatcher};
use crate::text::{copy_text, decode_lossy, lossy_decoded, text_views};
use crate::traverse::{relative_to, Prelude, PreludeStep, Purpose};
use crate::types::{
    SearchHit, SearchMode, SearchTextArgs, SearchTextResult, DEFAULT_MAX_SEARCH_RESULTS,
    DEFAULT_SEARCH_CONTEXT_LINES,
};

verus! {

/// A request with every default filled in.
#[derive(Debug, Clone, Copy, PartialEq, Eq)]
pub struct SearchOptions {
    pub mode: SearchMode,
    pub case_sensitive: bool,
    pub max_results: u32,
    pub context_lines: u32,
    pub skip: u32,
}

/// The options that a request stands for: a literal query, without regard to
/// case, from the first hit on, unless it says otherwise.
pub open spec fn search_options(args: SearchTextArgs) -> SearchOptions {
    SearchOptions {
        mode: match args.mode {
            Some(m) => m,
            None => SearchMode::Literal,
        },
        case_sensitive: match args.case_sensitive {
            Some(b) => b,
            None => false,
        },
        max_results: match args.max_results {
            Some(n) => n,
            None => DEFAULT_MAX_SEARCH_RESULTS,
        },
        context_lines: match args.context_lines {
            Some(n) => n,
            None => DEFAULT_SEARCH_CONTEXT_LINES,
        },
        skip: match args.skip {
            Some(n) => n,
            None => 0,
        },
    }
}

fn resolve_options(args: &SearchTextArgs) -> (options: SearchOptions)
    ensures
        options == search_options(*args),
{
    SearchOptions {
        mode: match args.mode {
            Some(m) => m,
            None => SearchMode::Literal,
        },
        case_sensitive: match args.case_sensitive {
            Some(b) => b,
            None => false,
        },
        max_results: match args.max_results {
            Some(n) => n,
            None => DEFAULT_MAX_SEARCH_RESULTS,
        },
        context_lines: match args.context_lines {
            Some(n) => n,
            None => DEFAULT_SEARCH_CONTEXT_LINES,
        },
        skip: match args.skip {
            Some(n) => n,
            None => 0,
        },
    }
}

/// A hit as plain values.
pub struct HitView {
    pub path: Seq<char>,
    /// The number of the line, from 1.
    pub line: u64,
    /// The byte offset of the match in the line, from 0.
    pub column: u64,
    pub line_text: Seq<char>,
    pub context_before: Seq<Seq<char>>,
    pub context_after: Seq<Seq<char>>,
}

impl View for SearchHit {
    type V = HitView;

    open spec fn view(&self) -> HitView {
        HitView {
            path: self.path@,
            line: self.line,
            column: self.column,
            line_text: self.line_text@,
            context_before: text_views(self.context_before@),
            context_after: text_views(self.context_after@),
        }
    }
}

/// The hits of a vector as plain values.
pub open spec fn hit_views(hits: Seq<SearchHit>) -> Seq<HitView> {
    Seq::new(hits.len(), |i: int| hits[i]@)
}

/// What is looked for in a file, and how a hit is reported.
pub struct Probe {
    pub pattern: Seq<char>,
    pub fold_case: bool,
    /// How many lines of context are given on either side.
    pub context: int,
    /// The path under which the file is reported.
    pub shown: Seq<char>,
}

/// The hit on the line with index `idx`, if the line has one. An empty line
/// has none, whatever the pattern.
pub open spec fn line_hit(probe: Probe, bytes: Seq<u8>, idx: int) -> Option<HitView> {
    let line = line_at(bytes, idx);
    if line.len() == 0 {
        None
    } else {
        match first_match_start(probe.pattern, probe.fold_case, line) {
            Some(column) => Some(
                HitView {
                    path: probe.shown,
                    line: (idx + 1) as u64,
                    column: column as u64,
                    line_text: lossy_decoded(line),
                    context_before: lines_text(bytes, context_from(idx, probe.context), idx),
                    context_after: lines_text(
                        bytes,
                        idx + 1,
                        context_to(bytes, idx, probe.context),
                    ),
                },
            ),
            None => None,
        }
    }
}

/// The hits on the first `n` lines of a file, in order.
pub open spec fn hits_upto(probe: Probe, bytes: Seq<u8>, n: int) -> Seq<HitView>
    decreases n,
{
    if n <= 0 {
        Seq::empty()
    } else {
        match line_hit(probe, bytes, n - 1) {
            Some(hit) => hits_upto(probe, bytes, n - 1).push(hit),
            None => hits_upto(probe, bytes, n - 1),
        }
    }
}

/// The hits of a file, in the order of its lines.
pub open spec fn file_hits(probe: Probe, bytes: Seq<u8>) -> Seq<HitView> {
    hits_upto(probe, bytes, line_count(bytes))
}

/// A hit carries every line of context that the file has within reach: as
/// many lines before it as were asked for or as stand before it, and as many
/// after it as were asked for or as follow it. An empty line counts.
pub proof fn lemma_context_lengths(probe: Probe, bytes: Seq<u8>, idx: int)
    requires
        0 <= idx < line_count(bytes),
        0 <= probe.context,
        line_hit(probe, bytes, idx) is Some,
    ensures
        line_hit(probe, bytes, idx)->0.context_before.len() == if idx > probe.context {
            probe.context
        } else {
            idx
        },
        line_hit(probe, bytes, idx)->0.context_after.len() == if idx + 1 + probe.context
            < line_count(bytes) {
            probe.context
        } else {
            line_count(bytes) - idx - 1
        },
        forall|i: int|
            0 <= i < line_hit(probe, bytes, idx)->0.context_before.len() ==> #[trigger] line_hit(
                probe,
                bytes,
                idx,
            )->0.context_before[i] == lossy_decoded(
                line_at(bytes, context_from(idx, probe.context) + i),
            ),
        forall|i: int|
            0 <= i < line_hit(probe, bytes, idx)->0.context_after.len() ==> #[trigger] line_hit(
                probe,
                bytes,
                idx,
            )->0.context_after[i] == lossy_decoded(line_at(bytes, idx + 1 + i)),
{
    crate::lines::lemma_lines_text(bytes, context_from(idx, probe.context), idx);
    crate::lines::lemma_lines_text(bytes, idx + 1, context_to(bytes, idx, probe.context));
}

/// A line gives at most one hit: the hits of a file stand on lines whose
/// numbers rise from hit to hit.
pub proof fn lemma_one_hit_per_line(probe: Probe, bytes: Seq<u8>, n: int)
    requires
        0 <= n < u64::MAX,
    ensures
        hits_upto(probe, bytes, n).len() <= n,
        forall|i: int|
            0 <= i < hits_upto(probe, bytes, n).len() ==> 1 <= (#[trigger] hits_upto(
                probe,
                bytes,
                n,
            )[i]).line <= n,
        forall|i: int, j: int|
            0 <= i < j < hits_upto(probe, bytes, n).len() ==> (#[trigger] hits_upto(
                probe,
                bytes,
                n,
            )[i]).line < (#[trigger] hits_upto(probe, bytes, n)[j]).line,
    decreases n,
{
    if n > 0 {
        lemma_one_hit_per_line(probe, bytes, n - 1);
    }
}

/// The hits on the first lines of a file are the first hits of the file.
pub proof fn lemma_hits_grow(probe: Probe, bytes: Seq<u8>, k: int, n: int)
    requires
        0 <= k <= n,
    ensures
        hits_upto(probe, bytes, k).is_prefix_of(hits_upto(probe, bytes, n)),
    decreases n - k,
{
    let short = hits_upto(probe, bytes, k);
    if k == n {
        assert(short =~= short.subrange(0, short.len() as int));
    } else {
        lemma_hits_grow(probe, bytes, k, n - 1);
        let mid = hits_upto(probe, bytes, n - 1);
        let long = hits_upto(probe, bytes, n);
        assert(short =~= long.subrange(0, short.len() as int)) by {
            assert(short =~= mid.subrange(0, short.len() as int));
        }
    }
}

/// A page that is full is the page of every longer sequence of results.
pub proof fn lemma_full_page_stays(short: Seq<HitView>, long: Seq<HitView>, skip: int, max: int)
    requires
        0 <= skip,
        0 < max,
        short.is_prefix_of(long),
        short.len() >= skip + max,
    ensures
        page_of(long, skip, max) == page_of(short, skip, max),
{
    assert(short =~= long.subrange(0, short.len() as int));
    assert(page_of(long, skip, max) =~= page_of(short, skip, max));
}

/// A search under way, as plain values.
pub struct SearchModel {
    /// The canonical directory at which the walk began.
    pub start: Seq<u8>,
    pub includes: Option<Seq<Seq<char>>>,
    pub excludes: Option<Seq<Seq<char>>>,
    pub options: SearchOptions,
    /// The pattern that is looked for.
    pub pattern: Seq<char>,
    /// Whether the walk has been asked for.
    pub begun: bool,
    /// Every hit found so far, in the order in which the files came.
    pub found: Seq<HitView>,
    /// The hits collected for the page.
    pub hits: Seq<HitView>,
}

impl SearchModel {
    /// The page is what follows the first `skip` hits, no hit was found
    /// beyond it, and it has room for at least one hit.
    pub open spec fn wf(self) -> bool {
        &&& self.options.max_results > 0
        &&& self.found.len() <= self.options.skip + self.options.max_results
        &&& self.hits == page_of(
            self.found,
            self.options.skip as int,
            self.options.max_results as int,
        )
    }

    /// Whether a file of the walk is searched: it is a regular file, and the
    /// globs keep its path relative to where the walk began.
    pub open spec fn keeps(self, root: Seq<u8>, entry: WalkEntry) -> bool {
        let shown = lossy_decoded(relative_to(self.start, root, entry.path@));
        &&& entry.kind == EntryKind::File
        &&& self.includes matches Some(inc) ==> set_matches(inc, shown)
        &&& self.excludes matches Some(exc) ==> !set_matches(exc, shown)
    }

    /// What is looked for in a file that is reported as `shown`.
    pub open spec fn probe(self, shown: Seq<char>) -> Probe {
        Probe {
            pattern: self.pattern,
            fold_case: !self.options.case_sensitive,
            context: self.options.context_lines as int,
            shown,
        }
    }

    /// The walk may hand out the files in any order, and goes all the way
    /// down.
    pub open spec fn awaits(self) -> ActionView {
        if self.begun {
            ActionView::NextEntry
        } else {
            ActionView::Walk { root: self.start, max_depth: None, parallel: true }
        }
    }

    pub open spec fn passed(self) -> SearchModel {
        SearchModel { begun: true, ..self }
    }

    /// The search after a file whose hits, behind those found before, are
    /// `all`.
    pub open spec fn scanned(self, all: Seq<HitView>) -> SearchModel {
        SearchModel {
            begun: true,
            found: all,
            hits: page_of(all, self.options.skip as int, self.options.max_results as int),
            ..self
        }
    }
}

/// A search under way.
pub struct SearchSession {
    start: FsPath,
    filters: GlobFilterSet,
    options: SearchOptions,
    matcher: LineMatcher,
    begun: bool,
    seen: u64,
    hits: Vec<SearchHit>,
    found: Ghost<Seq<HitView>>,
}

impl View for SearchSession {
    type V = SearchModel;

    closed spec fn view(&self) -> SearchModel {
        SearchModel {
            start: self.start@,
            includes: self.filters.include_patterns(),
            excludes: self.filters.exclude_patterns(),
            options: self.options,
            pattern: self.matcher.pattern(),
            begun: self.begun,
            found: self.found@,
            hits: hit_views(self.hits@),
        }
    }
}

impl SearchSession {
    #[verifier::type_invariant]
    spec fn inv(&self) -> bool {
        &&& self@.wf()
        &&& self.seen == self.found@.len()
        &&& self.matcher.folds_case() == !self.options.case_sensitive
    }

    fn request(&self) -> (action: FsAction)
        ensures
            action@ == self@.awaits(),
    {
        if self.begun {
            FsAction::NextEntry
        } else {
            FsAction::Walk { root: self.start.copy(), max_depth: None, parallel: true }
        }
    }
}

/// Where a search stands.
pub enum SearchState {
    /// The start is being checked.
    Starting { args: SearchTextArgs, prelude: Prelude },
    /// The walk is under way.
    Walking { session: SearchSession },
    /// A file is being mapped.
    Mapping { session: SearchSession, path: FsPath, shown: String },
}

/// Whether `step` is what scanning a file leads to, where `all` are the hits
/// found before it and in it. With more hits than the page and what is skipped
/// before it hold, the search ends and says that there are more. Otherwise the
/// walk goes on, also with a page that is full: only a further hit shows that
/// there are more.
pub open spec fn scans(m: SearchModel, all: Seq<HitView>, step: Step<SearchState, SearchTextResult>) -> bool {
    if all.len() > m.options.skip + m.options.max_results {
        step matches Step::Finished(Ok(result)) && hit_views(result.hits@) == page_of(
            all,
            m.options.skip as int,
            m.options.max_results as int,
        ) && result.has_more
    } else {
        step matches Step::Perform(SearchState::Walking { session }, _) && session@ == m.scanned(
            all,
        )
    }
}

impl SearchState {
    /// How many hits the search returns at most.
    pub open spec fn max_results(self) -> u32 {
        match self {
            SearchState::Starting { args, .. } => search_options(args).max_results,
            SearchState::Walking { session } => session@.options.max_results,
            SearchState::Mapping { session, .. } => session@.options.max_results,
        }
    }

    /// How many hits the search passes over before its page.
    pub open spec fn skip(self) -> u32 {
        match self {
            SearchState::Starting { args, .. } => search_options(args).skip,
            SearchState::Walking { session } => session@.options.skip,
            SearchState::Mapping { session, .. } => session@.options.skip,
        }
    }

    /// How many hits the search has found once `event` is taken.
    pub open spec fn seen_with(self, event: FsEvent<'_>) -> nat {
        match (self, event) {
            (SearchState::Mapping { session, shown, .. }, FsEvent::Mapped(Ok(bytes))) => {
                session@.found.len() + file_hits(session@.probe(shown@), bytes@).len()
            },
            (SearchState::Mapping { session, .. }, _) => session@.found.len(),
            (SearchState::Walking { session }, _) => session@.found.len(),
            (SearchState::Starting { .. }, _) => 0nat,
        }
    }

    /// Whether the search under way is well formed. Every state that the
    /// library hands out is.
    pub open spec fn wf(self) -> bool {
        match self {
            SearchState::Starting { .. } => true,
            SearchState::Walking { session } => session@.wf(),
            SearchState::Mapping { session, .. } => session@.wf(),
        }
    }

    pub open spec fn awaits(&self) -> ActionView {
        match *self {
            SearchState::Starting { prelude, .. } => prelude.awaits(),
            SearchState::Walking { session } => session@.awaits(),
            SearchState::Mapping { path, .. } => ActionView::MapFile { path: path@ },
        }
    }

    pub fn request(&self) -> (action: FsAction)
        ensures
            action@ == self.awaits(),
    {
        match self {
            SearchState::Starting { prelude, .. } => prelude.request(),
            SearchState::Walking { session } => session.request(),
            SearchState::Mapping { path, .. } => FsAction::MapFile { path: path.copy() },
        }
    }

    /// Whether `step` is what the start's passing its checks leads to: the
    /// filters and the query are compiled, a request for no hits is answered
    /// at once without a walk, and otherwise the walk begins.
    pub open spec fn begins(
        args: SearchTextArgs,
        start: FsPath,
        step: Step<SearchState, SearchTextResult>,
    ) -> bool {
        let inc = given_patterns(args.include_globs);
        let exc = given_patterns(args.exclude_globs);
        let options = search_options(args);
        let pattern = search_pattern(args.query@, options.mode);
        if !(compiles(inc) && compiles(exc)) {
            step matches Step::Finished(Err(FsError::InvalidGlobPattern { pattern: p, .. })) && p@
                == rejected_label(
                if compiles(inc) {
                    exc
                } else {
                    inc
                },
            )
        } else if !bytes_pattern_compiles(pattern, !options.case_sensitive) {
            step matches Step::Finished(Err(FsError::InvalidSearchRegex { query, .. })) && query@
                == args.query@
        } else if options.max_results == 0 {
            step matches Step::Finished(Ok(result)) && result.hits@.len() == 0
                && !result.has_more
        } else {
            step matches Step::Perform(SearchState::Walking { session }, _) && session@
                == (SearchModel {
                start: start@,
                includes: filter_of(inc),
                excludes: filter_of(exc),
                options,
                pattern,
                begun: false,
                found: Seq::empty(),
                hits: Seq::empty(),
            })
        }
    }

    /// Whether `step` is what an event leads to from this state.
    ///
    /// A file that cannot be mapped is passed over; the search goes on.
    pub open spec fn follows(
        self,
        fs: &LocalGitAwareFs,
        event: FsEvent<'_>,
        step: Step<SearchState, SearchTextResult>,
    ) -> bool {
        match self {
            SearchState::Starting { args, prelude } => {
                if let Some(e) = prelude.failure(fs, event) {
                    step == Step::<SearchState, SearchTextResult>::Finished(Err(e))
                } else if let Some(start) = prelude.ready(fs, event) {
                    Self::begins(args, start, step)
                } else {
                    step matches Step::Perform(SearchState::Starting { args: a, prelude: p }, _)
                        && a == args && prelude.continues(fs, event, p)
                }
            },
            SearchState::Walking { session } => match event {
                FsEvent::Entry(None) => step matches Step::Finished(Ok(result)) && hit_views(
                    result.hits@,
                ) == session@.hits && !result.has_more,
                FsEvent::Entry(Some(Err(_))) => step matches Step::Perform(
                    SearchState::Walking { session: s },
                    _,
                ) && s@ == session@.passed(),
                FsEvent::Entry(Some(Ok(entry))) => {
                    let m = session@;
                    if !m.keeps(fs.root_view(), entry) {
                        step matches Step::Perform(SearchState::Walking { session: s }, _) && s@
                            == m.passed()
                    } else {
                        step matches Step::Perform(
                            SearchState::Mapping { session: s, path, shown },
                            _,
                        ) && s@ == m.passed() && path == entry.path && shown@ == fs.shown(
                            entry.path@,
                        )
                    }
                },
                _ => step matches Step::Perform(s, _) && s == self,
            },
            SearchState::Mapping { session, path, shown } => match event {
                FsEvent::Mapped(Err(_)) => step matches Step::Perform(
                    SearchState::Walking { session: s },
                    _,
                ) && s@ == session@.passed(),
                FsEvent::Mapped(Ok(bytes)) => scans(
                    session@,
                    session@.found + file_hits(session@.probe(shown@), bytes@),
                    step,
                ),
                _ => step matches Step::Perform(s, _) && s == self,
            },
        }
    }

    /// Takes the event for the action that was asked for.
    pub fn resume(self, fs: &LocalGitAwareFs, event: FsEvent<'_>) -> (step: Step<
        SearchState,
        SearchTextResult,
    >)
        ensures
            self.follows(fs, event, step),
            step matches Step::Perform(s, a) ==> a@ == s.awaits() && s.wf() && s.max_results()
                == self.max_results(),
            !answers(self.awaits(), event) ==> (step matches Step::Perform(s, _) && s == self),
    {
        proof {
            match &self {
                SearchState::Walking { session } => {
                    use_type_invariant(session);
                },
                SearchState::Mapping { session, .. } => {
                    use_type_invariant(session);
                },
                _ => {},
            }
        }
        match self {
            SearchState::Starting { args, prelude } => match prelude.resume(fs, event) {
                PreludeStep::Failed(e) => Step::Finished(Err(e)),
                PreludeStep::Ask(next) => {
                    let state = SearchState::Starting { args, prelude: next };
                    let action = state.request();
                    Step::Perform(state, action)
                },
                PreludeStep::Ready(start) => begin_walk(args, start),
            },
            SearchState::Walking { session } => match event {
                FsEvent::Entry(None) => {
                    Step::Finished(Ok(SearchTextResult { hits: session.hits, has_more: false }))
                },
                FsEvent::Entry(Some(Err(_))) => pass(session),
                FsEvent::Entry(Some(Ok(entry))) => {
                    if entry.kind != EntryKind::File {
                        return pass(session);
                    }
                    let text = fs.relative_to(&session.start, &entry.path).display();
                    if !session.filters.is_kept(text.as_str()) {
                        return pass(session);
                    }
                    let shown = fs.show(&entry.path);
                    let state = SearchState::Mapping {
                        session: mark_begun(session),
                        path: entry.path,
                        shown,
                    };
                    let action = state.request();
                    Step::Perform(state, action)
                },
                _ => {
                    proof {
                        use_type_invariant(&session);
                    }
                    let state = SearchState::Walking { session };
                    let action = state.request();
                    Step::Perform(state, action)
                },
            },
            SearchState::Mapping { session, path, shown } => match event {
                FsEvent::Mapped(Err(_)) => pass(session),
                FsEvent::Mapped(Ok(bytes)) => scan(session, shown, bytes),
                _ => {
                    let state = SearchState::Mapping { session, path, shown };
                    let action = state.request();
                    Step::Perform(state, action)
                },
            },
        }
    }
}

fn begin_walk(args: SearchTextArgs, start: FsPath) -> (step: Step<SearchState, SearchTextResult>)
    ensures
        SearchState::begins(args, start, step),
        step matches Step::Perform(s, a) ==> a@ == s.awaits() && s.wf() && s.max_results()
            == search_options(args).max_results,
{
    let options = resolve_options(&args);
    match GlobFilterSet::compile(&args.include_globs, &args.exclude_globs) {
        Err(e) => Step::Finished(Err(e)),
        Ok(filters) => match LineMatcher::compile(
            args.query.as_str(),
            options.mode,
            options.case_sensitive,
        ) {
            Err(e) => Step::Finished(Err(e)),
            Ok(matcher) => {
                if options.max_results == 0 {
                    return Step::Finished(
                        Ok(SearchTextResult { hits: Vec::new(), has_more: false }),
                    );
                }
                let hits: Vec<SearchHit> = Vec::new();
                assert(hit_views(hits@) =~= page_of(
                    Seq::<HitView>::empty(),
                    options.skip as int,
                    options.max_results as int,
                ));
                let session = SearchSession {
                    start,
                    filters,
                    options,
                    matcher,
                    begun: false,
                    seen: 0,
                    hits,
                    found: Ghost(Seq::empty()),
                };
                let state = SearchState::Walking { session };
                let action = state.request();
                Step::Perform(state, action)
            },
        },
    }
}

fn mark_begun(session: SearchSession) -> (next: SearchSession)
    ensures
        next@ == session@.passed(),
        next@.wf(),
{
    proof {
        use_type_invariant(&session);
    }
    SearchSession {
        start: session.start,
        filters: session.filters,
        options: session.options,
        matcher: session.matcher,
        begun: true,
        seen: session.seen,
        hits: session.hits,
        found: session.found,
    }
}

fn pass(session: SearchSession) -> (step: Step<SearchState, SearchTextResult>)
    ensures
        step matches Step::Perform(SearchState::Walking { session: s }, a) && s@
            == session@.passed() && a@ == s@.awaits() && s@.wf(),
{
    let state = SearchState::Walking { session: mark_begun(session) };
    let action = state.request();
    Step::Perform(state, action)
}

/// Scans one file for hits.
#[verifier::loop_isolation(false)]
fn scan(session: SearchSession, shown: String, bytes: &[u8]) -> (step: Step<
    SearchState,
    SearchTextResult,
>)
    ensures
        scans(session@, session@.found + file_hits(session@.probe(shown@), bytes@), step),
        step matches Step::Perform(s, a) ==> a@ == s.awaits() && s.wf() && s.max_results()
            == session@.options.max_results,
{
    proof {
        use_type_invariant(&session);
    }
    let ghost m = session@;
    let ghost probe = m.probe(shown@);
    let ghost skip = m.options.skip as int;
    let ghost max = m.options.max_results as int;
    let SearchSession { start, filters, options, matcher, begun, seen, hits, found } = session;
    let mut seen = seen;
    let mut hits = hits;
    let ghost mut found_now = found@;
    let data = bytes;
    let starts = index_lines(data);
    let count = starts.len();
    let context = options.context_lines as usize;
    let mut idx: usize = 0;
    assert(found_now =~= m.found + hits_upto(probe, data@, 0));
    while idx < count
        invariant
            idx <= count,
            found_now == m.found + hits_upto(probe, data@, idx as int),
            seen == found_now.len(),
            found_now.len() <= skip + max,
            hit_views(hits@) == page_of(found_now, skip, max),
        decreases count - idx,
    {
        let line = line_slice(data, &starts, idx);
        if line.len() > 0 {
            match matcher.find(line) {
                Some(column) => {
                    let ghost hit_view = line_hit(probe, data@, idx as int)->0;
                    let ghost grown = found_now.push(hit_view);
                    proof {
                        assert(grown =~= m.found + hits_upto(probe, data@, idx + 1));
                    }
                    proof {
                        crate::paging::lemma_page_len(found_now, skip, max);
                        assert(hit_views(hits@).len() == hits@.len());
                    }
                    if seen < options.skip as u64 {
                        seen = seen + 1;
                        proof {
                            found_now = grown;
                            assert(page_of(found_now, skip, max) =~= Seq::<HitView>::empty());
                        }
                    } else if hits.len() >= options.max_results as usize {
                        proof {
                            let all = m.found + file_hits(probe, bytes@);
                            assert(count as int == line_count(data@)) by {
                                assert(offsets(starts@).len() == starts@.len());
                            }
                            lemma_hits_grow(probe, data@, idx as int, count as int);
                            lemma_hits_grow(probe, data@, idx + 1, count as int);
                            assert(found_now =~= all.subrange(0, found_now.len() as int));
                            assert(grown =~= all.subrange(0, grown.len() as int));
                            lemma_full_page_stays(found_now, all, skip, max);
                        }
                        return Step::Finished(Ok(SearchTextResult { hits, has_more: true }));
                    } else {
                        let from = if idx > context {
                            idx - context
                        } else {
                            0
                        };
                        let to = if context < count - idx - 1 {
                            idx + 1 + context
                        } else {
                            count
                        };
                        let hit = SearchHit {
                            path: copy_text(shown.as_str()),
                            line: idx as u64 + 1,
                            column: column as u64,
                            line_text: decode_lossy(line),
                            context_before: collect_lines(data, &starts, from, idx),
                            context_after: collect_lines(data, &starts, idx + 1, to),
                        };
                        assert(hit@ == hit_view);
                        let ghost before = hit_views(hits@);
                        hits.push(hit);
                        seen = seen + 1;
                        proof {
                            assert(hit_views(hits@) =~= before.push(hit_view));
                            assert(hit_views(hits@) =~= page_of(grown, skip, max));
                            found_now = grown;
                        }
                    }
                },
                None => {
                    assert(found_now =~= m.found + hits_upto(probe, data@, idx + 1));
                },
            }
        } else {
            assert(found_now =~= m.found + hits_upto(probe, data@, idx + 1));
        }
        idx += 1;
    }
    let next = SearchSession {
        start,
        filters,
        options,
        matcher,
        begun: true,
        seen,
        hits,
        found: Ghost(found_now),
    };
    let state = SearchState::Walking { session: next };
    let action = state.request();
    Step::Perform(state, action)
}

/// A search never returns more hits than were asked for, and it says that
/// there are more exactly when it has found more hits than the page and what
/// is skipped before it hold: a page that is full with the last hit there is
/// has no more behind it.
pub proof fn lemma_search_result(
    state: SearchState,
    fs: &LocalGitAwareFs,
    event: FsEvent<'_>,
    step: Step<SearchState, SearchTextResult>,
)
    requires
        state.wf(),
        state.follows(fs, event, step),
        step is Finished,
    ensures
        step matches Step::Finished(Ok(result)) ==> result.hits@.len() <= state.max_results()
            && (result.has_more <==> state.max_results() > 0 && state.seen_with(event)
            > state.skip() + state.max_results()),
{
    match (state, step) {
        (SearchState::Walking { session }, Step::Finished(Ok(result))) => {
            lemma_page_open(session@);
            assert(hit_views(result.hits@).len() == result.hits@.len());
        },
        (SearchState::Mapping { session, shown, .. }, Step::Finished(Ok(result))) => {
            let m = session@;
            match event {
                FsEvent::Mapped(Ok(bytes)) => {
                    let all = m.found + file_hits(m.probe(shown@), bytes@);
                    crate::paging::lemma_page_len(
                        all,
                        m.options.skip as int,
                        m.options.max_results as int,
                    );
                },
                _ => {},
            }
            assert(hit_views(result.hits@).len() == result.hits@.len());
        },
        _ => {},
    }
}

/// The page of a search that goes on holds the hits that follow the first
/// `skip`, in the order in which they were found, and no more of them than
/// were asked for.
pub proof fn lemma_page_open(m: SearchModel)
    requires
        m.wf(),
    ensures
        m.hits.len() <= m.options.max_results,
        forall|i: int| 0 <= i < m.hits.len() ==> #[trigger] m.hits[i] == m.found[m.options.skip + i],
        m.hits.len() == if m.found.len() > m.options.skip {
            m.found.len() - m.options.skip
        } else {
            0
        },
{
    crate::paging::lemma_page_len(m.found, m.options.skip as int, m.options.max_results as int);
}

impl LocalGitAwareFs {
    /// Begins a search.
    pub fn search_text(&self, args: SearchTextArgs) -> (step: Step<SearchState, SearchTextResult>)
        ensures
            step matches Step::Perform(SearchState::Starting { args: a, prelude }, action) && a
                == args && action@ == prelude.awaits() && prelude.begins(self, Purpose::Search, args.root),
    {
        let prelude = Prelude::begin(self, Purpose::Search, &args.root);
        let state = SearchState::Starting { args, prelude };
        let action = state.request();
        Step::Perform(state, action)
    }
}

} // verus!
