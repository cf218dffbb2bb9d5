//! Listing a directory, page by page.
//!
//! The entries come from one sequential walk. Each entry that passes the
//! filters is counted; the first `skip` of them are passed over, the next
//! `max_results` are collected, and the walk ends there.

use vstd::prelude::*;

use crate::backend::LocalGitAwareFs;
use crate::error::FsError;
use crate::glob::{compiles, filter_of, given_patterns, rejected_label, GlobFilterSet};
use crate::io::{answers, ActionView, EntryKind, FileMeta, FsAction, FsEvent, Step, WalkEntry};
use crate::paging::page_of;
use crate::path::{same_path, FsPath};
use crate::text::lossy_decoded;
use crate::traverse::{relative_to, Prelude, PreludeStep, Purpose};
use crate::types::{FileEntry, ListFilesArgs, ListFilesResult, DEFAULT_LIST_MAX_RESULTS};

verus! {

/// A listing request with every default filled in.
#[derive(Debug, Clone, Copy, PartialEq, Eq)]
pub struct ListOptions {
    pub recursive: bool,
    pub include_dirs: bool,
    pub include_metadata: bool,
    pub max_results: u32,
    pub skip: u32,
}

/// The options that a request stands for: all levels, files only, no
/// metadata, from the first entry on, unless it says otherwise.
pub open spec fn list_options(args: ListFilesArgs) -> ListOptions {
    ListOptions {
        recursive: match args.recursive {
            Some(b) => b,
            None => true,
        },
        include_dirs: match args.include_dirs {
            Some(b) => b,
            None => false,
        },
        include_metadata: match args.include_metadata {
            Some(b) => b,
            None => false,
        },
        max_results: match args.max_results {
            Some(n) => n,
            None => DEFAULT_LIST_MAX_RESULTS,
        },
        skip: match args.skip {
            Some(n) => n,
            None => 0,
        },
    }
}

fn resolve_options(args: &ListFilesArgs) -> (options: ListOptions)
    ensures
        options == list_options(*args),
{
    ListOptions {
        recursive: match args.recursive {
            Some(b) => b,
            None => true,
        },
        include_dirs: match args.include_dirs {
            Some(b) => b,
            None => false,
        },
        include_metadata: match args.include_metadata {
            Some(b) => b,
            None => false,
        },
        max_results: match args.max_results {
            Some(n) => n,
            None => DEFAULT_LIST_MAX_RESULTS,
        },
        skip: match args.skip {
            Some(n) => n,
            None => 0,
        },
    }
}

/// An entry of a listing as plain values.
pub struct EntryView {
    pub path: Seq<char>,
    pub is_dir: bool,
    pub size: Option<u64>,
    pub modified: Option<u64>,
}

impl View for FileEntry {
    type V = EntryView;

    open spec fn view(&self) -> EntryView {
        EntryView {
            path: self.path@,
            is_dir: self.is_dir,
            size: self.size,
            modified: self.modified,
        }
    }
}

/// The entries of a vector as plain values.
pub open spec fn entry_views(entries: Seq<FileEntry>) -> Seq<EntryView> {
    Seq::new(entries.len(), |i: int| entries[i]@)
}

/// An entry that passed the filters: its path as the listing shows it, and
/// whether it is a directory.
pub struct Listed {
    pub path: Seq<char>,
    pub is_dir: bool,
}

/// A listing under way, as plain values.
pub struct ListModel {
    /// The canonical directory at which the walk began.
    pub start: Seq<u8>,
    pub includes: Option<Seq<Seq<char>>>,
    pub excludes: Option<Seq<Seq<char>>>,
    pub options: ListOptions,
    /// Whether the walk has been asked for.
    pub begun: bool,
    /// Every entry that passed the filters so far, in the order of the walk.
    pub survivors: Seq<Listed>,
    /// The entries collected for the page.
    pub entries: Seq<EntryView>,
}

impl ListModel {
    /// The page is what follows the first `skip` survivors, it is not full
    /// yet, and it has room for at least one entry.
    pub open spec fn wf(self) -> bool {
        &&& self.options.max_results > 0
        &&& self.survivors.len() < self.options.skip + self.options.max_results
        &&& self.entries.len() == if self.survivors.len() > self.options.skip {
            self.survivors.len() - self.options.skip
        } else {
            0
        }
        &&& forall|i: int|
            0 <= i < self.entries.len() ==> (#[trigger] self.entries[i]).path
                == self.survivors[self.options.skip + i].path && self.entries[i].is_dir
                == self.survivors[self.options.skip + i].is_dir
    }

    /// How the listing shows an entry of the walk.
    pub open spec fn shown(self, root: Seq<u8>, entry: WalkEntry) -> Seq<char> {
        lossy_decoded(relative_to(self.start, root, entry.path@))
    }

    /// Whether an entry of the walk passes the filters: it is not the start
    /// itself, it is no directory unless directories are asked for, and the
    /// globs keep its path.
    pub open spec fn keeps(self, root: Seq<u8>, entry: WalkEntry) -> bool {
        &&& !same_path(entry.path@, self.start)
        &&& entry.kind == EntryKind::Dir ==> self.options.include_dirs
        &&& self.includes matches Some(inc) ==> crate::glob::set_matches(
            inc,
            self.shown(root, entry),
        )
        &&& self.excludes matches Some(exc) ==> !crate::glob::set_matches(
            exc,
            self.shown(root, entry),
        )
    }

    /// The walk goes one level deep unless the listing is recursive.
    pub open spec fn awaits(self) -> ActionView {
        if self.begun {
            ActionView::NextEntry
        } else {
            ActionView::Walk {
                root: self.start,
                max_depth: if self.options.recursive {
                    None
                } else {
                    Some(1usize)
                },
                parallel: false,
            }
        }
    }

    /// The listing after an entry that is passed over.
    pub open spec fn passed(self) -> ListModel {
        ListModel { begun: true, ..self }
    }

    /// The listing after a survivor that is counted but not collected.
    pub open spec fn counted(self, path: Seq<char>, is_dir: bool) -> ListModel {
        ListModel {
            begun: true,
            survivors: self.survivors.push(Listed { path, is_dir }),
            ..self
        }
    }

    /// The listing after a survivor that is collected.
    pub open spec fn collected(self, entry: EntryView) -> ListModel {
        ListModel {
            begun: true,
            survivors: self.survivors.push(Listed { path: entry.path, is_dir: entry.is_dir }),
            entries: self.entries.push(entry),
            ..self
        }
    }
}

/// A listing under way.
pub struct ListSession {
    start: FsPath,
    filters: GlobFilterSet,
    options: ListOptions,
    begun: bool,
    seen: u64,
    entries: Vec<FileEntry>,
    survivors: Ghost<Seq<Listed>>,
}

impl View for ListSession {
    type V = ListModel;

    closed spec fn view(&self) -> ListModel {
        ListModel {
            start: self.start@,
            includes: self.filters.include_patterns(),
            excludes: self.filters.exclude_patterns(),
            options: self.options,
            begun: self.begun,
            survivors: self.survivors@,
            entries: entry_views(self.entries@),
        }
    }
}

impl ListSession {
    #[verifier::type_invariant]
    spec fn inv(&self) -> bool {
        &&& self@.wf()
        &&& self.seen == self.survivors@.len()
    }

    fn request(&self) -> (action: FsAction)
        ensures
            action@ == self@.awaits(),
    {
        if self.begun {
            FsAction::NextEntry
        } else {
            FsAction::Walk {
                root: self.start.copy(),
                max_depth: if self.options.recursive {
                    None
                } else {
                    Some(1usize)
                },
                parallel: false,
            }
        }
    }
}

/// Where a listing stands.
pub enum ListState {
    /// The start is being checked.
    Starting { args: ListFilesArgs, prelude: Prelude },
    /// The walk is under way.
    Walking { session: ListSession },
    /// The metadata of a survivor that is to be collected is being looked up.
    Fetching { session: ListSession, path: FsPath, text: String, is_dir: bool },
}

/// What a look-up adds to an entry: its size and the time of its last change,
/// or nothing where the look-up failed.
pub open spec fn with_metadata(
    path: Seq<char>,
    is_dir: bool,
    meta: std::result::Result<FileMeta, crate::error::IoFailure>,
) -> EntryView {
    match meta {
        Ok(m) => EntryView { path, is_dir, size: Some(m.len), modified: m.modified },
        Err(_) => EntryView { path, is_dir, size: None, modified: None },
    }
}

/// Whether `step` is what admitting a survivor to the listing `m` leads to.
///
/// A survivor among the first `skip` is counted and the walk goes on. Any
/// other is collected; with it the page may be full, and then the listing ends
/// and says that there may be more.
pub open spec fn admits(m: ListModel, entry: EntryView, step: Step<ListState, ListFilesResult>) -> bool {
    if m.survivors.len() < m.options.skip {
        step matches Step::Perform(ListState::Walking { session }, _) && session@ == m.counted(
            entry.path,
            entry.is_dir,
        )
    } else if m.entries.len() + 1 >= m.options.max_results {
        step matches Step::Finished(Ok(result)) && entry_views(result.entries@) == m.entries.push(
            entry,
        ) && result.has_more
    } else {
        step matches Step::Perform(ListState::Walking { session }, _) && session@ == m.collected(
            entry,
        )
    }
}

impl ListState {
    /// How many entries the listing returns at most.
    pub open spec fn max_results(self) -> u32 {
        match self {
            ListState::Starting { args, .. } => list_options(args).max_results,
            ListState::Walking { session } => session@.options.max_results,
            ListState::Fetching { session, .. } => session@.options.max_results,
        }
    }

    /// How many entries the listing passes over before its page.
    pub open spec fn skip(self) -> u32 {
        match self {
            ListState::Starting { args, .. } => list_options(args).skip,
            ListState::Walking { session } => session@.options.skip,
            ListState::Fetching { session, .. } => session@.options.skip,
        }
    }

    /// How many survivors the walk has come upon once `event` is taken.
    pub open spec fn seen_with(self, fs: &LocalGitAwareFs, event: FsEvent<'_>) -> nat {
        match (self, event) {
            (ListState::Walking { session }, FsEvent::Entry(Some(Ok(entry)))) => {
                if session@.keeps(fs.root_view(), entry) {
                    session@.survivors.len() + 1
                } else {
                    session@.survivors.len()
                }
            },
            (ListState::Walking { session }, _) => session@.survivors.len(),
            (ListState::Fetching { session, .. }, FsEvent::Meta(_)) => session@.survivors.len()
                + 1,
            (ListState::Fetching { session, .. }, _) => session@.survivors.len(),
            (ListState::Starting { .. }, _) => 0nat,
        }
    }

    /// Whether the listing under way is well formed. Every state that the
    /// library hands out is.
    pub open spec fn wf(self) -> bool {
        match self {
            ListState::Starting { .. } => true,
            ListState::Walking { session } => session@.wf(),
            ListState::Fetching { session, .. } => session@.wf(),
        }
    }

    pub open spec fn awaits(&self) -> ActionView {
        match *self {
            ListState::Starting { prelude, .. } => prelude.awaits(),
            ListState::Walking { session } => session@.awaits(),
            ListState::Fetching { path, .. } => ActionView::Metadata { path: path@ },
        }
    }

    pub fn request(&self) -> (action: FsAction)
        ensures
            action@ == self.awaits(),
    {
        match self {
            ListState::Starting { prelude, .. } => prelude.request(),
            ListState::Walking { session } => session.request(),
            ListState::Fetching { path, .. } => FsAction::Metadata { path: path.copy() },
        }
    }

    /// Whether `step` is what the start's passing its checks leads to: the
    /// filters are compiled, a request for no entries is answered at once
    /// without a walk, and otherwise the walk begins.
    pub open spec fn begins(args: ListFilesArgs, start: FsPath, step: Step<ListState, ListFilesResult>) -> bool {
        let inc = given_patterns(args.include_globs);
        let exc = given_patterns(args.exclude_globs);
        if !(compiles(inc) && compiles(exc)) {
            step matches Step::Finished(Err(FsError::InvalidGlobPattern { pattern, .. }))
                && pattern@ == rejected_label(
                if compiles(inc) {
                    exc
                } else {
                    inc
                },
            )
        } else if list_options(args).max_results == 0 {
            step matches Step::Finished(Ok(result)) && result.entries@.len() == 0
                && !result.has_more
        } else {
            step matches Step::Perform(ListState::Walking { session }, _) && session@
                == (ListModel {
                start: start@,
                includes: filter_of(inc),
                excludes: filter_of(exc),
                options: list_options(args),
                begun: false,
                survivors: Seq::empty(),
                entries: Seq::empty(),
            })
        }
    }

    /// Whether `step` is what an event leads to from this state.
    pub open spec fn follows(self, fs: &LocalGitAwareFs, event: FsEvent<'_>, step: Step<ListState, ListFilesResult>) -> bool {
        match self {
            ListState::Starting { args, prelude } => {
                if let Some(e) = prelude.failure(fs, event) {
                    step == Step::<ListState, ListFilesResult>::Finished(Err(e))
                } else if let Some(start) = prelude.ready(fs, event) {
                    Self::begins(args, start, step)
                } else {
                    step matches Step::Perform(ListState::Starting { args: a, prelude: p }, _)
                        && a == args && prelude.continues(fs, event, p)
                }
            },
            ListState::Walking { session } => match event {
                FsEvent::Entry(None) => step matches Step::Finished(Ok(result)) && entry_views(
                    result.entries@,
                ) == session@.entries && !result.has_more,
                FsEvent::Entry(Some(Err(_))) => step matches Step::Perform(
                    ListState::Walking { session: s },
                    _,
                ) && s@ == session@.passed(),
                FsEvent::Entry(Some(Ok(entry))) => {
                    let m = session@;
                    let text = m.shown(fs.root_view(), entry);
                    let is_dir = entry.kind == EntryKind::Dir;
                    if !m.keeps(fs.root_view(), entry) {
                        step matches Step::Perform(ListState::Walking { session: s }, _) && s@
                            == m.passed()
                    } else if m.options.include_metadata && m.survivors.len() >= m.options.skip {
                        step matches Step::Perform(
                            ListState::Fetching { session: s, path, text: t, is_dir: d },
                            _,
                        ) && s@ == m.passed() && path == entry.path && t@ == text && d == is_dir
                    } else {
                        admits(
                            m.passed(),
                            EntryView { path: text, is_dir, size: None, modified: None },
                            step,
                        )
                    }
                },
                _ => step matches Step::Perform(s, _) && s == self,
            },
            ListState::Fetching { session, path, text, is_dir } => match event {
                FsEvent::Meta(meta) => admits(session@, with_metadata(text@, is_dir, meta), step),
                _ => step matches Step::Perform(s, _) && s == self,
            },
        }
    }

    /// Takes the event for the action that was asked for.
    ///
    /// Whatever the state, a listing that goes on is well formed, so the page
    /// it ends with is never longer than was asked for and holds the survivors
    /// that follow the first `skip`, in the order of the walk.
    pub fn resume(self, fs: &LocalGitAwareFs, event: FsEvent<'_>) -> (step: Step<
        ListState,
        ListFilesResult,
    >)
        ensures
            self.follows(fs, event, step),
            step matches Step::Perform(s, a) ==> a@ == s.awaits() && s.wf() && s.max_results()
                == self.max_results(),
            !answers(self.awaits(), event) ==> (step matches Step::Perform(s, _) && s == self),
    {
        proof {
            match &self {
                ListState::Walking { session } => {
                    use_type_invariant(session);
                },
                ListState::Fetching { session, .. } => {
                    use_type_invariant(session);
                },
                _ => {},
            }
        }
        match self {
            ListState::Starting { args, prelude } => match prelude.resume(fs, event) {
                PreludeStep::Failed(e) => Step::Finished(Err(e)),
                PreludeStep::Ask(next) => {
                    let state = ListState::Starting { args, prelude: next };
                    let action = state.request();
                    Step::Perform(state, action)
                },
                PreludeStep::Ready(start) => begin_walk(args, start),
            },
            ListState::Walking { session } => match event {
                FsEvent::Entry(None) => {
                    Step::Finished(Ok(ListFilesResult { entries: session.entries, has_more: false }))
                },
                FsEvent::Entry(Some(Err(_))) => pass(session),
                FsEvent::Entry(Some(Ok(entry))) => {
                    if entry.path.same_path(&session.start) {
                        return pass(session);
                    }
                    let is_dir = entry.kind == EntryKind::Dir;
                    if is_dir && !session.options.include_dirs {
                        return pass(session);
                    }
                    let text = fs.relative_to(&session.start, &entry.path).display();
                    if !session.filters.is_kept(text.as_str()) {
                        return pass(session);
                    }
                    proof {
                        use_type_invariant(&session);
                    }
                    if session.options.include_metadata && session.seen >= session.options.skip as u64 {
                        let state = ListState::Fetching {
                            session: mark_begun(session),
                            path: entry.path,
                            text,
                            is_dir,
                        };
                        let action = state.request();
                        Step::Perform(state, action)
                    } else {
                        take_in(
                            mark_begun(session),
                            FileEntry { path: text, is_dir, size: None, modified: None },
                        )
                    }
                },
                _ => {
                    let state = ListState::Walking { session };
                    let action = state.request();
                    Step::Perform(state, action)
                },
            },
            ListState::Fetching { session, path, text, is_dir } => match event {
                FsEvent::Meta(Ok(meta)) => take_in(
                    session,
                    FileEntry { path: text, is_dir, size: Some(meta.len), modified: meta.modified },
                ),
                FsEvent::Meta(Err(_)) => take_in(
                    session,
                    FileEntry { path: text, is_dir, size: None, modified: None },
                ),
                _ => {
                    let state = ListState::Fetching { session, path, text, is_dir };
                    let action = state.request();
                    Step::Perform(state, action)
                },
            },
        }
    }
}

fn begin_walk(args: ListFilesArgs, start: FsPath) -> (step: Step<ListState, ListFilesResult>)
    ensures
        ListState::begins(args, start, step),
        step matches Step::Perform(s, a) ==> a@ == s.awaits() && s.wf() && s.max_results()
            == list_options(args).max_results,
{
    let options = resolve_options(&args);
    match GlobFilterSet::compile(&args.include_globs, &args.exclude_globs) {
        Err(e) => Step::Finished(Err(e)),
        Ok(filters) => {
            if options.max_results == 0 {
                Step::Finished(Ok(ListFilesResult { entries: Vec::new(), has_more: false }))
            } else {
                let session = ListSession {
                    start,
                    filters,
                    options,
                    begun: false,
                    seen: 0,
                    entries: Vec::new(),
                    survivors: Ghost(Seq::empty()),
                };
                assert(session@.entries =~= Seq::<EntryView>::empty());
                let state = ListState::Walking { session };
                let action = state.request();
                Step::Perform(state, action)
            }
        },
    }
}

fn mark_begun(session: ListSession) -> (next: ListSession)
    ensures
        next@ == session@.passed(),
        next@.wf(),
{
    proof {
        use_type_invariant(&session);
    }
    ListSession {
        start: session.start,
        filters: session.filters,
        options: session.options,
        begun: true,
        seen: session.seen,
        entries: session.entries,
        survivors: session.survivors,
    }
}

fn pass(session: ListSession) -> (step: Step<ListState, ListFilesResult>)
    ensures
        step matches Step::Perform(ListState::Walking { session: s }, a) && s@ == session@.passed()
            && a@ == s@.awaits() && s@.wf(),
{
    let state = ListState::Walking { session: mark_begun(session) };
    let action = state.request();
    Step::Perform(state, action)
}

fn take_in(session: ListSession, entry: FileEntry) -> (step: Step<ListState, ListFilesResult>)
    ensures
        admits(session@, entry@, step),
        step matches Step::Perform(s, a) ==> a@ == s.awaits() && s.wf() && s.max_results()
            == session@.options.max_results,
{
    proof {
        use_type_invariant(&session);
    }
    let ghost m = session@;
    let ghost listed = Listed { path: entry@.path, is_dir: entry@.is_dir };
    let ListSession { start, filters, options, begun, seen, entries, survivors } = session;
    let mut entries = entries;
    if seen < options.skip as u64 {
        let next = ListSession {
            start,
            filters,
            options,
            begun: true,
            seen: seen + 1,
            entries,
            survivors: Ghost(survivors@.push(listed)),
        };
        let state = ListState::Walking { session: next };
        let action = state.request();
        Step::Perform(state, action)
    } else {
        let ghost before = entry_views(entries@);
        let ghost added = entry@;
        entries.push(entry);
        assert(entry_views(entries@) =~= before.push(added));
        if entries.len() >= options.max_results as usize {
            Step::Finished(Ok(ListFilesResult { entries, has_more: true }))
        } else {
            let next = ListSession {
                start,
                filters,
                options,
                begun: true,
                seen: seen + 1,
                entries,
                survivors: Ghost(survivors@.push(listed)),
            };
            let state = ListState::Walking { session: next };
            let action = state.request();
            Step::Perform(state, action)
        }
    }
}

/// The entries of a page without their metadata.
pub open spec fn listed_of(entries: Seq<EntryView>) -> Seq<Listed> {
    Seq::new(entries.len(), |i: int| Listed { path: entries[i].path, is_dir: entries[i].is_dir })
}

/// While a listing goes on, its page holds fewer entries than were asked for,
/// and they are the survivors that follow the first `skip`, in the order of
/// the walk. A listing that ends with the walk therefore returns that page, and
/// rightly says that there are no more.
pub proof fn lemma_page_open(m: ListModel)
    requires
        m.wf(),
    ensures
        m.entries.len() < m.options.max_results,
        listed_of(m.entries) == page_of(
            m.survivors,
            m.options.skip as int,
            m.options.max_results as int,
        ),
{
    assert(listed_of(m.entries) =~= page_of(
        m.survivors,
        m.options.skip as int,
        m.options.max_results as int,
    ));
}

/// The survivor that fills the page is the last of the survivors that the
/// page has room for: the page is then exactly as long as was asked for, and
/// it holds the survivors that follow the first `skip`.
pub proof fn lemma_page_full(m: ListModel, entry: EntryView)
    requires
        m.wf(),
        m.survivors.len() >= m.options.skip,
        m.entries.len() + 1 >= m.options.max_results,
    ensures
        m.entries.push(entry).len() == m.options.max_results,
        m.survivors.len() + 1 == m.options.skip + m.options.max_results,
        listed_of(m.entries.push(entry)) == page_of(
            m.survivors.push(Listed { path: entry.path, is_dir: entry.is_dir }),
            m.options.skip as int,
            m.options.max_results as int,
        ),
{
    assert(listed_of(m.entries.push(entry)) =~= page_of(
        m.survivors.push(Listed { path: entry.path, is_dir: entry.is_dir }),
        m.options.skip as int,
        m.options.max_results as int,
    ));
}

/// A listing never returns more entries than were asked for, and it says
/// that there are more exactly when its page is full: when the walk has come
/// upon as many survivors as the page and what is skipped before it hold.
/// Whether the walk would come upon another is not looked into.
pub proof fn lemma_list_result(
    state: ListState,
    fs: &LocalGitAwareFs,
    event: FsEvent<'_>,
    step: Step<ListState, ListFilesResult>,
)
    requires
        state.wf(),
        state.follows(fs, event, step),
        step is Finished,
    ensures
        step matches Step::Finished(Ok(result)) ==> result.entries@.len() <= state.max_results()
            && (result.has_more <==> state.max_results() > 0 && result.entries@.len()
            == state.max_results()) && (state.max_results() > 0 ==> (result.has_more
            <==> state.seen_with(fs, event) >= state.skip() + state.max_results())),
{
    match step {
        Step::Finished(Ok(result)) => {
            assert(entry_views(result.entries@).len() == result.entries@.len());
        },
        _ => {},
    }
}

impl LocalGitAwareFs {
    /// Begins a listing.
    pub fn list_files(&self, args: ListFilesArgs) -> (step: Step<ListState, ListFilesResult>)
        ensures
            step matches Step::Perform(ListState::Starting { args: a, prelude }, action) && a
                == args && action@ == prelude.awaits() && prelude.begins(self, Purpose::List, args.root),
    {
        let prelude = Prelude::begin(self, Purpose::List, &args.root);
        let state = ListState::Starting { args, prelude };
        let action = state.request();
        Step::Perform(state, action)
    }
}

} // verus!
