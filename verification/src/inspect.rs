//! Asking about a path without changing anything.
//!
//! `stat` says whether a path is there and what it is. `path_info` says how a
//! path is read: where it resolves to, and which repository it lies in. For
//! both a path that is not there is an answer, not an error, and neither asks
//! that the path lie in a repository. A relative path that is there must
//! still resolve to a place under the root.

use vstd::prelude::*;
use vstd::utf8::encode_utf8;

use crate::backend::LocalGitAwareFs;
use crate::error::{FsError, IoKind};
use crate::io::{answers, ActionView, FileMeta, FsAction, FsEvent, Step};
use crate::path::{components, is_absolute, FsPath};
use crate::repo::{RepoSearch, RepoStep};
use crate::text::{copy_text, lossy_decoded};
use crate::types::{PathInfoArgs, PathInfoResult, StatArgs, StatResult};

verus! {

/// How a path that is not there is shown: as it was located where it was
/// given as an absolute path, and relative to the root otherwise.
pub open spec fn shown_missing(fs: &LocalGitAwareFs, located: Seq<u8>, absolute: bool) -> Seq<char> {
    if absolute {
        lossy_decoded(located)
    } else {
        fs.shown(located)
    }
}

impl LocalGitAwareFs {
    pub fn show_missing(&self, located: &FsPath, absolute: bool) -> (text: String)
        ensures
            text@ == shown_missing(self, located@, absolute),
    {
        if absolute {
            located.display()
        } else {
            self.show(located)
        }
    }
}

/// Where a `stat` stands.
#[derive(Debug, PartialEq, Eq)]
pub enum StatState {
    /// The path is being looked up.
    Probing { located: FsPath, absolute: bool },
    /// The path is there and is being resolved.
    Resolving { located: FsPath, absolute: bool, meta: FileMeta },
}

/// Whether `result` says that nothing is at the path.
pub open spec fn stat_missing(
    fs: &LocalGitAwareFs,
    result: StatResult,
    located: FsPath,
    absolute: bool,
) -> bool {
    &&& result.path@ == shown_missing(fs, located@, absolute)
    &&& !result.exists
    &&& !result.is_file
    &&& !result.is_dir
    &&& result.size is None
    &&& result.modified is None
}

/// Whether `result` says what is at the path: its kind, its size where it is
/// a regular file, and the time of its last change where that is known.
pub open spec fn stat_found(
    fs: &LocalGitAwareFs,
    result: StatResult,
    canonical: FsPath,
    meta: FileMeta,
) -> bool {
    &&& result.path@ == fs.shown(canonical@)
    &&& result.exists
    &&& result.is_file == meta.is_file
    &&& result.is_dir == meta.is_dir
    &&& result.size == if meta.is_file {
        Some(meta.len)
    } else {
        None
    }
    &&& result.modified == meta.modified
}

impl StatState {
    pub open spec fn awaits(&self) -> ActionView {
        match *self {
            StatState::Probing { located, .. } => ActionView::Metadata { path: located@ },
            StatState::Resolving { located, .. } => ActionView::Canonicalize { path: located@ },
        }
    }

    pub fn request(&self) -> (action: FsAction)
        ensures
            action@ == self.awaits(),
    {
        match self {
            StatState::Probing { located, .. } => FsAction::Metadata { path: located.copy() },
            StatState::Resolving { located, .. } => FsAction::Canonicalize {
                path: located.copy(),
            },
        }
    }

    /// Whether `step` is what an event leads to from this state.
    ///
    /// A path that is not there gives a reply that says so. Any other failure
    /// of the look-up is an error. A relative path that is there must resolve
    /// to a place under the root.
    pub open spec fn follows(
        self,
        fs: &LocalGitAwareFs,
        event: FsEvent<'_>,
        step: Step<StatState, StatResult>,
    ) -> bool {
        match self {
            StatState::Probing { located, absolute } => match event {
                FsEvent::Meta(Ok(meta)) => step matches Step::Perform(s, _) && s
                    == (StatState::Resolving { located, absolute, meta }),
                FsEvent::Meta(Err(source)) => if source.kind == IoKind::NotFound {
                    step matches Step::Finished(Ok(result)) && stat_missing(
                        fs,
                        result,
                        located,
                        absolute,
                    )
                } else {
                    step == Step::<StatState, StatResult>::Finished(
                        Err(FsError::FileMetadata { path: located, source }),
                    )
                },
                _ => step matches Step::Perform(s, _) && s == self,
            },
            StatState::Resolving { located, absolute, meta } => match event {
                FsEvent::Resolved(Err(source)) => step == Step::<StatState, StatResult>::Finished(
                    Err(FsError::CanonicalizePath { path: located, source }),
                ),
                FsEvent::Resolved(Ok(canonical)) => if !absolute && !fs.contains(canonical@) {
                    step == Step::<StatState, StatResult>::Finished(
                        Err(FsError::PathEscapesRepo { path: canonical }),
                    )
                } else {
                    step matches Step::Finished(Ok(result)) && stat_found(
                        fs,
                        result,
                        canonical,
                        meta,
                    )
                },
                _ => step matches Step::Perform(s, _) && s == self,
            },
        }
    }

    /// Takes the event for the action that was asked for.
    pub fn resume(self, fs: &LocalGitAwareFs, event: FsEvent<'_>) -> (step: Step<StatState, StatResult>)
        ensures
            self.follows(fs, event, step),
            step matches Step::Perform(s, a) ==> a@ == s.awaits(),
            !answers(self.awaits(), event) ==> (step matches Step::Perform(s, _) && s == self),
    {
        match self {
            StatState::Probing { located, absolute } => match event {
                FsEvent::Meta(Ok(meta)) => ask_stat(
                    StatState::Resolving { located, absolute, meta },
                ),
                FsEvent::Meta(Err(source)) => {
                    if source.is_not_found() {
                        Step::Finished(
                            Ok(
                                StatResult {
                                    path: fs.show_missing(&located, absolute),
                                    exists: false,
                                    is_file: false,
                                    is_dir: false,
                                    size: None,
                                    modified: None,
                                },
                            ),
                        )
                    } else {
                        Step::Finished(Err(FsError::FileMetadata { path: located, source }))
                    }
                },
                _ => ask_stat(StatState::Probing { located, absolute }),
            },
            StatState::Resolving { located, absolute, meta } => match event {
                FsEvent::Resolved(Err(source)) => Step::Finished(
                    Err(FsError::CanonicalizePath { path: located, source }),
                ),
                FsEvent::Resolved(Ok(canonical)) => {
                    if !absolute && !fs.is_inside(&canonical) {
                        return Step::Finished(Err(FsError::PathEscapesRepo { path: canonical }));
                    }
                    Step::Finished(
                        Ok(
                            StatResult {
                                path: fs.show(&canonical),
                                exists: true,
                                is_file: meta.is_file,
                                is_dir: meta.is_dir,
                                size: if meta.is_file {
                                    Some(meta.len)
                                } else {
                                    None
                                },
                                modified: meta.modified,
                            },
                        ),
                    )
                },
                _ => ask_stat(StatState::Resolving { located, absolute, meta }),
            },
        }
    }
}

fn ask_stat(state: StatState) -> (step: Step<StatState, StatResult>)
    ensures
        step matches Step::Perform(s, a) && s == state && a@ == state.awaits(),
{
    let action = state.request();
    Step::Perform(state, action)
}

/// The path that a request for information names: the root itself where it
/// names none or an empty one.
pub open spec fn info_input(args: PathInfoArgs) -> Seq<char> {
    match args.path {
        Some(text) => if text@.len() == 0 {
            "."@
        } else {
            text@
        },
        None => "."@,
    }
}

/// What a request for information has found out about its path so far.
#[derive(Debug, PartialEq, Eq)]
pub struct InfoSubject {
    /// The path as the request gave it.
    pub input: String,
    /// The path where it was located.
    pub located: FsPath,
    pub absolute: bool,
}

/// Where a request for information stands.
#[derive(Debug, PartialEq, Eq)]
pub enum InfoState {
    /// The path is being looked up.
    Probing { subject: InfoSubject },
    /// The path is there and is being resolved.
    Resolving { subject: InfoSubject, meta: FileMeta },
    /// A repository is being looked for above the canonical form.
    Locating { subject: InfoSubject, meta: FileMeta, canonical: FsPath, search: RepoSearch },
}

/// Whether `result` repeats how the path was read.
pub open spec fn info_opens(result: PathInfoResult, subject: InfoSubject) -> bool {
    &&& result.input_path@ == subject.input@
    &&& result.resolved_path@ == lossy_decoded(subject.located@)
    &&& result.is_absolute == subject.absolute
}

/// Whether `result` says that nothing is at the path.
pub open spec fn info_missing(result: PathInfoResult, subject: InfoSubject) -> bool {
    &&& info_opens(result, subject)
    &&& !result.exists
    &&& !result.is_file
    &&& !result.is_dir
    &&& result.canonical_path is None
    &&& result.repo_root is None
}

/// Whether `result` says what is at the path, where it resolves to, and which
/// repository it lies in, if it lies in one.
pub open spec fn info_found(
    result: PathInfoResult,
    subject: InfoSubject,
    meta: FileMeta,
    canonical: FsPath,
    repo: Option<Seq<u8>>,
) -> bool {
    &&& info_opens(result, subject)
    &&& result.exists
    &&& result.is_file == meta.is_file
    &&& result.is_dir == meta.is_dir
    &&& result.canonical_path matches Some(text) && text@ == lossy_decoded(canonical@)
    &&& match repo {
        Some(root) => result.repo_root matches Some(text) && text@ == lossy_decoded(root),
        None => result.repo_root is None,
    }
}

impl InfoState {
    pub open spec fn awaits(&self) -> ActionView {
        match *self {
            InfoState::Probing { subject } => ActionView::Metadata { path: subject.located@ },
            InfoState::Resolving { subject, .. } => ActionView::Canonicalize {
                path: subject.located@,
            },
            InfoState::Locating { search, .. } => search.awaits(),
        }
    }

    pub fn request(&self) -> (action: FsAction)
        ensures
            action@ == self.awaits(),
    {
        match self {
            InfoState::Probing { subject } => FsAction::Metadata { path: subject.located.copy() },
            InfoState::Resolving { subject, .. } => FsAction::Canonicalize {
                path: subject.located.copy(),
            },
            InfoState::Locating { search, .. } => search.request(),
        }
    }

    /// Whether `step` is what an event leads to from this state.
    ///
    /// A path that is there is resolved; a relative path must resolve to a
    /// place under the root. A repository is then looked for above it, and
    /// finding none is an answer like finding one.
    pub open spec fn follows(
        self,
        fs: &LocalGitAwareFs,
        event: FsEvent<'_>,
        step: Step<InfoState, PathInfoResult>,
    ) -> bool {
        match self {
            InfoState::Probing { subject } => match event {
                FsEvent::Meta(Ok(meta)) => step matches Step::Perform(s, _) && s
                    == (InfoState::Resolving { subject, meta }),
                FsEvent::Meta(Err(source)) => if source.kind == IoKind::NotFound {
                    step matches Step::Finished(Ok(result)) && info_missing(result, subject)
                } else {
                    step == Step::<InfoState, PathInfoResult>::Finished(
                        Err(FsError::FileMetadata { path: subject.located, source }),
                    )
                },
                _ => step matches Step::Perform(s, _) && s == self,
            },
            InfoState::Resolving { subject, meta } => match event {
                FsEvent::Resolved(Err(source)) => step == Step::<
                    InfoState,
                    PathInfoResult,
                >::Finished(Err(FsError::CanonicalizePath { path: subject.located, source })),
                FsEvent::Resolved(Ok(c)) => if !subject.absolute && !fs.contains(c@) {
                    step == Step::<InfoState, PathInfoResult>::Finished(
                        Err(FsError::PathEscapesRepo { path: c }),
                    )
                } else {
                    step matches Step::Perform(
                        InfoState::Locating { subject: s, meta: m, canonical, search },
                        _,
                    ) && s == subject && m == meta && canonical == c && search.parts()
                        == components(c@) && search.depth() == search.parts().len()
                },
                _ => step matches Step::Perform(s, _) && s == self,
            },
            InfoState::Locating { subject, meta, canonical, search } => match event {
                FsEvent::Exists(found) => if found {
                    step matches Step::Finished(Ok(result)) && info_found(
                        result,
                        subject,
                        meta,
                        canonical,
                        Some(search.dir()),
                    )
                } else if search.at_top() {
                    step matches Step::Finished(Ok(result)) && info_found(
                        result,
                        subject,
                        meta,
                        canonical,
                        None,
                    )
                } else {
                    step matches Step::Perform(
                        InfoState::Locating { subject: s, meta: m, canonical: c, search: above },
                        _,
                    ) && s == subject && m == meta && c == canonical && above.parts()
                        == search.parts() && above.depth() == search.depth() - 1
                },
                _ => step matches Step::Perform(s, _) && s == self,
            },
        }
    }

    /// Takes the event for the action that was asked for.
    pub fn resume(self, fs: &LocalGitAwareFs, event: FsEvent<'_>) -> (step: Step<
        InfoState,
        PathInfoResult,
    >)
        ensures
            self.follows(fs, event, step),
            step matches Step::Perform(s, a) ==> a@ == s.awaits(),
            !answers(self.awaits(), event) ==> (step matches Step::Perform(s, _) && s == self),
    {
        match self {
            InfoState::Probing { subject } => match event {
                FsEvent::Meta(Ok(meta)) => ask_info(InfoState::Resolving { subject, meta }),
                FsEvent::Meta(Err(source)) => {
                    if source.is_not_found() {
                        let resolved_path = subject.located.display();
                        Step::Finished(
                            Ok(
                                PathInfoResult {
                                    input_path: subject.input,
                                    resolved_path,
                                    exists: false,
                                    is_file: false,
                                    is_dir: false,
                                    is_absolute: subject.absolute,
                                    canonical_path: None,
                                    repo_root: None,
                                },
                            ),
                        )
                    } else {
                        Step::Finished(
                            Err(FsError::FileMetadata { path: subject.located, source }),
                        )
                    }
                },
                _ => ask_info(InfoState::Probing { subject }),
            },
            InfoState::Resolving { subject, meta } => match event {
                FsEvent::Resolved(Err(source)) => Step::Finished(
                    Err(FsError::CanonicalizePath { path: subject.located, source }),
                ),
                FsEvent::Resolved(Ok(canonical)) => {
                    if !subject.absolute && !fs.is_inside(&canonical) {
                        return Step::Finished(Err(FsError::PathEscapesRepo { path: canonical }));
                    }
                    let search = RepoSearch::begin(&canonical);
                    ask_info(InfoState::Locating { subject, meta, canonical, search })
                },
                _ => ask_info(InfoState::Resolving { subject, meta }),
            },
            InfoState::Locating { subject, meta, canonical, search } => match event {
                FsEvent::Exists(found) => match search.resume(found) {
                    RepoStep::Found(root) => Step::Finished(
                        Ok(found_info(subject, meta, &canonical, Some(root.display()))),
                    ),
                    RepoStep::Missing => Step::Finished(
                        Ok(found_info(subject, meta, &canonical, None)),
                    ),
                    RepoStep::Probe(above) => ask_info(
                        InfoState::Locating { subject, meta, canonical, search: above },
                    ),
                },
                _ => ask_info(InfoState::Locating { subject, meta, canonical, search }),
            },
        }
    }
}

fn ask_info(state: InfoState) -> (step: Step<InfoState, PathInfoResult>)
    ensures
        step matches Step::Perform(s, a) && s == state && a@ == state.awaits(),
{
    let action = state.request();
    Step::Perform(state, action)
}

fn found_info(subject: InfoSubject, meta: FileMeta, canonical: &FsPath, repo_root: Option<String>) -> (result: PathInfoResult)
    ensures
        info_opens(result, subject),
        result.exists,
        result.is_file == meta.is_file,
        result.is_dir == meta.is_dir,
        result.canonical_path matches Some(text) && text@ == lossy_decoded(canonical@),
        result.repo_root == repo_root,
{
    let resolved_path = subject.located.display();
    PathInfoResult {
        input_path: subject.input,
        resolved_path,
        exists: true,
        is_file: meta.is_file,
        is_dir: meta.is_dir,
        is_absolute: subject.absolute,
        canonical_path: Some(canonical.display()),
        repo_root,
    }
}

impl LocalGitAwareFs {
    /// Begins a `stat`.
    pub fn stat(&self, args: StatArgs) -> (step: Step<StatState, StatResult>)
        ensures
            step matches Step::Perform(StatState::Probing { located, absolute }, a) && located@
                == self.located(args.path@) && absolute == is_absolute(encode_utf8(args.path@))
                && a@ == (ActionView::Metadata { path: located@ }),
    {
        let given = FsPath::from_str(args.path.as_str());
        let absolute = given.is_absolute();
        ask_stat(StatState::Probing { located: self.locate(args.path.as_str()), absolute })
    }

    /// Begins a request for information about a path.
    pub fn path_info(&self, args: PathInfoArgs) -> (step: Step<InfoState, PathInfoResult>)
        ensures
            step matches Step::Perform(InfoState::Probing { subject }, a) && subject.input@
                == info_input(args) && subject.located@ == self.located(info_input(args))
                && subject.absolute == is_absolute(encode_utf8(info_input(args))) && a@
                == (ActionView::Metadata { path: subject.located@ }),
    {
        let input = match args.path {
            Some(text) => if text.as_str().is_empty() {
                copy_text(".")
            } else {
                text
            },
            None => copy_text("."),
        };
        let given = FsPath::from_str(input.as_str());
        let absolute = given.is_absolute();
        let located = self.locate(input.as_str());
        ask_info(InfoState::Probing { subject: InfoSubject { input, located, absolute } })
    }
}

} // verus!
