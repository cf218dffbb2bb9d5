//! Copying and moving a file.
//!
//! Both take one regular file from one place to another. Both ends must lie in
//! a repository, and in the same one: nothing crosses from one repository into
//! another. An end that is given as a relative path must lie under the root
//! besides.

use vstd::prelude::*;
use vstd::utf8::encode_utf8;

use crate::backend::LocalGitAwareFs;
use crate::error::{FsError, IoFailure, IoKind};
use crate::guard::{choose_rule_for_end, rule_for_end, Cleared, Guard, GuardStep};
use crate::io::{answers, ActionView, FsAction, FsEvent, Step};
use crate::path::{is_absolute, parent_of, same_path, FsPath};
use crate::text::lossy_decoded;
use crate::types::{CopyPathArgs, CopyPathResult, MovePathArgs, MovePathResult};

verus! {

/// Whether the file stays where it was.
#[derive(Debug, Clone, Copy, PartialEq, Eq, Structural)]
pub enum TransferKind {
    Copy,
    Move,
}

/// What a request asks to copy or move.
#[derive(Debug, PartialEq, Eq)]
pub struct Transfer {
    pub kind: TransferKind,
    /// Where the source was located.
    pub from: FsPath,
    /// Whether the source was given as an absolute path.
    pub from_absolute: bool,
    /// Where the destination was located.
    pub to: FsPath,
    /// Whether the destination was given as an absolute path.
    pub to_absolute: bool,
    /// The directory that the destination lies in; the empty path where its
    /// path has none.
    pub to_parent: FsPath,
    /// Whether the path of the destination has a parent.
    pub has_parent: bool,
    pub overwrite: bool,
    pub create_parents: bool,
}

/// The reply to a copy or a move.
#[derive(Debug, PartialEq, Eq)]
pub enum Transferred {
    Copied(CopyPathResult),
    Moved(MovePathResult),
}

/// Where a copy or a move stands.
#[derive(Debug, PartialEq, Eq)]
pub enum TransferState {
    /// The source is being looked up.
    ProbingSource { job: Transfer },
    /// The source is being checked.
    CheckingSource { job: Transfer, guard: Guard },
    /// The parent directories of the destination are being created.
    MakingParents { job: Transfer, source: Cleared },
    /// The parent of the destination is being checked.
    CheckingDest { job: Transfer, source: Cleared, guard: Guard },
    /// The destination is being looked up.
    ProbingDest { job: Transfer, source: Cleared },
    /// The file is being copied or moved.
    Carrying { job: Transfer, source: Cleared, existing: bool },
}

/// The explanation that goes with the refusal to carry what is no regular
/// file.
pub open spec fn not_regular_message(kind: TransferKind) -> Seq<char> {
    match kind {
        TransferKind::Copy => "copy_path currently only supports regular files"@,
        TransferKind::Move => "move_path currently only supports regular files"@,
    }
}

/// Whether `e` is the refusal to carry what is no regular file.
pub open spec fn refuses_irregular(e: FsError, job: Transfer) -> bool {
    match job.kind {
        TransferKind::Copy => e matches FsError::CopyPath { from, to, source } && from == job.from
            && to == job.to && source.kind == IoKind::Other && source.message@
            == not_regular_message(job.kind),
        TransferKind::Move => e matches FsError::MovePath { from, to, source } && from == job.from
            && to == job.to && source.kind == IoKind::Other && source.message@
            == not_regular_message(job.kind),
    }
}

/// The error for two ends in different repositories.
pub open spec fn crossing_error(job: Transfer, source: Cleared) -> FsError {
    match job.kind {
        TransferKind::Copy => FsError::CopyAcrossRepos { from: source.canonical, to: job.to },
        TransferKind::Move => FsError::MoveAcrossRepos { from: source.canonical, to: job.to },
    }
}

/// The error for a copy or a move that the operating system failed.
pub open spec fn carrying_error(job: Transfer, source: IoFailure) -> FsError {
    match job.kind {
        TransferKind::Copy => FsError::CopyPath { from: job.from, to: job.to, source },
        TransferKind::Move => FsError::MovePath { from: job.from, to: job.to, source },
    }
}

/// Whether two ends lie in the same repository.
pub open spec fn same_repo(a: Option<Seq<u8>>, b: Option<Seq<u8>>) -> bool {
    match (a, b) {
        (Some(x), Some(y)) => same_path(x, y),
        (None, None) => true,
        _ => false,
    }
}

/// Whether `reply` says that the file was carried.
pub open spec fn carried(
    fs: &LocalGitAwareFs,
    reply: Transferred,
    job: Transfer,
    source: Cleared,
    existing: bool,
    bytes: Option<u64>,
) -> bool {
    match job.kind {
        TransferKind::Copy => reply matches Transferred::Copied(r) && r.from@ == fs.shown(
            source.canonical@,
        ) && r.to@ == fs.shown(job.to@) && r.bytes_copied == bytes && r.overwritten == existing,
        TransferKind::Move => reply matches Transferred::Moved(r) && r.from@ == fs.shown(
            source.canonical@,
        ) && r.to@ == fs.shown(job.to@) && r.existed && r.overwritten == existing && !r.recursive,
    }
}

/// Whether `reply` says that there was nothing to move.
pub open spec fn nothing_moved(reply: Transferred, job: Transfer) -> bool {
    reply matches Transferred::Moved(r) && r.from@ == lossy_decoded(job.from@) && r.to@
        == lossy_decoded(job.to@) && !r.existed && !r.overwritten && !r.recursive
}

impl TransferState {
    pub open spec fn awaits(&self) -> ActionView {
        match *self {
            TransferState::ProbingSource { job } => ActionView::Metadata { path: job.from@ },
            TransferState::CheckingSource { guard, .. } => guard.awaits(),
            TransferState::MakingParents { job, .. } => ActionView::CreateDirAll {
                path: job.to_parent@,
            },
            TransferState::CheckingDest { guard, .. } => guard.awaits(),
            TransferState::ProbingDest { job, .. } => ActionView::Metadata { path: job.to@ },
            TransferState::Carrying { job, .. } => match job.kind {
                TransferKind::Copy => ActionView::Copy { from: job.from@, to: job.to@ },
                TransferKind::Move => ActionView::Rename { from: job.from@, to: job.to@ },
            },
        }
    }

    pub fn request(&self) -> (action: FsAction)
        ensures
            action@ == self.awaits(),
    {
        match self {
            TransferState::ProbingSource { job } => FsAction::Metadata { path: job.from.copy() },
            TransferState::CheckingSource { guard, .. } => guard.request(),
            TransferState::MakingParents { job, .. } => FsAction::CreateDirAll {
                path: job.to_parent.copy(),
            },
            TransferState::CheckingDest { guard, .. } => guard.request(),
            TransferState::ProbingDest { job, .. } => FsAction::Metadata { path: job.to.copy() },
            TransferState::Carrying { job, .. } => match job.kind {
                TransferKind::Copy => FsAction::Copy { from: job.from.copy(), to: job.to.copy() },
                TransferKind::Move => FsAction::Rename {
                    from: job.from.copy(),
                    to: job.to.copy(),
                },
            },
        }
    }

    /// The state in which the parent of the destination is checked.
    pub open spec fn checks_dest(job: Transfer, source: Cleared, next: TransferState) -> bool {
        next matches TransferState::CheckingDest {
            job: j,
            source: s,
            guard: Guard::Resolving { path, rule },
        } && j == job && s == source && path@ == job.to_parent@ && rule == rule_for_end(
            job.to_absolute,
        )
    }

    /// Whether `step` is what an event leads to from this state.
    ///
    /// The source must be a regular file in a repository, and under the root
    /// where it was given as a relative path; the same holds of the parent of
    /// the destination. A source that is not there fails a copy; for a move
    /// the reply says that there was nothing to move. The parent of the destination must lie in the same
    /// repository as the source. A directory at the destination is never
    /// replaced, and a file only where the request asks for it.
    pub open spec fn follows(
        self,
        fs: &LocalGitAwareFs,
        event: FsEvent<'_>,
        step: Step<TransferState, Transferred>,
    ) -> bool {
        match self {
            TransferState::ProbingSource { job } => match event {
                FsEvent::Meta(Err(source)) => if job.kind == TransferKind::Move && source.kind
                    == IoKind::NotFound {
                    step matches Step::Finished(Ok(reply)) && nothing_moved(reply, job)
                } else {
                    step == Step::<TransferState, Transferred>::Finished(
                        Err(FsError::FileMetadata { path: job.from, source }),
                    )
                },
                FsEvent::Meta(Ok(meta)) => if !meta.is_file {
                    step matches Step::Finished(Err(e)) && refuses_irregular(e, job)
                } else {
                    step matches Step::Perform(
                        TransferState::CheckingSource {
                            job: j,
                            guard: Guard::Resolving { path, rule },
                        },
                        _,
                    ) && j == job && path@ == job.from@ && rule == rule_for_end(
                        job.from_absolute,
                    )
                },
                _ => step matches Step::Perform(s, _) && s == self,
            },
            TransferState::CheckingSource { job, guard } => {
                if let Some(e) = guard.failure(fs, event) {
                    step == Step::<TransferState, Transferred>::Finished(Err(e))
                } else if let Some(cleared) = guard.clears(fs, event) {
                    if job.create_parents && job.has_parent {
                        step matches Step::Perform(
                            TransferState::MakingParents { job: j, source },
                            _,
                        ) && j == job && source@ == cleared
                    } else {
                        step matches Step::Perform(next, _) && (next matches TransferState::CheckingDest {
                            source,
                            ..
                        } && source@ == cleared && Self::checks_dest(job, source, next))
                    }
                } else {
                    step matches Step::Perform(TransferState::CheckingSource { job: j, guard: g }, _)
                        && j == job && guard.continues(fs, event, g)
                }
            },
            TransferState::MakingParents { job, source } => match event {
                FsEvent::Done(Err(failure)) => step matches Step::Finished(
                    Err(FsError::CreateParents { path, source: f }),
                ) && path@ == job.to_parent@ && f == failure,
                FsEvent::Done(Ok(_)) => step matches Step::Perform(next, _) && Self::checks_dest(
                    job,
                    source,
                    next,
                ),
                _ => step matches Step::Perform(s, _) && s == self,
            },
            TransferState::CheckingDest { job, source, guard } => {
                if let Some(e) = guard.failure(fs, event) {
                    step == Step::<TransferState, Transferred>::Finished(Err(e))
                } else if let Some(cleared) = guard.clears(fs, event) {
                    if !same_repo(source@.repo, cleared.repo) {
                        step == Step::<TransferState, Transferred>::Finished(
                            Err(crossing_error(job, source)),
                        )
                    } else {
                        step matches Step::Perform(s, _) && s == (TransferState::ProbingDest {
                            job,
                            source,
                        })
                    }
                } else {
                    step matches Step::Perform(
                        TransferState::CheckingDest { job: j, source: s, guard: g },
                        _,
                    ) && j == job && s == source && guard.continues(fs, event, g)
                }
            },
            TransferState::ProbingDest { job, source } => match event {
                FsEvent::Meta(found) => if found matches Ok(meta) && (meta.is_dir
                    || !job.overwrite) {
                    step == Step::<TransferState, Transferred>::Finished(
                        Err(FsError::DestinationExists { path: job.to }),
                    )
                } else {
                    step matches Step::Perform(s, _) && s == (TransferState::Carrying {
                        job,
                        source,
                        existing: found is Ok,
                    })
                },
                _ => step matches Step::Perform(s, _) && s == self,
            },
            TransferState::Carrying { job, source, existing } => match (job.kind, event) {
                (TransferKind::Copy, FsEvent::Copied(Ok(bytes))) => step matches Step::Finished(
                    Ok(reply),
                ) && carried(fs, reply, job, source, existing, Some(bytes)),
                (TransferKind::Copy, FsEvent::Copied(Err(failure))) => step == Step::<
                    TransferState,
                    Transferred,
                >::Finished(Err(carrying_error(job, failure))),
                (TransferKind::Move, FsEvent::Done(Ok(_))) => step matches Step::Finished(
                    Ok(reply),
                ) && carried(fs, reply, job, source, existing, None),
                (TransferKind::Move, FsEvent::Done(Err(failure))) => step == Step::<
                    TransferState,
                    Transferred,
                >::Finished(Err(carrying_error(job, failure))),
                _ => step matches Step::Perform(s, _) && s == self,
            },
        }
    }

    /// Takes the event for the action that was asked for.
    pub fn resume(self, fs: &LocalGitAwareFs, event: FsEvent<'_>) -> (step: Step<
        TransferState,
        Transferred,
    >)
        ensures
            self.follows(fs, event, step),
            step matches Step::Perform(s, a) ==> a@ == s.awaits(),
            !answers(self.awaits(), event) ==> (step matches Step::Perform(s, _) && s == self),
    {
        match self {
            TransferState::ProbingSource { job } => match event {
                FsEvent::Meta(Err(source)) => {
                    if job.kind == TransferKind::Move && source.is_not_found() {
                        Step::Finished(
                            Ok(
                                Transferred::Moved(
                                    MovePathResult {
                                        from: job.from.display(),
                                        to: job.to.display(),
                                        existed: false,
                                        overwritten: false,
                                        recursive: false,
                                    },
                                ),
                            ),
                        )
                    } else {
                        Step::Finished(Err(FsError::FileMetadata { path: job.from, source }))
                    }
                },
                FsEvent::Meta(Ok(meta)) => {
                    if !meta.is_file {
                        return Step::Finished(
                            Err(
                                match job.kind {
                                    TransferKind::Copy => FsError::CopyPath {
                                        from: job.from,
                                        to: job.to,
                                        source: IoFailure::other(
                                            "copy_path currently only supports regular files",
                                        ),
                                    },
                                    TransferKind::Move => FsError::MovePath {
                                        from: job.from,
                                        to: job.to,
                                        source: IoFailure::other(
                                            "move_path currently only supports regular files",
                                        ),
                                    },
                                },
                            ),
                        );
                    }
                    let guard = Guard::begin(
                        job.from.copy(),
                        choose_rule_for_end(job.from_absolute),
                    );
                    ask(TransferState::CheckingSource { job, guard })
                },
                _ => ask(TransferState::ProbingSource { job }),
            },
            TransferState::CheckingSource { job, guard } => match guard.resume(fs, event) {
                GuardStep::Failed(e) => Step::Finished(Err(e)),
                GuardStep::Ask(next) => ask(TransferState::CheckingSource { job, guard: next }),
                GuardStep::Passed(source) => {
                    if job.create_parents && job.has_parent {
                        ask(TransferState::MakingParents { job, source })
                    } else {
                        ask(check_dest(job, source))
                    }
                },
            },
            TransferState::MakingParents { job, source } => match event {
                FsEvent::Done(Err(failure)) => Step::Finished(
                    Err(FsError::CreateParents { path: job.to_parent, source: failure }),
                ),
                FsEvent::Done(Ok(_)) => ask(check_dest(job, source)),
                _ => ask(TransferState::MakingParents { job, source }),
            },
            TransferState::CheckingDest { job, source, guard } => match guard.resume(fs, event) {
                GuardStep::Failed(e) => Step::Finished(Err(e)),
                GuardStep::Ask(next) => ask(
                    TransferState::CheckingDest { job, source, guard: next },
                ),
                GuardStep::Passed(dest) => {
                    let same = match (&source.repo, &dest.repo) {
                        (Some(a), Some(b)) => a.same_path(b),
                        (None, None) => true,
                        _ => false,
                    };
                    if !same {
                        Step::Finished(
                            Err(
                                match job.kind {
                                    TransferKind::Copy => FsError::CopyAcrossRepos {
                                        from: source.canonical,
                                        to: job.to,
                                    },
                                    TransferKind::Move => FsError::MoveAcrossRepos {
                                        from: source.canonical,
                                        to: job.to,
                                    },
                                },
                            ),
                        )
                    } else {
                        ask(TransferState::ProbingDest { job, source })
                    }
                },
            },
            TransferState::ProbingDest { job, source } => match event {
                FsEvent::Meta(found) => {
                    let (existing, is_dir) = match found {
                        Ok(meta) => (true, meta.is_dir),
                        Err(_) => (false, false),
                    };
                    if existing && (is_dir || !job.overwrite) {
                        Step::Finished(Err(FsError::DestinationExists { path: job.to }))
                    } else {
                        ask(TransferState::Carrying { job, source, existing })
                    }
                },
                _ => ask(TransferState::ProbingDest { job, source }),
            },
            TransferState::Carrying { job, source, existing } => match job.kind {
                TransferKind::Copy => match event {
                    FsEvent::Copied(Ok(bytes)) => Step::Finished(
                        Ok(
                            Transferred::Copied(
                                CopyPathResult {
                                    from: fs.show(&source.canonical),
                                    to: fs.show(&job.to),
                                    bytes_copied: Some(bytes),
                                    overwritten: existing,
                                },
                            ),
                        ),
                    ),
                    FsEvent::Copied(Err(failure)) => Step::Finished(
                        Err(FsError::CopyPath { from: job.from, to: job.to, source: failure }),
                    ),
                    _ => ask(TransferState::Carrying { job, source, existing }),
                },
                TransferKind::Move => match event {
                    FsEvent::Done(Ok(_)) => Step::Finished(
                        Ok(
                            Transferred::Moved(
                                MovePathResult {
                                    from: fs.show(&source.canonical),
                                    to: fs.show(&job.to),
                                    existed: true,
                                    overwritten: existing,
                                    recursive: false,
                                },
                            ),
                        ),
                    ),
                    FsEvent::Done(Err(failure)) => Step::Finished(
                        Err(FsError::MovePath { from: job.from, to: job.to, source: failure }),
                    ),
                    _ => ask(TransferState::Carrying { job, source, existing }),
                },
            },
        }
    }
}

fn check_dest(job: Transfer, source: Cleared) -> (next: TransferState)
    ensures
        TransferState::checks_dest(job, source, next),
{
    let guard = Guard::begin(job.to_parent.copy(), choose_rule_for_end(job.to_absolute));
    TransferState::CheckingDest { job, source, guard }
}

fn ask(state: TransferState) -> (step: Step<TransferState, Transferred>)
    ensures
        step matches Step::Perform(s, a) && s == state && a@ == state.awaits(),
{
    let action = state.request();
    Step::Perform(state, action)
}

/// Whether `job` is what a request with these ends and wishes asks for. The
/// parents of the destination are created unless the request says not to.
pub open spec fn transfer_of(
    fs: &LocalGitAwareFs,
    job: Transfer,
    kind: TransferKind,
    from: Seq<char>,
    to: Seq<char>,
    overwrite: Option<bool>,
    create_parents: Option<bool>,
) -> bool {
    &&& job.kind == kind
    &&& job.from@ == fs.located(from)
    &&& job.from_absolute == is_absolute(encode_utf8(from))
    &&& job.to@ == fs.located(to)
    &&& job.to_absolute == is_absolute(encode_utf8(to))
    &&& job.has_parent == parent_of(job.to@) is Some
    &&& job.to_parent@ == match parent_of(job.to@) {
        Some(p) => p,
        None => Seq::empty(),
    }
    &&& job.overwrite == (overwrite == Some(true))
    &&& job.create_parents == (create_parents != Some(false))
}

impl LocalGitAwareFs {
    fn begin_transfer(
        &self,
        kind: TransferKind,
        from: &str,
        to: &str,
        overwrite: Option<bool>,
        create_parents: Option<bool>,
    ) -> (step: Step<TransferState, Transferred>)
        ensures
            step matches Step::Perform(TransferState::ProbingSource { job }, a) && a@
                == (ActionView::Metadata { path: job.from@ }) && transfer_of(
                self,
                job,
                kind,
                from@,
                to@,
                overwrite,
                create_parents,
            ),
    {
        let located_to = self.locate(to);
        let (to_parent, has_parent) = match located_to.parent() {
            Some(p) => (p, true),
            None => (FsPath::new(Vec::new()), false),
        };
        let job = Transfer {
            kind,
            from: self.locate(from),
            from_absolute: FsPath::from_str(from).is_absolute(),
            to: located_to,
            to_absolute: FsPath::from_str(to).is_absolute(),
            to_parent,
            has_parent,
            overwrite: match overwrite {
                Some(b) => b,
                None => false,
            },
            create_parents: match create_parents {
                Some(b) => b,
                None => true,
            },
        };
        ask(TransferState::ProbingSource { job })
    }

    /// Begins a copy.
    pub fn copy_path(&self, args: CopyPathArgs) -> (step: Step<TransferState, Transferred>)
        ensures
            step matches Step::Perform(TransferState::ProbingSource { job }, a) && a@
                == (ActionView::Metadata { path: job.from@ }) && transfer_of(
                self,
                job,
                TransferKind::Copy,
                args.from@,
                args.to@,
                args.overwrite,
                args.create_parents,
            ),
    {
        self.begin_transfer(
            TransferKind::Copy,
            args.from.as_str(),
            args.to.as_str(),
            args.overwrite,
            args.create_parents,
        )
    }

    /// Begins a move.
    pub fn move_path(&self, args: MovePathArgs) -> (step: Step<TransferState, Transferred>)
        ensures
            step matches Step::Perform(TransferState::ProbingSource { job }, a) && a@
                == (ActionView::Metadata { path: job.from@ }) && transfer_of(
                self,
                job,
                TransferKind::Move,
                args.from@,
                args.to@,
                args.overwrite,
                args.create_parents,
            ),
    {
        self.begin_transfer(
            TransferKind::Move,
            args.from.as_str(),
            args.to.as_str(),
            args.overwrite,
            args.create_parents,
        )
    }
}

} // verus!
