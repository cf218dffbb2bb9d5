//! Creating, overwriting and deleting.
//!
//! Each of the three checks its path before it changes anything: the parent
//! of a file that is written, the target of a deletion. What is already at
//! the target decides the rest.

use vstd::prelude::*;
use vstd::utf8::encode_utf8;

use crate::backend::LocalGitAwareFs;
use crate::error::{FsError, IoFailure, IoKind};
use crate::guard::{choose_rule, rule_for, Access, Guard, GuardStep};
use crate::inspect::shown_missing;
use crate::io::{answers, ActionView, FsAction, FsEvent, Step, WriteFailure, WriteStage};
use crate::path::{is_absolute, parent_of, FsPath};
use crate::text::copy_text;
use crate::types::{
    CreateFileArgs, CreateFileResult, DeletePathArgs, DeletePathResult, OverwriteFileArgs,
    OverwriteFileResult,
};

verus! {

/// The error for a write that failed at `failure.stage`.
pub open spec fn write_error(path: FsPath, failure: WriteFailure) -> FsError {
    match failure.stage {
        WriteStage::Open => FsError::OpenFile { path, source: failure.source },
        WriteStage::Write => FsError::WriteFile { path, source: failure.source },
    }
}

fn make_write_error(path: FsPath, failure: WriteFailure) -> (e: FsError)
    ensures
        e == write_error(path, failure),
{
    let WriteFailure { stage, source } = failure;
    match stage {
        WriteStage::Open => FsError::OpenFile { path, source },
        WriteStage::Write => FsError::WriteFile { path, source },
    }
}

/// The path that a written file is shown under: its canonical form where it
/// has one, and the path it was located at otherwise.
pub open spec fn written_path(
    located: FsPath,
    resolved: std::result::Result<FsPath, IoFailure>,
) -> FsPath {
    match resolved {
        Ok(canonical) => canonical,
        Err(_) => located,
    }
}

/// A file that is to be created.
#[derive(Debug, PartialEq, Eq)]
pub struct CreateTarget {
    /// Where the file was located.
    pub located: FsPath,
    /// The directory that it lies in, if its path has one.
    pub parent: Option<FsPath>,
    pub absolute: bool,
    pub overwrite: bool,
    pub content: String,
}

/// Where the creation of a file stands.
#[derive(Debug, PartialEq, Eq)]
pub enum CreateState {
    /// The parent directories are being created.
    MakingParents { target: CreateTarget },
    /// The parent is being checked.
    Checking { target: CreateTarget, guard: Guard },
    /// The target is being looked up.
    Probing { target: CreateTarget },
    /// The file is being written.
    Writing { target: CreateTarget, existed: bool },
    /// The file is written and is being resolved.
    Finishing { target: CreateTarget, existed: bool },
}

impl CreateState {
    pub open spec fn awaits(&self) -> ActionView {
        match *self {
            CreateState::MakingParents { target } => ActionView::CreateDirAll {
                path: match target.parent {
                    Some(p) => p@,
                    None => Seq::empty(),
                },
            },
            CreateState::Checking { guard, .. } => guard.awaits(),
            CreateState::Probing { target } => ActionView::Metadata { path: target.located@ },
            CreateState::Writing { target, .. } => ActionView::Write {
                path: target.located@,
                content: target.content@,
                create: true,
            },
            CreateState::Finishing { target, .. } => ActionView::Canonicalize {
                path: target.located@,
            },
        }
    }

    pub fn request(&self) -> (action: FsAction)
        ensures
            action@ == self.awaits(),
    {
        match self {
            CreateState::MakingParents { target } => FsAction::CreateDirAll {
                path: match &target.parent {
                    Some(p) => p.copy(),
                    None => FsPath::new(Vec::new()),
                },
            },
            CreateState::Checking { guard, .. } => guard.request(),
            CreateState::Probing { target } => FsAction::Metadata { path: target.located.copy() },
            CreateState::Writing { target, .. } => FsAction::Write {
                path: target.located.copy(),
                content: copy_text(target.content.as_str()),
                create: true,
            },
            CreateState::Finishing { target, .. } => FsAction::Canonicalize {
                path: target.located.copy(),
            },
        }
    }

    /// The state in which the parent is checked, or the target looked up
    /// where its path has no parent.
    pub open spec fn checks(target: CreateTarget, next: CreateState) -> bool {
        match target.parent {
            Some(parent) => next matches CreateState::Checking {
                target: t,
                guard: Guard::Resolving { path, rule },
            } && t == target && path@ == parent@ && rule == rule_for(
                target.absolute,
                Access::Write,
            ),
            None => next == (CreateState::Probing { target }),
        }
    }

    /// Whether `step` is what an event leads to from this state.
    ///
    /// The parent must pass the rule for the path. A directory at the target
    /// is never replaced, and a file only where overwriting was asked for.
    /// The reply says whether the file was there before.
    pub open spec fn follows(
        self,
        fs: &LocalGitAwareFs,
        event: FsEvent<'_>,
        step: Step<CreateState, CreateFileResult>,
    ) -> bool {
        match self {
            CreateState::MakingParents { target } => match event {
                FsEvent::Done(Err(source)) => match target.parent {
                    Some(path) => step == Step::<CreateState, CreateFileResult>::Finished(
                        Err(FsError::CreateParents { path, source }),
                    ),
                    None => step matches Step::Perform(next, _) && Self::checks(target, next),
                },
                FsEvent::Done(Ok(_)) => step matches Step::Perform(next, _) && Self::checks(
                    target,
                    next,
                ),
                _ => step matches Step::Perform(s, _) && s == self,
            },
            CreateState::Checking { target, guard } => {
                if let Some(e) = guard.failure(fs, event) {
                    step == Step::<CreateState, CreateFileResult>::Finished(Err(e))
                } else if guard.clears(fs, event) is Some {
                    step matches Step::Perform(s, _) && s == (CreateState::Probing { target })
                } else {
                    step matches Step::Perform(CreateState::Checking { target: t, guard: g }, _)
                        && t == target && guard.continues(fs, event, g)
                }
            },
            CreateState::Probing { target } => match event {
                FsEvent::Meta(Ok(meta)) => if meta.is_dir || !target.overwrite {
                    step == Step::<CreateState, CreateFileResult>::Finished(
                        Err(FsError::DestinationExists { path: target.located }),
                    )
                } else {
                    step matches Step::Perform(s, _) && s == (CreateState::Writing {
                        target,
                        existed: true,
                    })
                },
                FsEvent::Meta(Err(_)) => step matches Step::Perform(s, _) && s
                    == (CreateState::Writing { target, existed: false }),
                _ => step matches Step::Perform(s, _) && s == self,
            },
            CreateState::Writing { target, existed } => match event {
                FsEvent::Written(Err(failure)) => step == Step::<
                    CreateState,
                    CreateFileResult,
                >::Finished(Err(write_error(target.located, failure))),
                FsEvent::Written(Ok(_)) => step matches Step::Perform(s, _) && s
                    == (CreateState::Finishing { target, existed }),
                _ => step matches Step::Perform(s, _) && s == self,
            },
            CreateState::Finishing { target, existed } => match event {
                FsEvent::Resolved(resolved) => step matches Step::Finished(Ok(result))
                    && result.path@ == fs.shown(written_path(target.located, resolved)@)
                    && result.created == !existed && result.overwritten == existed,
                _ => step matches Step::Perform(s, _) && s == self,
            },
        }
    }

    /// Takes the event for the action that was asked for.
    pub fn resume(self, fs: &LocalGitAwareFs, event: FsEvent<'_>) -> (step: Step<
        CreateState,
        CreateFileResult,
    >)
        ensures
            self.follows(fs, event, step),
            step matches Step::Perform(s, a) ==> a@ == s.awaits(),
            !answers(self.awaits(), event) ==> (step matches Step::Perform(s, _) && s == self),
    {
        match self {
            CreateState::MakingParents { target } => match event {
                FsEvent::Done(Err(source)) => match target.parent {
                    Some(path) => Step::Finished(Err(FsError::CreateParents { path, source })),
                    None => ask_create(check_parent(target)),
                },
                FsEvent::Done(Ok(_)) => ask_create(check_parent(target)),
                _ => ask_create(CreateState::MakingParents { target }),
            },
            CreateState::Checking { target, guard } => match guard.resume(fs, event) {
                GuardStep::Failed(e) => Step::Finished(Err(e)),
                GuardStep::Ask(next) => ask_create(CreateState::Checking { target, guard: next }),
                GuardStep::Passed(_) => ask_create(CreateState::Probing { target }),
            },
            CreateState::Probing { target } => match event {
                FsEvent::Meta(Ok(meta)) => {
                    if meta.is_dir || !target.overwrite {
                        Step::Finished(Err(FsError::DestinationExists { path: target.located }))
                    } else {
                        ask_create(CreateState::Writing { target, existed: true })
                    }
                },
                FsEvent::Meta(Err(_)) => ask_create(
                    CreateState::Writing { target, existed: false },
                ),
                _ => ask_create(CreateState::Probing { target }),
            },
            CreateState::Writing { target, existed } => match event {
                FsEvent::Written(Err(failure)) => Step::Finished(
                    Err(make_write_error(target.located, failure)),
                ),
                FsEvent::Written(Ok(_)) => ask_create(CreateState::Finishing { target, existed }),
                _ => ask_create(CreateState::Writing { target, existed }),
            },
            CreateState::Finishing { target, existed } => match event {
                FsEvent::Resolved(resolved) => {
                    let path = match resolved {
                        Ok(canonical) => fs.show(&canonical),
                        Err(_) => fs.show(&target.located),
                    };
                    Step::Finished(
                        Ok(CreateFileResult { path, created: !existed, overwritten: existed }),
                    )
                },
                _ => ask_create(CreateState::Finishing { target, existed }),
            },
        }
    }
}

fn check_parent(target: CreateTarget) -> (next: CreateState)
    ensures
        CreateState::checks(target, next),
{
    match &target.parent {
        Some(parent) => {
            let guard = Guard::begin(parent.copy(), choose_rule(target.absolute, Access::Write));
            CreateState::Checking { target, guard }
        },
        None => CreateState::Probing { target },
    }
}

fn ask_create(state: CreateState) -> (step: Step<CreateState, CreateFileResult>)
    ensures
        step matches Step::Perform(s, a) && s == state && a@ == state.awaits(),
{
    let action = state.request();
    Step::Perform(state, action)
}

/// The file that a request asks to create.
pub open spec fn create_target(fs: &LocalGitAwareFs, args: CreateFileArgs, target: CreateTarget) -> bool {
    &&& target.located@ == fs.located(args.path@)
    &&& match target.parent {
        Some(p) => Some(p@),
        None => None,
    } == parent_of(target.located@)
    &&& target.absolute == is_absolute(encode_utf8(args.path@))
    &&& target.overwrite == (args.overwrite == Some(true))
    &&& target.content@ == match args.content {
        Some(text) => text@,
        None => Seq::empty(),
    }
}

impl CreateState {
    /// The file that is being created.
    pub open spec fn target(self) -> CreateTarget {
        match self {
            CreateState::MakingParents { target } => target,
            CreateState::Checking { target, .. } => target,
            CreateState::Probing { target } => target,
            CreateState::Writing { target, .. } => target,
            CreateState::Finishing { target, .. } => target,
        }
    }
}

impl LocalGitAwareFs {
    /// Begins to create a file. Missing parent directories are created first
    /// where the request asks for it; then the parent is checked.
    pub fn create_file(&self, args: CreateFileArgs) -> (step: Step<CreateState, CreateFileResult>)
        ensures
            step matches Step::Perform(state, a) && a@ == state.awaits() && create_target(
                self,
                args,
                state.target(),
            ) && if args.create_parents == Some(true) && state.target().parent is Some {
                state is MakingParents
            } else {
                CreateState::checks(state.target(), state)
            },
    {
        let given = FsPath::from_str(args.path.as_str());
        let absolute = given.is_absolute();
        let located = self.locate(args.path.as_str());
        let parent = located.parent();
        let make_parents = match args.create_parents {
            Some(b) => b,
            None => false,
        } && parent.is_some();
        let target = CreateTarget {
            located,
            parent,
            absolute,
            overwrite: match args.overwrite {
                Some(b) => b,
                None => false,
            },
            content: match args.content {
                Some(text) => text,
                None => String::new(),
            },
        };
        if make_parents {
            ask_create(CreateState::MakingParents { target })
        } else {
            ask_create(check_parent(target))
        }
    }
}

/// What a request asks to delete.
#[derive(Debug, PartialEq, Eq)]
pub struct DeleteTarget {
    /// Where the path was located.
    pub located: FsPath,
    pub absolute: bool,
    pub recursive: bool,
    pub force: bool,
}

/// Where a deletion stands.
#[derive(Debug, PartialEq, Eq)]
pub enum DeleteState {
    /// The target is being looked up.
    Probing { target: DeleteTarget },
    /// The target is there and is being checked.
    Checking { target: DeleteTarget, is_dir: bool, guard: Guard },
    /// The target is being removed.
    Removing { target: DeleteTarget, is_dir: bool, canonical: FsPath },
}

/// Whether `result` says that nothing was there to delete.
pub open spec fn nothing_deleted(fs: &LocalGitAwareFs, result: DeletePathResult, target: DeleteTarget) -> bool {
    &&& result.path@ == shown_missing(fs, target.located@, target.absolute)
    &&& !result.existed
    &&& !result.is_dir
    &&& !result.removed
    &&& !result.recursive
}

impl DeleteState {
    pub open spec fn awaits(&self) -> ActionView {
        match *self {
            DeleteState::Probing { target } => ActionView::Metadata { path: target.located@ },
            DeleteState::Checking { guard, .. } => guard.awaits(),
            DeleteState::Removing { is_dir, canonical, .. } => if is_dir {
                ActionView::RemoveDirAll { path: canonical@ }
            } else {
                ActionView::RemoveFile { path: canonical@ }
            },
        }
    }

    pub fn request(&self) -> (action: FsAction)
        ensures
            action@ == self.awaits(),
    {
        match self {
            DeleteState::Probing { target } => FsAction::Metadata { path: target.located.copy() },
            DeleteState::Checking { guard, .. } => guard.request(),
            DeleteState::Removing { is_dir, canonical, .. } => if *is_dir {
                FsAction::RemoveDirAll { path: canonical.copy() }
            } else {
                FsAction::RemoveFile { path: canonical.copy() }
            },
        }
    }

    /// Whether `step` is what an event leads to from this state.
    ///
    /// A target that is not there is an error, unless the request forces the
    /// deletion: then the reply says that nothing was there. A target that is
    /// there must pass the rule for its path. A directory is removed only
    /// where the request allows it, and then with all below it.
    pub open spec fn follows(
        self,
        fs: &LocalGitAwareFs,
        event: FsEvent<'_>,
        step: Step<DeleteState, DeletePathResult>,
    ) -> bool {
        match self {
            DeleteState::Probing { target } => match event {
                FsEvent::Meta(Ok(meta)) => step matches Step::Perform(
                    DeleteState::Checking {
                        target: t,
                        is_dir,
                        guard: Guard::Resolving { path, rule },
                    },
                    _,
                ) && t == target && is_dir == meta.is_dir && path@ == target.located@ && rule
                    == rule_for(target.absolute, Access::Write),
                FsEvent::Meta(Err(source)) => if source.kind == IoKind::NotFound && target.force {
                    step matches Step::Finished(Ok(result)) && nothing_deleted(fs, result, target)
                } else {
                    step == Step::<DeleteState, DeletePathResult>::Finished(
                        Err(FsError::FileMetadata { path: target.located, source }),
                    )
                },
                _ => step matches Step::Perform(s, _) && s == self,
            },
            DeleteState::Checking { target, is_dir, guard } => {
                if let Some(e) = guard.failure(fs, event) {
                    step == Step::<DeleteState, DeletePathResult>::Finished(Err(e))
                } else if let Some(cleared) = guard.clears(fs, event) {
                    if is_dir && !target.recursive {
                        step == Step::<DeleteState, DeletePathResult>::Finished(
                            Err(FsError::DeleteDirNonRecursive { path: cleared.canonical }),
                        )
                    } else {
                        step matches Step::Perform(s, _) && s == (DeleteState::Removing {
                            target,
                            is_dir,
                            canonical: cleared.canonical,
                        })
                    }
                } else {
                    step matches Step::Perform(
                        DeleteState::Checking { target: t, is_dir: d, guard: g },
                        _,
                    ) && t == target && d == is_dir && guard.continues(fs, event, g)
                }
            },
            DeleteState::Removing { target, is_dir, canonical } => match event {
                FsEvent::Done(Err(source)) => step == Step::<
                    DeleteState,
                    DeletePathResult,
                >::Finished(Err(FsError::DeletePath { path: canonical, source })),
                FsEvent::Done(Ok(_)) => step matches Step::Finished(Ok(result)) && result.path@
                    == fs.shown(canonical@) && result.existed && result.is_dir == is_dir
                    && result.removed && result.recursive == (is_dir && target.recursive),
                _ => step matches Step::Perform(s, _) && s == self,
            },
        }
    }

    /// Takes the event for the action that was asked for.
    pub fn resume(self, fs: &LocalGitAwareFs, event: FsEvent<'_>) -> (step: Step<
        DeleteState,
        DeletePathResult,
    >)
        ensures
            self.follows(fs, event, step),
            step matches Step::Perform(s, a) ==> a@ == s.awaits(),
            !answers(self.awaits(), event) ==> (step matches Step::Perform(s, _) && s == self),
    {
        match self {
            DeleteState::Probing { target } => match event {
                FsEvent::Meta(Ok(meta)) => {
                    let guard = Guard::begin(
                        target.located.copy(),
                        choose_rule(target.absolute, Access::Write),
                    );
                    ask_delete(DeleteState::Checking { target, is_dir: meta.is_dir, guard })
                },
                FsEvent::Meta(Err(source)) => {
                    if source.is_not_found() && target.force {
                        Step::Finished(
                            Ok(
                                DeletePathResult {
                                    path: fs.show_missing(&target.located, target.absolute),
                                    existed: false,
                                    is_dir: false,
                                    removed: false,
                                    recursive: false,
                                },
                            ),
                        )
                    } else {
                        Step::Finished(Err(FsError::FileMetadata { path: target.located, source }))
                    }
                },
                _ => ask_delete(DeleteState::Probing { target }),
            },
            DeleteState::Checking { target, is_dir, guard } => match guard.resume(fs, event) {
                GuardStep::Failed(e) => Step::Finished(Err(e)),
                GuardStep::Ask(next) => ask_delete(
                    DeleteState::Checking { target, is_dir, guard: next },
                ),
                GuardStep::Passed(cleared) => {
                    if is_dir && !target.recursive {
                        Step::Finished(
                            Err(FsError::DeleteDirNonRecursive { path: cleared.canonical }),
                        )
                    } else {
                        ask_delete(
                            DeleteState::Removing { target, is_dir, canonical: cleared.canonical },
                        )
                    }
                },
            },
            DeleteState::Removing { target, is_dir, canonical } => match event {
                FsEvent::Done(Err(source)) => Step::Finished(
                    Err(FsError::DeletePath { path: canonical, source }),
                ),
                FsEvent::Done(Ok(_)) => Step::Finished(
                    Ok(
                        DeletePathResult {
                            path: fs.show(&canonical),
                            existed: true,
                            is_dir,
                            removed: true,
                            recursive: is_dir && target.recursive,
                        },
                    ),
                ),
                _ => ask_delete(DeleteState::Removing { target, is_dir, canonical }),
            },
        }
    }
}

fn ask_delete(state: DeleteState) -> (step: Step<DeleteState, DeletePathResult>)
    ensures
        step matches Step::Perform(s, a) && s == state && a@ == state.awaits(),
{
    let action = state.request();
    Step::Perform(state, action)
}

impl LocalGitAwareFs {
    /// Begins a deletion.
    pub fn delete_path(&self, args: DeletePathArgs) -> (step: Step<DeleteState, DeletePathResult>)
        ensures
            step matches Step::Perform(DeleteState::Probing { target }, a) && a@
                == (ActionView::Metadata { path: target.located@ }) && target.located@
                == self.located(args.path@) && target.absolute == is_absolute(
                encode_utf8(args.path@),
            ) && target.recursive == (args.recursive == Some(true)) && target.force == (args.force
                == Some(true)),
    {
        let given = FsPath::from_str(args.path.as_str());
        let target = DeleteTarget {
            located: self.locate(args.path.as_str()),
            absolute: given.is_absolute(),
            recursive: match args.recursive {
                Some(b) => b,
                None => false,
            },
            force: match args.force {
                Some(b) => b,
                None => false,
            },
        };
        ask_delete(DeleteState::Probing { target })
    }
}

/// The explanation that goes with the refusal to overwrite what is no regular
/// file.
pub open spec fn not_regular_message() -> Seq<char> {
    "overwrite_file only supports regular files"@
}

/// The file that a request asks to overwrite.
#[derive(Debug, PartialEq, Eq)]
pub struct OverwriteTarget {
    /// Where the file was located.
    pub located: FsPath,
    /// The directory that it lies in, if its path has one.
    pub parent: Option<FsPath>,
    pub absolute: bool,
    pub content: String,
}

/// Where the overwriting of a file stands.
#[derive(Debug, PartialEq, Eq)]
pub enum OverwriteState {
    /// The target is being looked up.
    Probing { target: OverwriteTarget },
    /// The parent is being checked.
    Checking { target: OverwriteTarget, guard: Guard },
    /// The file is being written.
    Writing { target: OverwriteTarget },
    /// The file is written and is being resolved.
    Finishing { target: OverwriteTarget },
}

impl OverwriteState {
    pub open spec fn awaits(&self) -> ActionView {
        match *self {
            OverwriteState::Probing { target } => ActionView::Metadata { path: target.located@ },
            OverwriteState::Checking { guard, .. } => guard.awaits(),
            OverwriteState::Writing { target } => ActionView::Write {
                path: target.located@,
                content: target.content@,
                create: false,
            },
            OverwriteState::Finishing { target } => ActionView::Canonicalize {
                path: target.located@,
            },
        }
    }

    pub fn request(&self) -> (action: FsAction)
        ensures
            action@ == self.awaits(),
    {
        match self {
            OverwriteState::Probing { target } => FsAction::Metadata {
                path: target.located.copy(),
            },
            OverwriteState::Checking { guard, .. } => guard.request(),
            OverwriteState::Writing { target } => FsAction::Write {
                path: target.located.copy(),
                content: copy_text(target.content.as_str()),
                create: false,
            },
            OverwriteState::Finishing { target } => FsAction::Canonicalize {
                path: target.located.copy(),
            },
        }
    }

    /// The state in which the parent is checked, or the file written where
    /// its path has no parent.
    pub open spec fn checks(target: OverwriteTarget, next: OverwriteState) -> bool {
        match target.parent {
            Some(parent) => next matches OverwriteState::Checking {
                target: t,
                guard: Guard::Resolving { path, rule },
            } && t == target && path@ == parent@ && rule == rule_for(
                target.absolute,
                Access::Write,
            ),
            None => next == (OverwriteState::Writing { target }),
        }
    }

    /// Whether `step` is what an event leads to from this state.
    ///
    /// The target must be there and be a regular file, and its parent must
    /// pass the rule for the path. The file is never created.
    pub open spec fn follows(
        self,
        fs: &LocalGitAwareFs,
        event: FsEvent<'_>,
        step: Step<OverwriteState, OverwriteFileResult>,
    ) -> bool {
        match self {
            OverwriteState::Probing { target } => match event {
                FsEvent::Meta(Err(source)) => step == Step::<
                    OverwriteState,
                    OverwriteFileResult,
                >::Finished(Err(FsError::FileMetadata { path: target.located, source })),
                FsEvent::Meta(Ok(meta)) => if !meta.is_file {
                    step matches Step::Finished(Err(FsError::WriteFile { path, source })) && path
                        == target.located && source.kind == IoKind::Other && source.message@
                        == not_regular_message()
                } else {
                    step matches Step::Perform(next, _) && Self::checks(target, next)
                },
                _ => step matches Step::Perform(s, _) && s == self,
            },
            OverwriteState::Checking { target, guard } => {
                if let Some(e) = guard.failure(fs, event) {
                    step == Step::<OverwriteState, OverwriteFileResult>::Finished(Err(e))
                } else if guard.clears(fs, event) is Some {
                    step matches Step::Perform(s, _) && s == (OverwriteState::Writing { target })
                } else {
                    step matches Step::Perform(OverwriteState::Checking { target: t, guard: g }, _)
                        && t == target && guard.continues(fs, event, g)
                }
            },
            OverwriteState::Writing { target } => match event {
                FsEvent::Written(Err(failure)) => step == Step::<
                    OverwriteState,
                    OverwriteFileResult,
                >::Finished(Err(write_error(target.located, failure))),
                FsEvent::Written(Ok(_)) => step matches Step::Perform(s, _) && s
                    == (OverwriteState::Finishing { target }),
                _ => step matches Step::Perform(s, _) && s == self,
            },
            OverwriteState::Finishing { target } => match event {
                FsEvent::Resolved(resolved) => step matches Step::Finished(Ok(result))
                    && result.path@ == fs.shown(written_path(target.located, resolved)@),
                _ => step matches Step::Perform(s, _) && s == self,
            },
        }
    }

    /// Takes the event for the action that was asked for.
    pub fn resume(self, fs: &LocalGitAwareFs, event: FsEvent<'_>) -> (step: Step<
        OverwriteState,
        OverwriteFileResult,
    >)
        ensures
            self.follows(fs, event, step),
            step matches Step::Perform(s, a) ==> a@ == s.awaits(),
            !answers(self.awaits(), event) ==> (step matches Step::Perform(s, _) && s == self),
    {
        match self {
            OverwriteState::Probing { target } => match event {
                FsEvent::Meta(Err(source)) => Step::Finished(
                    Err(FsError::FileMetadata { path: target.located, source }),
                ),
                FsEvent::Meta(Ok(meta)) => {
                    if !meta.is_file {
                        return Step::Finished(
                            Err(
                                FsError::WriteFile {
                                    path: target.located,
                                    source: IoFailure::other(
                                        "overwrite_file only supports regular files",
                                    ),
                                },
                            ),
                        );
                    }
                    let next = match &target.parent {
                        Some(parent) => {
                            let guard = Guard::begin(
                                parent.copy(),
                                choose_rule(target.absolute, Access::Write),
                            );
                            OverwriteState::Checking { target, guard }
                        },
                        None => OverwriteState::Writing { target },
                    };
                    ask_overwrite(next)
                },
                _ => ask_overwrite(OverwriteState::Probing { target }),
            },
            OverwriteState::Checking { target, guard } => match guard.resume(fs, event) {
                GuardStep::Failed(e) => Step::Finished(Err(e)),
                GuardStep::Ask(next) => ask_overwrite(
                    OverwriteState::Checking { target, guard: next },
                ),
                GuardStep::Passed(_) => ask_overwrite(OverwriteState::Writing { target }),
            },
            OverwriteState::Writing { target } => match event {
                FsEvent::Written(Err(failure)) => Step::Finished(
                    Err(make_write_error(target.located, failure)),
                ),
                FsEvent::Written(Ok(_)) => ask_overwrite(OverwriteState::Finishing { target }),
                _ => ask_overwrite(OverwriteState::Writing { target }),
            },
            OverwriteState::Finishing { target } => match event {
                FsEvent::Resolved(resolved) => {
                    let path = match resolved {
                        Ok(canonical) => fs.show(&canonical),
                        Err(_) => fs.show(&target.located),
                    };
                    Step::Finished(Ok(OverwriteFileResult { path }))
                },
                _ => ask_overwrite(OverwriteState::Finishing { target }),
            },
        }
    }
}

fn ask_overwrite(state: OverwriteState) -> (step: Step<OverwriteState, OverwriteFileResult>)
    ensures
        step matches Step::Perform(s, a) && s == state && a@ == state.awaits(),
{
    let action = state.request();
    Step::Perform(state, action)
}

impl LocalGitAwareFs {
    /// Begins to overwrite a file.
    pub fn overwrite_file(&self, args: OverwriteFileArgs) -> (step: Step<
        OverwriteState,
        OverwriteFileResult,
    >)
        ensures
            step matches Step::Perform(OverwriteState::Probing { target }, a) && a@
                == (ActionView::Metadata { path: target.located@ }) && target.located@
                == self.located(args.path@) && match target.parent {
                Some(p) => Some(p@),
                None => None,
            } == parent_of(target.located@) && target.absolute == is_absolute(
                encode_utf8(args.path@),
            ) && target.content@ == args.content@,
    {
        let given = FsPath::from_str(args.path.as_str());
        let located = self.locate(args.path.as_str());
        let parent = located.parent();
        let target = OverwriteTarget {
            located,
            parent,
            absolute: given.is_absolute(),
            content: args.content,
        };
        ask_overwrite(OverwriteState::Probing { target })
    }
}

} // verus!
