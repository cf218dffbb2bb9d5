//! The boundary to the operating system.
//!
//! Nothing in this library touches a file. An operation is a machine that
//! says what it needs next, as an `FsAction`, and is told what came of it, as
//! an `FsEvent`. Whoever drives the machine performs the action, and only
//! that: every decision is taken here.

use vstd::prelude::*;

use crate::error::{FsError, IoFailure};
use crate::path::FsPath;

verus! {

/// What the operating system says of an existing entry.
#[derive(Debug, Clone, Copy, PartialEq, Eq)]
pub struct FileMeta {
    pub is_file: bool,
    pub is_dir: bool,
    /// Size in bytes.
    pub len: u64,
    /// Time of the last change in seconds since the epoch, where it is known.
    pub modified: Option<u64>,
}

/// What kind of entry a traversal came upon.
#[derive(Debug, Clone, Copy, PartialEq, Eq, Structural)]
pub enum EntryKind {
    File,
    Dir,
    Other,
}

/// One entry of a traversal.
#[derive(Debug, Clone, PartialEq, Eq)]
pub struct WalkEntry {
    pub path: FsPath,
    pub kind: EntryKind,
}

/// The step of a write at which it failed.
#[derive(Debug, Clone, Copy, PartialEq, Eq, Structural)]
pub enum WriteStage {
    Open,
    Write,
}

#[derive(Debug, Clone, PartialEq, Eq)]
pub struct WriteFailure {
    pub stage: WriteStage,
    pub source: IoFailure,
}

/// The step of a read at which it failed.
#[derive(Debug, Clone, Copy, PartialEq, Eq, Structural)]
pub enum ReadStage {
    Open,
    Seek,
    Read,
}

#[derive(Debug, Clone, PartialEq, Eq)]
pub struct ReadFailure {
    pub stage: ReadStage,
    pub source: IoFailure,
}

/// What an operation needs done before it can go on.
#[derive(Debug, Clone, PartialEq, Eq)]
pub enum FsAction {
    /// Resolve the path to its canonical form, following links.
    Canonicalize { path: FsPath },
    /// Look up the entry that the path leads to, following links.
    Metadata { path: FsPath },
    /// Say whether anything is at the path.
    Exists { path: FsPath },
    /// Create the directory and every missing ancestor.
    CreateDirAll { path: FsPath },
    /// Open the file for writing, emptied, and write the content. With
    /// `create` a missing file is created.
    Write { path: FsPath, content: String, create: bool },
    RemoveFile { path: FsPath },
    /// Remove the directory and all below it.
    RemoveDirAll { path: FsPath },
    /// Copy the content of one file to another.
    Copy { from: FsPath, to: FsPath },
    Rename { from: FsPath, to: FsPath },
    /// Open the file, go to `offset` if it is not zero, and read up to
    /// `max_bytes` bytes.
    ReadBytes { path: FsPath, offset: u64, max_bytes: u64 },
    /// Open the file for reading line by line.
    OpenLines { path: FsPath },
    /// Read the next line of the file that was opened, without its line
    /// ending.
    NextLine,
    /// Begin a traversal below `root` that honours ignore files and skips
    /// hidden entries, and hand out its first entry. `max_depth` bounds how
    /// far below `root` it goes; with `parallel` the entries may come in any
    /// order.
    Walk { root: FsPath, max_depth: Option<usize>, parallel: bool },
    /// Hand out the next entry of the traversal.
    NextEntry,
    /// Map the file into memory and hand out its bytes.
    MapFile { path: FsPath },
}

/// An action with its paths and texts as plain values.
pub enum ActionView {
    Canonicalize { path: Seq<u8> },
    Metadata { path: Seq<u8> },
    Exists { path: Seq<u8> },
    CreateDirAll { path: Seq<u8> },
    Write { path: Seq<u8>, content: Seq<char>, create: bool },
    RemoveFile { path: Seq<u8> },
    RemoveDirAll { path: Seq<u8> },
    Copy { from: Seq<u8>, to: Seq<u8> },
    Rename { from: Seq<u8>, to: Seq<u8> },
    ReadBytes { path: Seq<u8>, offset: u64, max_bytes: u64 },
    OpenLines { path: Seq<u8> },
    NextLine,
    Walk { root: Seq<u8>, max_depth: Option<usize>, parallel: bool },
    NextEntry,
    MapFile { path: Seq<u8> },
}

impl View for FsAction {
    type V = ActionView;

    open spec fn view(&self) -> ActionView {
        match *self {
            FsAction::Canonicalize { path } => ActionView::Canonicalize { path: path@ },
            FsAction::Metadata { path } => ActionView::Metadata { path: path@ },
            FsAction::Exists { path } => ActionView::Exists { path: path@ },
            FsAction::CreateDirAll { path } => ActionView::CreateDirAll { path: path@ },
            FsAction::Write { path, content, create } => ActionView::Write {
                path: path@,
                content: content@,
                create,
            },
            FsAction::RemoveFile { path } => ActionView::RemoveFile { path: path@ },
            FsAction::RemoveDirAll { path } => ActionView::RemoveDirAll { path: path@ },
            FsAction::Copy { from, to } => ActionView::Copy { from: from@, to: to@ },
            FsAction::Rename { from, to } => ActionView::Rename { from: from@, to: to@ },
            FsAction::ReadBytes { path, offset, max_bytes } => ActionView::ReadBytes {
                path: path@,
                offset,
                max_bytes,
            },
            FsAction::OpenLines { path } => ActionView::OpenLines { path: path@ },
            FsAction::NextLine => ActionView::NextLine,
            FsAction::Walk { root, max_depth, parallel } => ActionView::Walk {
                root: root@,
                max_depth,
                parallel,
            },
            FsAction::NextEntry => ActionView::NextEntry,
            FsAction::MapFile { path } => ActionView::MapFile { path: path@ },
        }
    }
}

/// What came of an action.
#[derive(Debug, PartialEq, Eq)]
pub enum FsEvent<'a> {
    /// The canonical form of the path.
    Resolved(std::result::Result<FsPath, IoFailure>),
    Meta(std::result::Result<FileMeta, IoFailure>),
    Exists(bool),
    /// A directory was created, an entry removed or renamed.
    Done(std::result::Result<(), IoFailure>),
    Written(std::result::Result<(), WriteFailure>),
    /// The number of bytes copied.
    Copied(std::result::Result<u64, IoFailure>),
    /// The bytes read.
    Bytes(std::result::Result<Vec<u8>, ReadFailure>),
    Opened(std::result::Result<(), IoFailure>),
    /// The next line, or nothing at the end of the file.
    Line(Option<std::result::Result<String, IoFailure>>),
    /// The next entry or what kept the traversal from reading it, or
    /// nothing at the end of the traversal.
    Entry(Option<std::result::Result<WalkEntry, String>>),
    /// The bytes of the mapped file.
    Mapped(std::result::Result<&'a [u8], IoFailure>),
}

/// Whether an event is of the kind that the action asks for.
pub open spec fn answers(action: ActionView, event: FsEvent<'_>) -> bool {
    match action {
        ActionView::Canonicalize { .. } => event is Resolved,
        ActionView::Metadata { .. } => event is Meta,
        ActionView::Exists { .. } => event is Exists,
        ActionView::CreateDirAll { .. } => event is Done,
        ActionView::Write { .. } => event is Written,
        ActionView::RemoveFile { .. } => event is Done,
        ActionView::RemoveDirAll { .. } => event is Done,
        ActionView::Copy { .. } => event is Copied,
        ActionView::Rename { .. } => event is Done,
        ActionView::ReadBytes { .. } => event is Bytes,
        ActionView::OpenLines { .. } => event is Opened,
        ActionView::NextLine => event is Line,
        ActionView::Walk { .. } => event is Entry,
        ActionView::NextEntry => event is Entry,
        ActionView::MapFile { .. } => event is Mapped,
    }
}

/// Where an operation stands: it waits for an action to be performed, or it
/// is over.
///
/// The action of a step is always the one that its state waits for, so a
/// state that is resumed with an event of another kind can ask again.
#[derive(Debug)]
pub enum Step<S, T> {
    /// The action to perform, and the state to resume with the event.
    Perform(S, FsAction),
    Finished(std::result::Result<T, FsError>),
}

} // verus!
