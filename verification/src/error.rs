//! What can go wrong.

use vstd::prelude::*;

use crate::path::FsPath;

verus! {

/// `globset::Error`: why a glob was rejected. Nothing is read from it.
#[verifier::external_type_specification]
#[verifier::external_body]
pub struct ExGlobError(globset::Error);

/// `regex::Error`: why a pattern was rejected. Nothing is read from it.
#[verifier::external_type_specification]
#[verifier::external_body]
pub struct ExRegexError(regex::Error);

/// The kinds of failure that the operating system reports and that are told
/// apart here.
#[derive(Debug, Clone, Copy, PartialEq, Eq, Structural)]
pub enum IoKind {
    NotFound,
    PermissionDenied,
    AlreadyExists,
    InvalidData,
    Other,
}

/// A failure of the operating system, as it was reported.
#[derive(Debug, Clone, PartialEq, Eq)]
pub struct IoFailure {
    pub kind: IoKind,
    pub message: String,
}

pub type Result<T> = std::result::Result<T, FsError>;

/// Every way in which an operation can fail. Each variant names the path or
/// the input that was at fault.
#[derive(Debug, PartialEq)]
#[allow(inconsistent_fields)]
pub enum FsError {
    CanonicalizeRoot { root: FsPath, source: IoFailure },
    CanonicalizePath { path: FsPath, source: IoFailure },
    PathEscapesRepo { path: FsPath },
    ListRootNotExist { path: FsPath },
    ListRootNotDirectory { path: FsPath },
    ListRootNotInGit { path: FsPath },
    FindRootNotExist { path: FsPath },
    FindRootNotDirectory { path: FsPath },
    FindRootNotInGit { path: FsPath },
    SearchRootNotInGit { path: FsPath },
    SearchRootEscapesRepo { path: FsPath },
    ReadFilePathNotExist { path: FsPath },
    ReadFilePermissionDenied { path: FsPath },
    ReadFileNotFile { path: FsPath },
    ReadFileNotInGit { path: FsPath },
    WritePathNotInGit { path: FsPath },
    InvalidGlobPattern { pattern: String, source: globset::Error },
    InvalidFindFilesRegex { query: String, source: regex::Error },
    InvalidSearchRegex { query: String, source: regex::Error },
    RootNotDirectory { path: FsPath },
    ReadFileLinesWithBytes,
    ReadFileBytesWithLines,
    StartLineMustBePositive,
    OpenFile { path: FsPath, source: IoFailure },
    SeekFile { path: FsPath, source: IoFailure },
    ReadFile { path: FsPath, source: IoFailure },
    WriteFile { path: FsPath, source: IoFailure },
    FileNotUtf8 { path: FsPath },
    FileMetadata { path: FsPath, source: IoFailure },
    ReadLine { path: FsPath, source: IoFailure },
    DeletePath { path: FsPath, source: IoFailure },
    DeleteDirNonRecursive { path: FsPath },
    DestinationExists { path: FsPath },
    CreateParents { path: FsPath, source: IoFailure },
    CopyPath { from: FsPath, to: FsPath, source: IoFailure },
    MovePath { from: FsPath, to: FsPath, source: IoFailure },
    CopyAcrossRepos { from: FsPath, to: FsPath },
    MoveAcrossRepos { from: FsPath, to: FsPath },
}

impl IoFailure {
    /// A failure of no particular kind, with the given explanation.
    pub fn other(message: &str) -> (failure: IoFailure)
        ensures
            failure.kind == IoKind::Other,
            failure.message@ == message@,
    {
        IoFailure { kind: IoKind::Other, message: crate::text::copy_text(message) }
    }

    pub fn is_not_found(&self) -> (missing: bool)
        ensures
            missing == (self.kind == IoKind::NotFound),
    {
        self.kind == IoKind::NotFound
    }
}

} // verus!
