//! Requests and replies.
//!
//! Every field that a request may leave out is an `Option`; the value that
//! stands in for a missing one is a constant of this module.

use vstd::prelude::*;

verus! {

/// Hits returned by a text search or a search by name when the request names
/// no limit.
pub const DEFAULT_MAX_SEARCH_RESULTS: u32 = 200;

/// Lines of context on either side of a hit when the request names no number.
pub const DEFAULT_SEARCH_CONTEXT_LINES: u32 = 2;

/// Bytes read when the request names no limit.
pub const DEFAULT_MAX_READ_BYTES: u64 = 65536;

/// Lines read when the request names no limit.
pub const DEFAULT_MAX_READ_LINES: u64 = 200;

/// Entries listed when the request names no limit.
pub const DEFAULT_LIST_MAX_RESULTS: u32 = 500;

/// How the query of a text search is read.
#[derive(Debug, Clone, Copy, PartialEq, Eq, Structural)]
pub enum SearchMode {
    /// The query is the text that is looked for.
    Literal,
    /// The query is a regular expression.
    Regex,
}

/// How a read addresses a file.
#[derive(Debug, Clone, Copy, PartialEq, Eq, Structural)]
pub enum RangeType {
    /// By `offset_bytes` and `max_bytes`.
    Bytes,
    /// By `start_line` and `max_lines`.
    Lines,
}

/// What a search by name looks at.
#[derive(Debug, Clone, Copy, PartialEq, Eq, Structural)]
pub enum FindMatchMode {
    /// The name of the entry alone.
    Name,
    /// The path of the entry relative to where the search began.
    Path,
}

/// A request to search the text of files.
#[derive(Debug, Clone, PartialEq, Eq)]
pub struct SearchTextArgs {
    pub query: String,
    /// Literal unless it says otherwise.
    pub mode: Option<SearchMode>,
    /// Case is ignored unless this is `true`.
    pub case_sensitive: Option<bool>,
    /// The directory to search below: relative to the root of the engine, or
    /// absolute and inside a repository. The root of the engine where it is
    /// missing.
    pub root: Option<String>,
    /// Only files that one of these globs matches are searched.
    pub include_globs: Option<Vec<String>>,
    /// Files that one of these globs matches are passed over.
    pub exclude_globs: Option<Vec<String>>,
    /// 200 where it is missing.
    pub max_results: Option<u32>,
    /// Lines given before and after each hit; 2 where it is missing.
    pub context_lines: Option<u32>,
    /// Hits passed over before the first that is returned.
    pub skip: Option<u32>,
}

/// A request to read a part of a file.
#[derive(Debug, Clone, PartialEq, Eq)]
pub struct ReadFileArgs {
    pub path: String,
    /// Where it is missing, the file is read by lines if the request names a
    /// line or a limit in lines, and by bytes otherwise.
    pub range_type: Option<RangeType>,
    /// 0 where it is missing.
    pub offset_bytes: Option<u64>,
    /// 64 KiB where it is missing.
    pub max_bytes: Option<u64>,
    /// Counted from 1; 1 where it is missing.
    pub start_line: Option<u64>,
    /// 200 where it is missing.
    pub max_lines: Option<u64>,
}

/// A request to list a directory.
#[derive(Debug, Clone, PartialEq, Eq)]
pub struct ListFilesArgs {
    /// The directory to list: relative to the root of the engine, or absolute
    /// and inside a repository. The root of the engine where it is missing.
    pub root: Option<String>,
    /// All levels are listed unless this is `false`.
    pub recursive: Option<bool>,
    /// Only entries that one of these globs matches are listed.
    pub include_globs: Option<Vec<String>>,
    /// Entries that one of these globs matches are passed over.
    pub exclude_globs: Option<Vec<String>>,
    /// 500 where it is missing.
    pub max_results: Option<u32>,
    /// Directories are left out unless this is `true`.
    pub include_dirs: Option<bool>,
    /// Size and time of the last change are given only if this is `true`.
    pub include_metadata: Option<bool>,
    /// Entries passed over before the first that is returned.
    pub skip: Option<u32>,
}

/// One line in which the query was found.
#[derive(Debug, Clone, PartialEq, Eq)]
pub struct SearchHit {
    pub path: String,
    /// The number of the line, from 1.
    pub line: u64,
    /// The byte offset in the line at which the leftmost match begins, from 0.
    pub column: u64,
    pub line_text: String,
    pub context_before: Vec<String>,
    pub context_after: Vec<String>,
}

#[derive(Debug, Clone, PartialEq, Eq)]
pub struct SearchTextResult {
    pub hits: Vec<SearchHit>,
    pub has_more: bool,
}

/// The part of a file that a read was asked for.
#[derive(Debug, Clone, PartialEq, Eq)]
pub struct FileRangeInfo {
    pub range_type: RangeType,
    pub offset_bytes: Option<u64>,
    pub max_bytes: Option<u64>,
    pub start_line: Option<u64>,
    pub max_lines: Option<u64>,
}

#[derive(Debug, Clone, PartialEq, Eq)]
pub struct FileChunkResult {
    pub path: String,
    pub content: String,
    /// Whether the file goes on behind the part that was returned.
    pub is_truncated: bool,
    pub range: FileRangeInfo,
}

/// One entry of a listing.
#[derive(Debug, Clone, PartialEq, Eq)]
pub struct FileEntry {
    /// Relative to the directory that was listed.
    pub path: String,
    pub is_dir: bool,
    /// Size in bytes, where metadata was asked for.
    pub size: Option<u64>,
    /// Time of the last change in seconds since the epoch, where metadata was
    /// asked for.
    pub modified: Option<u64>,
}

#[derive(Debug, Clone, PartialEq, Eq)]
pub struct ListFilesResult {
    pub entries: Vec<FileEntry>,
    pub has_more: bool,
}

/// A request to find entries by name or by path.
#[derive(Debug, Clone, PartialEq, Eq)]
pub struct FindFilesArgs {
    /// The text that a name or a path must hold.
    pub query: String,
    /// The directory to search below: relative to the root of the engine, or
    /// absolute and inside a repository. The root of the engine where it is
    /// missing.
    pub root: Option<String>,
    /// All levels are searched unless this is `false`.
    pub recursive: Option<bool>,
    /// Only entries that one of these globs matches are looked at.
    pub include_globs: Option<Vec<String>>,
    /// Entries that one of these globs matches are passed over.
    pub exclude_globs: Option<Vec<String>>,
    /// Names are looked at unless it says otherwise.
    pub match_mode: Option<FindMatchMode>,
    /// Case is ignored unless this is `true`.
    pub case_sensitive: Option<bool>,
    /// Directories are found too unless this is `false`.
    pub include_dirs: Option<bool>,
    /// 200 where it is missing.
    pub max_results: Option<u32>,
    /// Matches passed over before the first that is returned.
    pub skip: Option<u32>,
}

/// One entry that was found.
#[derive(Debug, Clone, PartialEq, Eq)]
pub struct FindFileMatch {
    /// Relative to the directory that was searched.
    pub path: String,
    pub is_dir: bool,
}

#[derive(Debug, Clone, PartialEq, Eq)]
pub struct FindFilesResult {
    pub matches: Vec<FindFileMatch>,
    pub has_more: bool,
}

/// A request to say what is at a path.
#[derive(Debug, Clone, PartialEq, Eq)]
pub struct StatArgs {
    /// Relative to the root of the engine, or absolute.
    pub path: String,
}

#[derive(Debug, Clone, PartialEq, Eq)]
pub struct StatResult {
    /// Relative to the root of the engine where the path lies under it.
    pub path: String,
    pub exists: bool,
    pub is_file: bool,
    pub is_dir: bool,
    /// Size in bytes of a regular file.
    pub size: Option<u64>,
    /// Time of the last change in seconds since the epoch.
    pub modified: Option<u64>,
}

/// A request to say how a path is read.
#[derive(Debug, Clone, PartialEq, Eq)]
pub struct PathInfoArgs {
    /// Relative to the root of the engine, or absolute. The root itself where
    /// it is missing or empty.
    pub path: Option<String>,
}

#[derive(Debug, Clone, PartialEq, Eq)]
pub struct PathInfoResult {
    /// The path as it was given, or `.`.
    pub input_path: String,
    /// The path before it was resolved to its canonical form.
    pub resolved_path: String,
    pub exists: bool,
    pub is_file: bool,
    pub is_dir: bool,
    /// Whether the path was given as an absolute one.
    pub is_absolute: bool,
    pub canonical_path: Option<String>,
    /// The nearest directory above the path that holds `.git`.
    pub repo_root: Option<String>,
}

/// A request to create a file.
#[derive(Debug, Clone, PartialEq, Eq)]
pub struct CreateFileArgs {
    pub path: String,
    /// The file is empty where this is missing.
    pub content: Option<String>,
    /// A file that is there is kept unless this is `true`.
    pub overwrite: Option<bool>,
    /// Missing directories above the file are created only if this is `true`.
    pub create_parents: Option<bool>,
}

#[derive(Debug, Clone, PartialEq, Eq)]
pub struct CreateFileResult {
    pub path: String,
    /// Whether the file was not there before.
    pub created: bool,
    /// Whether the file was there before.
    pub overwritten: bool,
}

/// A request to delete a file or a directory.
#[derive(Debug, Clone, PartialEq, Eq)]
pub struct DeletePathArgs {
    pub path: String,
    /// A directory is removed, with all below it, only if this is `true`.
    pub recursive: Option<bool>,
    /// A path that is not there is an error unless this is `true`.
    pub force: Option<bool>,
}

#[derive(Debug, Clone, PartialEq, Eq)]
pub struct DeletePathResult {
    pub path: String,
    pub existed: bool,
    pub is_dir: bool,
    pub removed: bool,
    /// Whether a directory was removed with all below it.
    pub recursive: bool,
}

/// A request to copy a file.
#[derive(Debug, Clone, PartialEq, Eq)]
pub struct CopyPathArgs {
    pub from: String,
    pub to: String,
    /// What is at the destination is kept unless this is `true`.
    pub overwrite: Option<bool>,
    /// Without effect: only regular files are copied.
    pub recursive: Option<bool>,
    /// Missing directories above the destination are created unless this is
    /// `false`.
    pub create_parents: Option<bool>,
}

#[derive(Debug, Clone, PartialEq, Eq)]
pub struct CopyPathResult {
    pub from: String,
    pub to: String,
    pub bytes_copied: Option<u64>,
    /// Whether something was at the destination before.
    pub overwritten: bool,
}

/// A request to move a file.
#[derive(Debug, Clone, PartialEq, Eq)]
pub struct MovePathArgs {
    pub from: String,
    pub to: String,
    /// What is at the destination is kept unless this is `true`.
    pub overwrite: Option<bool>,
    /// Without effect: only regular files are moved.
    pub recursive: Option<bool>,
    /// Missing directories above the destination are created unless this is
    /// `false`.
    pub create_parents: Option<bool>,
}

#[derive(Debug, Clone, PartialEq, Eq)]
pub struct MovePathResult {
    pub from: String,
    pub to: String,
    /// Whether the source was there.
    pub existed: bool,
    /// Whether something was at the destination before.
    pub overwritten: bool,
    /// Always `false`: only regular files are moved.
    pub recursive: bool,
}

/// A request to replace the content of a file that is there.
#[derive(Debug, Clone, PartialEq, Eq)]
pub struct OverwriteFileArgs {
    pub path: String,
    pub content: String,
}

#[derive(Debug, Clone, PartialEq, Eq)]
pub struct OverwriteFileResult {
    pub path: String,
}

} // verus!
