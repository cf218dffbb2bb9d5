//! Reading a part of a file.
//!
//! A part is addressed either by bytes, from an offset on, or by lines, from a
//! line number on; a request that mixes the two is turned down before any file
//! is touched. Read by bytes, the part must be valid UTF-8. Read by lines,
//! every line is given a newline of its own, whatever ended it in the file.

use vstd::prelude::*;
use vstd::string::StringExecFns;
use vstd::utf8::{decode_utf8, encode_utf8, valid_utf8};

use crate::backend::LocalGitAwareFs;
use crate::error::FsError;
use crate::guard::{choose_rule, rule_for, Access, Guard, GuardStep};
use crate::io::{answers, ActionView, FsAction, FsEvent, ReadFailure, ReadStage, Step};
use crate::path::{is_absolute, FsPath};
use crate::text::decode_strict;
use crate::types::{
    FileChunkResult, FileRangeInfo, RangeType, ReadFileArgs, DEFAULT_MAX_READ_BYTES,
    DEFAULT_MAX_READ_LINES,
};

verus! {

/// The part of a file that a request asks for.
#[derive(Debug, Clone, Copy, PartialEq, Eq)]
pub enum ReadPlan {
    Bytes { offset: u64, max_bytes: u64 },
    Lines { start_line: u64, max_lines: u64 },
}

/// Whether a request names an offset or a limit in bytes.
pub open spec fn has_byte_params(args: ReadFileArgs) -> bool {
    args.offset_bytes is Some || args.max_bytes is Some
}

/// Whether a request names a line or a limit in lines.
pub open spec fn has_line_params(args: ReadFileArgs) -> bool {
    args.start_line is Some || args.max_lines is Some
}

/// How a request addresses the file: as it says, or by lines where it names a
/// line or a limit in lines, and by bytes otherwise.
pub open spec fn range_type_of(args: ReadFileArgs) -> RangeType {
    match args.range_type {
        Some(t) => t,
        None => if has_line_params(args) {
            RangeType::Lines
        } else {
            RangeType::Bytes
        },
    }
}

/// The part that a request asks for, or why it asks for none: it mixes
/// bytes and lines, or counts lines from 0.
pub open spec fn read_plan(args: ReadFileArgs) -> std::result::Result<ReadPlan, FsError> {
    match range_type_of(args) {
        RangeType::Bytes => if has_line_params(args) {
            Err(FsError::ReadFileLinesWithBytes)
        } else {
            Ok(
                ReadPlan::Bytes {
                    offset: match args.offset_bytes {
                        Some(n) => n,
                        None => 0,
                    },
                    max_bytes: match args.max_bytes {
                        Some(n) => n,
                        None => DEFAULT_MAX_READ_BYTES,
                    },
                },
            )
        },
        RangeType::Lines => if has_byte_params(args) {
            Err(FsError::ReadFileBytesWithLines)
        } else if args.start_line == Some(0u64) {
            Err(FsError::StartLineMustBePositive)
        } else {
            Ok(
                ReadPlan::Lines {
                    start_line: match args.start_line {
                        Some(n) => n,
                        None => 1,
                    },
                    max_lines: match args.max_lines {
                        Some(n) => n,
                        None => DEFAULT_MAX_READ_LINES,
                    },
                },
            )
        },
    }
}

/// Works out the part that a request asks for.
pub fn plan_read(args: &ReadFileArgs) -> (plan: std::result::Result<ReadPlan, FsError>)
    ensures
        plan == read_plan(*args),
{
    let has_bytes = args.offset_bytes.is_some() || args.max_bytes.is_some();
    let has_lines = args.start_line.is_some() || args.max_lines.is_some();
    let by_lines = match args.range_type {
        Some(RangeType::Lines) => true,
        Some(RangeType::Bytes) => false,
        None => has_lines,
    };
    if !by_lines {
        if has_lines {
            return Err(FsError::ReadFileLinesWithBytes);
        }
        Ok(
            ReadPlan::Bytes {
                offset: match args.offset_bytes {
                    Some(n) => n,
                    None => 0,
                },
                max_bytes: match args.max_bytes {
                    Some(n) => n,
                    None => DEFAULT_MAX_READ_BYTES,
                },
            },
        )
    } else {
        if has_bytes {
            return Err(FsError::ReadFileBytesWithLines);
        }
        let start_line = match args.start_line {
            Some(n) => n,
            None => 1,
        };
        if start_line == 0 {
            return Err(FsError::StartLineMustBePositive);
        }
        Ok(
            ReadPlan::Lines {
                start_line,
                max_lines: match args.max_lines {
                    Some(n) => n,
                    None => DEFAULT_MAX_READ_LINES,
                },
            },
        )
    }
}

/// How a reply describes the part that was asked for.
pub open spec fn range_info(plan: ReadPlan) -> FileRangeInfo {
    match plan {
        ReadPlan::Bytes { offset, max_bytes } => FileRangeInfo {
            range_type: RangeType::Bytes,
            offset_bytes: Some(offset),
            max_bytes: Some(max_bytes),
            start_line: None,
            max_lines: None,
        },
        ReadPlan::Lines { start_line, max_lines } => FileRangeInfo {
            range_type: RangeType::Lines,
            offset_bytes: None,
            max_bytes: None,
            start_line: Some(start_line),
            max_lines: Some(max_lines),
        },
    }
}

/// Where a read stands.
#[derive(Debug, PartialEq, Eq)]
pub enum ReadState {
    /// The path is being checked.
    Checking { plan: ReadPlan, guard: Guard },
    /// The bytes are being read.
    Reading { path: FsPath, offset: u64, max_bytes: u64 },
    /// The bytes are read; the size of the file is being looked up.
    Sizing { path: FsPath, offset: u64, max_bytes: u64, content: String },
    /// The file is being opened for reading by lines.
    Opening { path: FsPath, start_line: u64, max_lines: u64 },
    /// Lines are being read. `current` counts the lines read before the
    /// first that is wanted, and `collected` those that were taken.
    Streaming {
        path: FsPath,
        start_line: u64,
        max_lines: u64,
        current: u64,
        collected: u64,
        content: String,
    },
}

/// The error for a read by bytes that failed at `stage`.
pub open spec fn read_error(path: FsPath, failure: ReadFailure) -> FsError {
    match failure.stage {
        ReadStage::Open => FsError::OpenFile { path, source: failure.source },
        ReadStage::Seek => FsError::SeekFile { path, source: failure.source },
        ReadStage::Read => FsError::ReadFile { path, source: failure.source },
    }
}

/// Whether `result` is the reply for `content` read from `path` as `plan`
/// says.
pub open spec fn replies(
    fs: &LocalGitAwareFs,
    result: FileChunkResult,
    path: FsPath,
    plan: ReadPlan,
    content: Seq<char>,
    is_truncated: bool,
) -> bool {
    &&& result.path@ == fs.shown(path@)
    &&& result.content@ == content
    &&& result.is_truncated == is_truncated
    &&& result.range == range_info(plan)
}

/// The text of a line with the newline that a reply gives it.
pub open spec fn terminated(line: Seq<char>) -> Seq<char> {
    line.push('\n')
}

impl ReadState {
    pub open spec fn awaits(&self) -> ActionView {
        match *self {
            ReadState::Checking { guard, .. } => guard.awaits(),
            ReadState::Reading { path, offset, max_bytes } => ActionView::ReadBytes {
                path: path@,
                offset,
                max_bytes,
            },
            ReadState::Sizing { path, .. } => ActionView::Metadata { path: path@ },
            ReadState::Opening { path, .. } => ActionView::OpenLines { path: path@ },
            ReadState::Streaming { .. } => ActionView::NextLine,
        }
    }

    pub fn request(&self) -> (action: FsAction)
        ensures
            action@ == self.awaits(),
    {
        match self {
            ReadState::Checking { guard, .. } => guard.request(),
            ReadState::Reading { path, offset, max_bytes } => FsAction::ReadBytes {
                path: path.copy(),
                offset: *offset,
                max_bytes: *max_bytes,
            },
            ReadState::Sizing { path, .. } => FsAction::Metadata { path: path.copy() },
            ReadState::Opening { path, .. } => FsAction::OpenLines { path: path.copy() },
            ReadState::Streaming { .. } => FsAction::NextLine,
        }
    }

    /// The state in which the file at `path` is first touched.
    pub open spec fn opened(plan: ReadPlan, path: FsPath) -> ReadState {
        match plan {
            ReadPlan::Bytes { offset, max_bytes } => ReadState::Reading { path, offset, max_bytes },
            ReadPlan::Lines { start_line, max_lines } => ReadState::Opening {
                path,
                start_line,
                max_lines,
            },
        }
    }

    /// Whether `step` is what an event leads to from this state.
    ///
    /// By bytes: the bytes read must be valid UTF-8, and the reply is
    /// truncated when the file goes on behind the part that was asked for. By
    /// lines: lines before the first that is wanted are passed over; each line
    /// from there on is taken with a newline of its own, until as many are
    /// taken as were asked for, and then the reply is truncated. A file that
    /// ends before that is not.
    pub open spec fn follows(
        self,
        fs: &LocalGitAwareFs,
        event: FsEvent<'_>,
        step: Step<ReadState, FileChunkResult>,
    ) -> bool {
        match self {
            ReadState::Checking { plan, guard } => {
                if let Some(e) = guard.failure(fs, event) {
                    step == Step::<ReadState, FileChunkResult>::Finished(Err(e))
                } else if let Some(cleared) = guard.clears(fs, event) {
                    step matches Step::Perform(s, _) && s == Self::opened(plan, cleared.canonical)
                } else {
                    step matches Step::Perform(ReadState::Checking { plan: p, guard: g }, _) && p
                        == plan && guard.continues(fs, event, g)
                }
            },
            ReadState::Reading { path, offset, max_bytes } => match event {
                FsEvent::Bytes(Err(failure)) => step == Step::<
                    ReadState,
                    FileChunkResult,
                >::Finished(Err(read_error(path, failure))),
                FsEvent::Bytes(Ok(bytes)) => if valid_utf8(bytes@) {
                    step matches Step::Perform(
                        ReadState::Sizing { path: p, offset: o, max_bytes: m, content },
                        _,
                    ) && p == path && o == offset && m == max_bytes && content@ == decode_utf8(
                        bytes@,
                    )
                } else {
                    step == Step::<ReadState, FileChunkResult>::Finished(
                        Err(FsError::FileNotUtf8 { path }),
                    )
                },
                _ => step matches Step::Perform(s, _) && s == self,
            },
            ReadState::Sizing { path, offset, max_bytes, content } => match event {
                FsEvent::Meta(Err(source)) => step == Step::<ReadState, FileChunkResult>::Finished(
                    Err(FsError::FileMetadata { path, source }),
                ),
                FsEvent::Meta(Ok(meta)) => step matches Step::Finished(Ok(result)) && replies(
                    fs,
                    result,
                    path,
                    ReadPlan::Bytes { offset, max_bytes },
                    content@,
                    offset + max_bytes < meta.len,
                ),
                _ => step matches Step::Perform(s, _) && s == self,
            },
            ReadState::Opening { path, start_line, max_lines } => match event {
                FsEvent::Opened(Err(source)) => step == Step::<
                    ReadState,
                    FileChunkResult,
                >::Finished(Err(FsError::OpenFile { path, source })),
                FsEvent::Opened(Ok(_)) => step matches Step::Perform(
                    ReadState::Streaming {
                        path: p,
                        start_line: s,
                        max_lines: m,
                        current,
                        collected,
                        content,
                    },
                    _,
                ) && p == path && s == start_line && m == max_lines && current == 0 && collected
                    == 0 && content@ == Seq::<char>::empty(),
                _ => step matches Step::Perform(s, _) && s == self,
            },
            ReadState::Streaming { path, start_line, max_lines, current, collected, content } => {
                let plan = ReadPlan::Lines { start_line, max_lines };
                match event {
                    FsEvent::Line(None) => step matches Step::Finished(Ok(result)) && replies(
                        fs,
                        result,
                        path,
                        plan,
                        content@,
                        false,
                    ),
                    FsEvent::Line(Some(Err(source))) => step == Step::<
                        ReadState,
                        FileChunkResult,
                    >::Finished(Err(FsError::ReadLine { path, source })),
                    FsEvent::Line(Some(Ok(line))) => if current + 1 < start_line {
                        step matches Step::Perform(s, _) && s == (ReadState::Streaming {
                            path,
                            start_line,
                            max_lines,
                            current: (current + 1) as u64,
                            collected,
                            content,
                        })
                    } else if collected >= max_lines {
                        step matches Step::Finished(Ok(result)) && replies(
                            fs,
                            result,
                            path,
                            plan,
                            content@,
                            true,
                        )
                    } else if collected + 1 >= max_lines {
                        step matches Step::Finished(Ok(result)) && replies(
                            fs,
                            result,
                            path,
                            plan,
                            content@ + terminated(line@),
                            true,
                        )
                    } else {
                        step matches Step::Perform(
                            ReadState::Streaming {
                                path: p,
                                start_line: s,
                                max_lines: m,
                                current: c,
                                collected: n,
                                content: text,
                            },
                            _,
                        ) && p == path && s == start_line && m == max_lines && c == current && n
                            == collected + 1 && text@ == content@ + terminated(line@)
                    },
                    _ => step matches Step::Perform(s, _) && s == self,
                }
            },
        }
    }

    /// Takes the event for the action that was asked for.
    pub fn resume(self, fs: &LocalGitAwareFs, event: FsEvent<'_>) -> (step: Step<
        ReadState,
        FileChunkResult,
    >)
        ensures
            self.follows(fs, event, step),
            step matches Step::Perform(s, a) ==> a@ == s.awaits(),
            !answers(self.awaits(), event) ==> (step matches Step::Perform(s, _) && s == self),
    {
        match self {
            ReadState::Checking { plan, guard } => match guard.resume(fs, event) {
                GuardStep::Failed(e) => Step::Finished(Err(e)),
                GuardStep::Ask(next) => ask(ReadState::Checking { plan, guard: next }),
                GuardStep::Passed(cleared) => match plan {
                    ReadPlan::Bytes { offset, max_bytes } => ask(
                        ReadState::Reading { path: cleared.canonical, offset, max_bytes },
                    ),
                    ReadPlan::Lines { start_line, max_lines } => ask(
                        ReadState::Opening { path: cleared.canonical, start_line, max_lines },
                    ),
                },
            },
            ReadState::Reading { path, offset, max_bytes } => match event {
                FsEvent::Bytes(Err(failure)) => {
                    let ReadFailure { stage, source } = failure;
                    Step::Finished(
                        Err(
                            match stage {
                                ReadStage::Open => FsError::OpenFile { path, source },
                                ReadStage::Seek => FsError::SeekFile { path, source },
                                ReadStage::Read => FsError::ReadFile { path, source },
                            },
                        ),
                    )
                },
                FsEvent::Bytes(Ok(bytes)) => match decode_strict(bytes) {
                    Some(content) => ask(ReadState::Sizing { path, offset, max_bytes, content }),
                    None => Step::Finished(Err(FsError::FileNotUtf8 { path })),
                },
                _ => ask(ReadState::Reading { path, offset, max_bytes }),
            },
            ReadState::Sizing { path, offset, max_bytes, content } => match event {
                FsEvent::Meta(Err(source)) => Step::Finished(
                    Err(FsError::FileMetadata { path, source }),
                ),
                FsEvent::Meta(Ok(meta)) => {
                    let is_truncated = max_bytes < meta.len && offset < meta.len - max_bytes;
                    Step::Finished(
                        Ok(
                            FileChunkResult {
                                path: fs.show(&path),
                                content,
                                is_truncated,
                                range: FileRangeInfo {
                                    range_type: RangeType::Bytes,
                                    offset_bytes: Some(offset),
                                    max_bytes: Some(max_bytes),
                                    start_line: None,
                                    max_lines: None,
                                },
                            },
                        ),
                    )
                },
                _ => ask(ReadState::Sizing { path, offset, max_bytes, content }),
            },
            ReadState::Opening { path, start_line, max_lines } => match event {
                FsEvent::Opened(Err(source)) => Step::Finished(
                    Err(FsError::OpenFile { path, source }),
                ),
                FsEvent::Opened(Ok(_)) => ask(
                    ReadState::Streaming {
                        path,
                        start_line,
                        max_lines,
                        current: 0,
                        collected: 0,
                        content: String::new(),
                    },
                ),
                _ => ask(ReadState::Opening { path, start_line, max_lines }),
            },
            ReadState::Streaming { path, start_line, max_lines, current, collected, content } => {
                match event {
                    FsEvent::Line(None) => Step::Finished(
                        Ok(lines_reply(fs, &path, start_line, max_lines, content, false)),
                    ),
                    FsEvent::Line(Some(Err(source))) => Step::Finished(
                        Err(FsError::ReadLine { path, source }),
                    ),
                    FsEvent::Line(Some(Ok(line))) => {
                        if current < start_line && current + 1 < start_line {
                            return ask(
                                ReadState::Streaming {
                                    path,
                                    start_line,
                                    max_lines,
                                    current: current + 1,
                                    collected,
                                    content,
                                },
                            );
                        }
                        if collected >= max_lines {
                            return Step::Finished(
                                Ok(lines_reply(fs, &path, start_line, max_lines, content, true)),
                            );
                        }
                        let mut content = content;
                        let ghost before = content@;
                        content.append(line.as_str());
                        content.append("\n");
                        proof {
                            reveal_strlit("\n");
                            assert(content@ =~= before + terminated(line@));
                        }
                        if collected + 1 >= max_lines {
                            Step::Finished(
                                Ok(lines_reply(fs, &path, start_line, max_lines, content, true)),
                            )
                        } else {
                            ask(
                                ReadState::Streaming {
                                    path,
                                    start_line,
                                    max_lines,
                                    current,
                                    collected: collected + 1,
                                    content,
                                },
                            )
                        }
                    },
                    _ => ask(
                        ReadState::Streaming {
                            path,
                            start_line,
                            max_lines,
                            current,
                            collected,
                            content,
                        },
                    ),
                }
            },
        }
    }
}

fn ask(state: ReadState) -> (step: Step<ReadState, FileChunkResult>)
    ensures
        step matches Step::Perform(s, a) && s == state && a@ == state.awaits(),
{
    let action = state.request();
    Step::Perform(state, action)
}

fn lines_reply(
    fs: &LocalGitAwareFs,
    path: &FsPath,
    start_line: u64,
    max_lines: u64,
    content: String,
    is_truncated: bool,
) -> (result: FileChunkResult)
    ensures
        replies(
            fs,
            result,
            *path,
            ReadPlan::Lines { start_line, max_lines },
            content@,
            is_truncated,
        ),
{
    FileChunkResult {
        path: fs.show(path),
        content,
        is_truncated,
        range: FileRangeInfo {
            range_type: RangeType::Lines,
            offset_bytes: None,
            max_bytes: None,
            start_line: Some(start_line),
            max_lines: Some(max_lines),
        },
    }
}

impl LocalGitAwareFs {
    /// Begins a read. A request that mixes bytes and lines, or counts lines
    /// from 0, fails here, before anything is asked of the file system.
    pub fn read_file(&self, args: ReadFileArgs) -> (step: Step<ReadState, FileChunkResult>)
        ensures
            match read_plan(args) {
                Err(e) => step == Step::<ReadState, FileChunkResult>::Finished(Err(e)),
                Ok(plan) => step matches Step::Perform(ReadState::Checking { plan: p, guard }, a)
                    && p == plan && a@ == guard.awaits() && (guard matches Guard::Resolving {
                    path,
                    rule,
                } && path@ == self.located(args.path@) && rule == rule_for(
                    is_absolute(encode_utf8(args.path@)),
                    Access::Read,
                )),
            },
    {
        match plan_read(&args) {
            Err(e) => Step::Finished(Err(e)),
            Ok(plan) => {
                let given = FsPath::from_str(args.path.as_str());
                let rule = choose_rule(given.is_absolute(), Access::Read);
                let guard = Guard::begin(self.locate(args.path.as_str()), rule);
                ask(ReadState::Checking { plan, guard })
            },
        }
    }
}

} // verus!
