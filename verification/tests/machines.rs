use gitaware_fs::backend::LocalGitAwareFs;
use gitaware_fs::error::{FsError, IoFailure, IoKind};
use gitaware_fs::io::{
    EntryKind, FileMeta, FsAction, FsEvent, ReadFailure, ReadStage, Step, WalkEntry, WriteFailure,
    WriteStage,
};
use gitaware_fs::path::FsPath;
use gitaware_fs::transfer::Transferred;
use gitaware_fs::types::{
    CopyPathArgs, CreateFileArgs, DeletePathArgs, FindFilesArgs, FindMatchMode, ListFilesArgs,
    MovePathArgs, OverwriteFileArgs, ReadFileArgs, SearchTextArgs,
};

fn p(text: &str) -> FsPath {
    FsPath::from_str(text)
}

fn denied() -> IoFailure {
    IoFailure { kind: IoKind::PermissionDenied, message: String::from("permission denied") }
}

fn gone() -> IoFailure {
    IoFailure { kind: IoKind::NotFound, message: String::from("not found") }
}

fn file(len: u64) -> FileMeta {
    FileMeta { is_file: true, is_dir: false, len, modified: Some(7) }
}

fn dir() -> FileMeta {
    FileMeta { is_file: false, is_dir: true, len: 0, modified: None }
}

fn engine() -> LocalGitAwareFs {
    match LocalGitAwareFs::new(FsPath::from_str("/repo")) {
        Step::Perform(state, _) => match state.resume(FsEvent::Resolved(Ok(p("/repo")))) {
            Step::Perform(state, _) => match state.resume(FsEvent::Meta(Ok(dir()))) {
                Step::Finished(Ok(fs)) => fs,
                _ => panic!("the root is a directory"),
            },
            Step::Finished(_) => panic!("the root is looked up"),
        },
        Step::Finished(_) => panic!("the root is resolved"),
    }
}

/// Feeds the events in turn and returns the actions that were asked for and
/// how the operation ended.
fn script<S, T>(
    first: Step<S, T>,
    events: Vec<FsEvent<'static>>,
    resume: impl Fn(S, FsEvent<'_>) -> Step<S, T>,
) -> (Vec<FsAction>, Option<Result<T, FsError>>) {
    let mut asked: Vec<FsAction> = Vec::new();
    let mut step = first;
    let mut events = events.into_iter();
    loop {
        match step {
            Step::Perform(state, action) => {
                asked.push(action);
                match events.next() {
                    Some(event) => step = resume(state, event),
                    None => return (asked, None),
                }
            }
            Step::Finished(result) => return (asked, Some(result)),
        }
    }
}

fn read_args(path: &str) -> ReadFileArgs {
    ReadFileArgs {
        path: String::from(path),
        range_type: None,
        offset_bytes: None,
        max_bytes: None,
        start_line: None,
        max_lines: None,
    }
}

#[test]
fn read_by_bytes_asks_in_order() {
    let fs = engine();
    let mut args = read_args("a.txt");
    args.offset_bytes = Some(3);
    args.max_bytes = Some(4);
    let (asked, end) = script(
        fs.read_file(args),
        vec![
            FsEvent::Resolved(Ok(p("/repo/a.txt"))),
            FsEvent::Bytes(Ok(b"defg".to_vec())),
            FsEvent::Meta(Ok(file(7))),
        ],
        |s, e| s.resume(&fs, e),
    );
    assert_eq!(
        asked,
        vec![
            FsAction::Canonicalize { path: p("/repo/a.txt") },
            FsAction::ReadBytes { path: p("/repo/a.txt"), offset: 3, max_bytes: 4 },
            FsAction::Metadata { path: p("/repo/a.txt") },
        ]
    );
    let chunk = end.unwrap().unwrap();
    assert_eq!(chunk.content, "defg");
    assert!(!chunk.is_truncated);
    assert_eq!(chunk.path, "a.txt");
}

#[test]
fn read_by_bytes_names_the_stage_that_failed() {
    let fs = engine();
    let fails = |stage: ReadStage| {
        script(
            fs.read_file(read_args("a.txt")),
            vec![
                FsEvent::Resolved(Ok(p("/repo/a.txt"))),
                FsEvent::Bytes(Err(ReadFailure { stage, source: denied() })),
            ],
            |s, e| s.resume(&fs, e),
        )
        .1
        .unwrap()
        .unwrap_err()
    };
    assert_eq!(fails(ReadStage::Open), FsError::OpenFile { path: p("/repo/a.txt"), source: denied() });
    assert_eq!(fails(ReadStage::Seek), FsError::SeekFile { path: p("/repo/a.txt"), source: denied() });
    assert_eq!(fails(ReadStage::Read), FsError::ReadFile { path: p("/repo/a.txt"), source: denied() });
}

#[test]
fn read_by_bytes_fails_when_the_size_cannot_be_had() {
    let fs = engine();
    let (_, end) = script(
        fs.read_file(read_args("a.txt")),
        vec![
            FsEvent::Resolved(Ok(p("/repo/a.txt"))),
            FsEvent::Bytes(Ok(b"abc".to_vec())),
            FsEvent::Meta(Err(denied())),
        ],
        |s, e| s.resume(&fs, e),
    );
    assert_eq!(
        end.unwrap().unwrap_err(),
        FsError::FileMetadata { path: p("/repo/a.txt"), source: denied() }
    );
}

#[test]
fn read_by_lines_fails_on_a_line_that_cannot_be_read() {
    let fs = engine();
    let mut args = read_args("a.txt");
    args.start_line = Some(1);
    let (asked, end) = script(
        fs.read_file(args),
        vec![
            FsEvent::Resolved(Ok(p("/repo/a.txt"))),
            FsEvent::Opened(Ok(())),
            FsEvent::Line(Some(Ok(String::from("first")))),
            FsEvent::Line(Some(Err(denied()))),
        ],
        |s, e| s.resume(&fs, e),
    );
    assert_eq!(asked[1], FsAction::OpenLines { path: p("/repo/a.txt") });
    assert_eq!(asked[2], FsAction::NextLine);
    assert_eq!(end.unwrap().unwrap_err(), FsError::ReadLine { path: p("/repo/a.txt"), source: denied() });
    let mut args = read_args("a.txt");
    args.max_lines = Some(1);
    let (_, end) = script(
        fs.read_file(args),
        vec![FsEvent::Resolved(Ok(p("/repo/a.txt"))), FsEvent::Opened(Err(denied()))],
        |s, e| s.resume(&fs, e),
    );
    assert_eq!(end.unwrap().unwrap_err(), FsError::OpenFile { path: p("/repo/a.txt"), source: denied() });
}

#[test]
fn read_by_lines_gives_every_line_one_newline() {
    let fs = engine();
    let mut args = read_args("a.txt");
    args.start_line = Some(2);
    args.max_lines = Some(2);
    let (asked, end) = script(
        fs.read_file(args),
        vec![
            FsEvent::Resolved(Ok(p("/repo/a.txt"))),
            FsEvent::Opened(Ok(())),
            FsEvent::Line(Some(Ok(String::from("one")))),
            FsEvent::Line(Some(Ok(String::from("")))),
            FsEvent::Line(Some(Ok(String::from("three")))),
        ],
        |s, e| s.resume(&fs, e),
    );
    assert_eq!(asked.len(), 5);
    let chunk = end.unwrap().unwrap();
    assert_eq!(chunk.content, "\nthree\n");
    assert!(chunk.is_truncated);
}

#[test]
fn list_and_find_need_a_start_that_is_there() {
    let fs = engine();
    let list = ListFilesArgs {
        root: Some(String::from("sub")),
        recursive: None,
        include_globs: None,
        exclude_globs: None,
        max_results: None,
        include_dirs: None,
        include_metadata: None,
        skip: None,
    };
    let (asked, end) = script(
        fs.list_files(list),
        vec![FsEvent::Resolved(Ok(p("/repo/sub"))), FsEvent::Meta(Err(gone()))],
        |s, e| s.resume(&fs, e),
    );
    assert_eq!(
        asked,
        vec![
            FsAction::Canonicalize { path: p("/repo/sub") },
            FsAction::Metadata { path: p("/repo/sub") }
        ]
    );
    assert_eq!(end.unwrap().unwrap_err(), FsError::ListRootNotExist { path: p("/repo/sub") });
    let find = FindFilesArgs {
        query: String::from("x"),
        root: Some(String::from("sub")),
        recursive: None,
        include_globs: None,
        exclude_globs: None,
        match_mode: Some(FindMatchMode::Name),
        case_sensitive: None,
        include_dirs: None,
        max_results: None,
        skip: None,
    };
    let (_, end) = script(
        fs.find_files(find),
        vec![FsEvent::Resolved(Ok(p("/repo/sub"))), FsEvent::Meta(Err(gone()))],
        |s, e| s.resume(&fs, e),
    );
    assert_eq!(end.unwrap().unwrap_err(), FsError::FindRootNotExist { path: p("/repo/sub") });
}

#[test]
fn find_by_name_passes_over_names_that_are_no_text() {
    let fs = engine();
    let find = FindFilesArgs {
        query: String::from("a"),
        root: None,
        recursive: None,
        include_globs: None,
        exclude_globs: None,
        match_mode: None,
        case_sensitive: None,
        include_dirs: None,
        max_results: None,
        skip: None,
    };
    let odd = FsPath::new(b"/repo/a\xff".to_vec());
    let (asked, end) = script(
        fs.find_files(find),
        vec![
            FsEvent::Resolved(Ok(p("/repo"))),
            FsEvent::Meta(Ok(dir())),
            FsEvent::Entry(Some(Ok(WalkEntry { path: p("/repo"), kind: EntryKind::Dir }))),
            FsEvent::Entry(Some(Ok(WalkEntry { path: odd, kind: EntryKind::File }))),
            FsEvent::Entry(Some(Ok(WalkEntry { path: p("/repo/b/a"), kind: EntryKind::Other }))),
            FsEvent::Entry(None),
        ],
        |s, e| s.resume(&fs, e),
    );
    assert_eq!(asked[2], FsAction::Walk { root: p("/repo"), max_depth: None, parallel: true });
    assert_eq!(asked[3], FsAction::NextEntry);
    let result = end.unwrap().unwrap();
    assert_eq!(result.matches.len(), 1);
    assert_eq!(result.matches[0].path, "b/a");
    assert!(!result.matches[0].is_dir);
}

#[test]
fn find_passes_over_a_path_that_comes_twice() {
    let fs = engine();
    let find = FindFilesArgs {
        query: String::from("a"),
        root: None,
        recursive: None,
        include_globs: None,
        exclude_globs: None,
        match_mode: None,
        case_sensitive: None,
        include_dirs: None,
        max_results: Some(2),
        skip: None,
    };
    let (_, end) = script(
        fs.find_files(find),
        vec![
            FsEvent::Resolved(Ok(p("/repo"))),
            FsEvent::Meta(Ok(dir())),
            FsEvent::Entry(Some(Ok(WalkEntry { path: p("/repo/b/a"), kind: EntryKind::File }))),
            FsEvent::Entry(Some(Ok(WalkEntry { path: p("/repo/a"), kind: EntryKind::File }))),
            FsEvent::Entry(Some(Ok(WalkEntry { path: p("/repo/b/a"), kind: EntryKind::Dir }))),
            FsEvent::Entry(Some(Ok(WalkEntry { path: p("/repo//a"), kind: EntryKind::File }))),
            FsEvent::Entry(None),
        ],
        |s, e| s.resume(&fs, e),
    );
    let result = end.unwrap().unwrap();
    let found: Vec<(&str, bool)> =
        result.matches.iter().map(|m| (m.path.as_str(), m.is_dir)).collect();
    assert_eq!(found, vec![("a", false), ("b/a", false)]);
    assert!(!result.has_more);
    assert!(result.matches.windows(2).all(|w| w[0].path.as_bytes() < w[1].path.as_bytes()));
}

#[test]
fn search_maps_only_regular_files() {
    let fs = engine();
    let args = SearchTextArgs {
        query: String::from("x"),
        mode: None,
        case_sensitive: None,
        root: None,
        include_globs: None,
        exclude_globs: None,
        max_results: Some(1),
        context_lines: None,
        skip: None,
    };
    let content: &'static [u8] = b"x\nyx\n";
    let (asked, end) = script(
        fs.search_text(args),
        vec![
            FsEvent::Resolved(Ok(p("/repo"))),
            FsEvent::Entry(Some(Ok(WalkEntry { path: p("/repo/d"), kind: EntryKind::Dir }))),
            FsEvent::Entry(Some(Ok(WalkEntry { path: p("/repo/l"), kind: EntryKind::Other }))),
            FsEvent::Entry(Some(Ok(WalkEntry { path: p("/repo/f"), kind: EntryKind::File }))),
            FsEvent::Mapped(Ok(content)),
        ],
        |s, e| s.resume(&fs, e),
    );
    assert_eq!(
        asked,
        vec![
            FsAction::Canonicalize { path: p("/repo/.") },
            FsAction::Walk { root: p("/repo"), max_depth: None, parallel: true },
            FsAction::NextEntry,
            FsAction::NextEntry,
            FsAction::MapFile { path: p("/repo/f") },
        ]
    );
    let result = end.unwrap().unwrap();
    assert_eq!(result.hits.len(), 1);
    assert_eq!((result.hits[0].line, result.hits[0].column), (1, 0));
    assert_eq!(result.hits[0].context_after, vec!["yx"]);
    assert!(result.has_more);
}

fn create(path: &str) -> CreateFileArgs {
    CreateFileArgs {
        path: String::from(path),
        content: Some(String::from("text")),
        overwrite: None,
        create_parents: Some(true),
    }
}

#[test]
fn create_file_asks_in_order() {
    let fs = engine();
    let (asked, end) = script(
        fs.create_file(create("d/new.txt")),
        vec![
            FsEvent::Done(Ok(())),
            FsEvent::Resolved(Ok(p("/repo/d"))),
            FsEvent::Meta(Err(gone())),
            FsEvent::Written(Ok(())),
            FsEvent::Resolved(Ok(p("/repo/d/new.txt"))),
        ],
        |s, e| s.resume(&fs, e),
    );
    assert_eq!(
        asked,
        vec![
            FsAction::CreateDirAll { path: p("/repo/d") },
            FsAction::Canonicalize { path: p("/repo/d") },
            FsAction::Metadata { path: p("/repo/d/new.txt") },
            FsAction::Write { path: p("/repo/d/new.txt"), content: String::from("text"), create: true },
            FsAction::Canonicalize { path: p("/repo/d/new.txt") },
        ]
    );
    let done = end.unwrap().unwrap();
    assert!(done.created && !done.overwritten);
    assert_eq!(done.path, "d/new.txt");
}

#[test]
fn create_file_names_what_failed() {
    let fs = engine();
    let (_, end) =
        script(fs.create_file(create("d/new.txt")), vec![FsEvent::Done(Err(denied()))], |s, e| {
            s.resume(&fs, e)
        });
    assert_eq!(end.unwrap().unwrap_err(), FsError::CreateParents { path: p("/repo/d"), source: denied() });
    let ends = |stage: WriteStage| {
        script(
            fs.create_file(create("d/new.txt")),
            vec![
                FsEvent::Done(Ok(())),
                FsEvent::Resolved(Ok(p("/repo/d"))),
                FsEvent::Meta(Err(gone())),
                FsEvent::Written(Err(WriteFailure { stage, source: denied() })),
            ],
            |s, e| s.resume(&fs, e),
        )
        .1
        .unwrap()
        .unwrap_err()
    };
    assert_eq!(ends(WriteStage::Open), FsError::OpenFile { path: p("/repo/d/new.txt"), source: denied() });
    assert_eq!(ends(WriteStage::Write), FsError::WriteFile { path: p("/repo/d/new.txt"), source: denied() });
}

#[test]
fn create_file_shows_the_located_path_when_the_file_does_not_resolve() {
    let fs = engine();
    let (_, end) = script(
        fs.create_file(create("d/new.txt")),
        vec![
            FsEvent::Done(Ok(())),
            FsEvent::Resolved(Ok(p("/repo/d"))),
            FsEvent::Meta(Ok(file(1))),
        ],
        |s, e| s.resume(&fs, e),
    );
    assert_eq!(end.unwrap().unwrap_err(), FsError::DestinationExists { path: p("/repo/d/new.txt") });
    let mut args = create("d/new.txt");
    args.overwrite = Some(true);
    let (_, end) = script(
        fs.create_file(args),
        vec![
            FsEvent::Done(Ok(())),
            FsEvent::Resolved(Ok(p("/repo/d"))),
            FsEvent::Meta(Ok(file(1))),
            FsEvent::Written(Ok(())),
            FsEvent::Resolved(Err(denied())),
        ],
        |s, e| s.resume(&fs, e),
    );
    let done = end.unwrap().unwrap();
    assert!(done.overwritten && !done.created);
    assert_eq!(done.path, "d/new.txt");
}

#[test]
fn delete_path_names_what_failed() {
    let fs = engine();
    let args = DeletePathArgs { path: String::from("f"), recursive: None, force: Some(true) };
    let (asked, end) = script(
        fs.delete_path(args),
        vec![
            FsEvent::Meta(Ok(file(3))),
            FsEvent::Resolved(Ok(p("/repo/f"))),
            FsEvent::Done(Err(denied())),
        ],
        |s, e| s.resume(&fs, e),
    );
    assert_eq!(
        asked,
        vec![
            FsAction::Metadata { path: p("/repo/f") },
            FsAction::Canonicalize { path: p("/repo/f") },
            FsAction::RemoveFile { path: p("/repo/f") },
        ]
    );
    assert_eq!(end.unwrap().unwrap_err(), FsError::DeletePath { path: p("/repo/f"), source: denied() });
    let args = DeletePathArgs { path: String::from("f"), recursive: None, force: Some(true) };
    let (_, end) = script(fs.delete_path(args), vec![FsEvent::Meta(Err(denied()))], |s, e| {
        s.resume(&fs, e)
    });
    assert_eq!(end.unwrap().unwrap_err(), FsError::FileMetadata { path: p("/repo/f"), source: denied() });
    let args = DeletePathArgs { path: String::from("d"), recursive: Some(true), force: None };
    let (asked, _) = script(
        fs.delete_path(args),
        vec![FsEvent::Meta(Ok(dir())), FsEvent::Resolved(Ok(p("/repo/d")))],
        |s, e| s.resume(&fs, e),
    );
    assert_eq!(asked[2], FsAction::RemoveDirAll { path: p("/repo/d") });
}

#[test]
fn move_path_asks_in_order_and_names_what_failed() {
    let fs = engine();
    let args = MovePathArgs {
        from: String::from("a"),
        to: String::from("d/b"),
        overwrite: Some(true),
        recursive: None,
        create_parents: None,
    };
    let (asked, end) = script(
        fs.move_path(args),
        vec![
            FsEvent::Meta(Ok(file(3))),
            FsEvent::Resolved(Ok(p("/repo/a"))),
            FsEvent::Exists(false),
            FsEvent::Exists(true),
            FsEvent::Done(Ok(())),
            FsEvent::Resolved(Ok(p("/repo/d"))),
            FsEvent::Exists(false),
            FsEvent::Exists(true),
            FsEvent::Meta(Ok(file(9))),
            FsEvent::Done(Err(denied())),
        ],
        |s, e| s.resume(&fs, e),
    );
    assert_eq!(
        asked,
        vec![
            FsAction::Metadata { path: p("/repo/a") },
            FsAction::Canonicalize { path: p("/repo/a") },
            FsAction::Exists { path: p("/repo/a/.git") },
            FsAction::Exists { path: p("/repo/.git") },
            FsAction::CreateDirAll { path: p("/repo/d") },
            FsAction::Canonicalize { path: p("/repo/d") },
            FsAction::Exists { path: p("/repo/d/.git") },
            FsAction::Exists { path: p("/repo/.git") },
            FsAction::Metadata { path: p("/repo/d/b") },
            FsAction::Rename { from: p("/repo/a"), to: p("/repo/d/b") },
        ]
    );
    assert_eq!(
        end.unwrap().unwrap_err(),
        FsError::MovePath { from: p("/repo/a"), to: p("/repo/d/b"), source: denied() }
    );
}

#[test]
fn move_path_refuses_what_is_no_regular_file() {
    let fs = engine();
    let args = MovePathArgs {
        from: String::from("d"),
        to: String::from("e"),
        overwrite: None,
        recursive: Some(true),
        create_parents: None,
    };
    let (_, end) = script(fs.move_path(args), vec![FsEvent::Meta(Ok(dir()))], |s, e| s.resume(&fs, e));
    match end.unwrap().unwrap_err() {
        FsError::MovePath { from, to, source } => {
            assert_eq!((from, to), (p("/repo/d"), p("/repo/e")));
            assert_eq!(source.message, "move_path currently only supports regular files");
        }
        other => panic!("{:?}", other),
    }
}

#[test]
fn copy_path_names_what_failed() {
    let fs = engine();
    let args = CopyPathArgs {
        from: String::from("a"),
        to: String::from("b"),
        overwrite: None,
        recursive: None,
        create_parents: Some(false),
    };
    let (asked, end) = script(
        fs.copy_path(args),
        vec![
            FsEvent::Meta(Ok(file(3))),
            FsEvent::Resolved(Ok(p("/repo/a"))),
            FsEvent::Exists(false),
            FsEvent::Exists(true),
            FsEvent::Resolved(Ok(p("/repo"))),
            FsEvent::Exists(true),
            FsEvent::Meta(Err(gone())),
            FsEvent::Copied(Err(denied())),
        ],
        |s, e| s.resume(&fs, e),
    );
    assert_eq!(asked[4], FsAction::Canonicalize { path: p("/repo") });
    assert_eq!(asked[7], FsAction::Copy { from: p("/repo/a"), to: p("/repo/b") });
    assert_eq!(
        end.unwrap().unwrap_err(),
        FsError::CopyPath { from: p("/repo/a"), to: p("/repo/b"), source: denied() }
    );
    let args = CopyPathArgs {
        from: String::from("a"),
        to: String::from("d/b"),
        overwrite: None,
        recursive: None,
        create_parents: None,
    };
    let (_, end) = script(
        fs.copy_path(args),
        vec![
            FsEvent::Meta(Ok(file(3))),
            FsEvent::Resolved(Ok(p("/repo/a"))),
            FsEvent::Exists(true),
            FsEvent::Done(Err(denied())),
        ],
        |s, e| s.resume(&fs, e),
    );
    assert_eq!(end.unwrap().unwrap_err(), FsError::CreateParents { path: p("/repo/d"), source: denied() });
}

#[test]
fn copy_path_replies_as_a_copy() {
    let fs = engine();
    let args = CopyPathArgs {
        from: String::from("/repo/a"),
        to: String::from("/repo/b"),
        overwrite: Some(true),
        recursive: None,
        create_parents: Some(false),
    };
    let (_, end) = script(
        fs.copy_path(args),
        vec![
            FsEvent::Meta(Ok(file(3))),
            FsEvent::Resolved(Ok(p("/repo/a"))),
            FsEvent::Exists(false),
            FsEvent::Exists(true),
            FsEvent::Resolved(Ok(p("/repo"))),
            FsEvent::Exists(true),
            FsEvent::Meta(Ok(file(1))),
            FsEvent::Copied(Ok(3)),
        ],
        |s, e| s.resume(&fs, e),
    );
    match end.unwrap().unwrap() {
        Transferred::Copied(r) => {
            assert_eq!(r.bytes_copied, Some(3));
            assert!(r.overwritten);
            assert_eq!((r.from.as_str(), r.to.as_str()), ("a", "b"));
        }
        Transferred::Moved(_) => panic!("a copy was asked for"),
    }
}

#[test]
fn overwrite_file_asks_in_order() {
    let fs = engine();
    let args = OverwriteFileArgs { path: String::from("/else/f"), content: String::from("new") };
    let (asked, end) = script(
        fs.overwrite_file(args),
        vec![
            FsEvent::Meta(Ok(file(3))),
            FsEvent::Resolved(Ok(p("/else"))),
            FsEvent::Exists(true),
            FsEvent::Written(Ok(())),
            FsEvent::Resolved(Ok(p("/else/f"))),
        ],
        |s, e| s.resume(&fs, e),
    );
    assert_eq!(
        asked,
        vec![
            FsAction::Metadata { path: p("/else/f") },
            FsAction::Canonicalize { path: p("/else") },
            FsAction::Exists { path: p("/else/.git") },
            FsAction::Write { path: p("/else/f"), content: String::from("new"), create: false },
            FsAction::Canonicalize { path: p("/else/f") },
        ]
    );
    assert_eq!(end.unwrap().unwrap().path, "/else/f");
}

#[test]
fn a_huge_query_does_not_compile() {
    let fs = engine();
    let find = FindFilesArgs {
        query: "a".repeat(4_000_000),
        root: None,
        recursive: None,
        include_globs: None,
        exclude_globs: None,
        match_mode: None,
        case_sensitive: None,
        include_dirs: None,
        max_results: None,
        skip: None,
    };
    let (_, end) = script(
        fs.find_files(find),
        vec![FsEvent::Resolved(Ok(p("/repo"))), FsEvent::Meta(Ok(dir()))],
        |s, e| s.resume(&fs, e),
    );
    match end.unwrap().unwrap_err() {
        FsError::InvalidFindFilesRegex { query, .. } => assert_eq!(query.len(), 4_000_000),
        other => panic!("{:?}", other),
    }
}
