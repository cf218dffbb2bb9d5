use std::collections::{BTreeMap, BTreeSet, VecDeque};

use gitaware_fs::backend::LocalGitAwareFs;
use gitaware_fs::error::{FsError, IoFailure, IoKind};
use gitaware_fs::io::{
    EntryKind, FileMeta, FsAction, FsEvent, ReadFailure, ReadStage, Step, WalkEntry, WriteFailure,
    WriteStage,
};
use gitaware_fs::path::FsPath;
use gitaware_fs::types::{
    FindFilesArgs, FindFilesResult, FindMatchMode, ListFilesArgs, ListFilesResult, SearchMode,
    SearchTextArgs, SearchTextResult,
};

// A file system in memory, and a loop that runs an operation against it.

struct Fake {
    dirs: BTreeSet<String>,
    files: BTreeMap<String, Vec<u8>>,
    reversed: bool,
    entries: VecDeque<WalkEntry>,
    lines: VecDeque<String>,
    log: Vec<String>,
}

fn text(path: &FsPath) -> String {
    String::from_utf8_lossy(&path.bytes).into_owned()
}

fn normal(path: &str) -> String {
    let mut parts: Vec<&str> = Vec::new();
    for part in path.split('/') {
        if part.is_empty() || part == "." {
            continue;
        }
        if part == ".." {
            parts.pop();
        } else {
            parts.push(part);
        }
    }
    format!("/{}", parts.join("/"))
}

fn missing() -> IoFailure {
    IoFailure { kind: IoKind::NotFound, message: String::from("no such file or directory") }
}

impl Fake {
    fn new() -> Fake {
        let mut dirs = BTreeSet::new();
        dirs.insert(String::from("/"));
        Fake {
            dirs,
            files: BTreeMap::new(),
            reversed: false,
            entries: VecDeque::new(),
            lines: VecDeque::new(),
            log: Vec::new(),
        }
    }

    fn dir(&mut self, path: &str) {
        let mut at = String::new();
        for part in path.split('/').filter(|p| !p.is_empty()) {
            at.push('/');
            at.push_str(part);
            self.dirs.insert(at.clone());
        }
    }

    fn file(&mut self, path: &str, content: &[u8]) {
        let parent = match path.rfind('/') {
            Some(0) | None => String::from("/"),
            Some(at) => String::from(&path[..at]),
        };
        self.dir(&parent);
        self.files.insert(String::from(path), content.to_vec());
    }

    fn has(&self, path: &str) -> bool {
        self.dirs.contains(path) || self.files.contains_key(path)
    }

    fn meta(&self, path: &str) -> Result<FileMeta, IoFailure> {
        if let Some(content) = self.files.get(path) {
            Ok(FileMeta { is_file: true, is_dir: false, len: content.len() as u64, modified: Some(1_700_000_000) })
        } else if self.dirs.contains(path) {
            Ok(FileMeta { is_file: false, is_dir: true, len: 4096, modified: Some(1_700_000_000) })
        } else {
            Err(missing())
        }
    }

    fn walk(&mut self, root: &str, max_depth: Option<usize>) {
        let mut found: Vec<WalkEntry> = Vec::new();
        found.push(WalkEntry { path: FsPath::from_str(root), kind: EntryKind::Dir });
        let below = if root == "/" { String::from("/") } else { format!("{}/", root) };
        let depth_of = |p: &str| p[below.len()..].split('/').count();
        for d in self.dirs.iter() {
            if d.starts_with(&below) && max_depth.map_or(true, |m| depth_of(d) <= m) {
                found.push(WalkEntry { path: FsPath::from_str(d), kind: EntryKind::Dir });
            }
        }
        for f in self.files.keys() {
            if f.starts_with(&below) && max_depth.map_or(true, |m| depth_of(f) <= m) {
                found.push(WalkEntry { path: FsPath::from_str(f), kind: EntryKind::File });
            }
        }
        found.sort_by_key(|e| e.path.bytes.clone());
        if self.reversed {
            found.reverse();
        }
        self.entries = found.into();
    }

    fn perform(&mut self, action: FsAction) -> FsEvent<'_> {
        self.log.push(format!("{:?}", action));
        match action {
            FsAction::Canonicalize { path } => {
                let p = normal(&text(&path));
                if self.has(&p) {
                    FsEvent::Resolved(Ok(FsPath::from_str(&p)))
                } else {
                    FsEvent::Resolved(Err(missing()))
                }
            }
            FsAction::Metadata { path } => FsEvent::Meta(self.meta(&normal(&text(&path)))),
            FsAction::Exists { path } => FsEvent::Exists(self.has(&normal(&text(&path)))),
            FsAction::CreateDirAll { path } => {
                let p = normal(&text(&path));
                self.dir(&p);
                FsEvent::Done(Ok(()))
            }
            FsAction::Write { path, content, create } => {
                let p = normal(&text(&path));
                let parent = normal(&format!("{}/..", p));
                if !self.dirs.contains(&parent) || (!create && !self.files.contains_key(&p)) {
                    return FsEvent::Written(Err(WriteFailure { stage: WriteStage::Open, source: missing() }));
                }
                self.files.insert(p, content.into_bytes());
                FsEvent::Written(Ok(()))
            }
            FsAction::RemoveFile { path } => match self.files.remove(&normal(&text(&path))) {
                Some(_) => FsEvent::Done(Ok(())),
                None => FsEvent::Done(Err(missing())),
            },
            FsAction::RemoveDirAll { path } => {
                let p = normal(&text(&path));
                let below = format!("{}/", p);
                self.dirs.retain(|d| d != &p && !d.starts_with(&below));
                self.files.retain(|f, _| !f.starts_with(&below));
                FsEvent::Done(Ok(()))
            }
            FsAction::Copy { from, to } => match self.files.get(&normal(&text(&from))).cloned() {
                Some(content) => {
                    let n: u64 = content.len() as u64;
                    self.files.insert(normal(&text(&to)), content);
                    FsEvent::Copied(Ok(n))
                }
                None => FsEvent::Copied(Err(missing())),
            },
            FsAction::Rename { from, to } => match self.files.remove(&normal(&text(&from))) {
                Some(content) => {
                    self.files.insert(normal(&text(&to)), content);
                    FsEvent::Done(Ok(()))
                }
                None => FsEvent::Done(Err(missing())),
            },
            FsAction::ReadBytes { path, offset, max_bytes } => match self.files.get(&normal(&text(&path))) {
                Some(content) => {
                    let from: usize = (offset as usize).min(content.len());
                    let to: usize = from.saturating_add(max_bytes as usize).min(content.len());
                    FsEvent::Bytes(Ok(content[from..to].to_vec()))
                }
                None => FsEvent::Bytes(Err(ReadFailure { stage: ReadStage::Open, source: missing() })),
            },
            FsAction::OpenLines { path } => match self.files.get(&normal(&text(&path))) {
                Some(content) => {
                    let all = String::from_utf8_lossy(content).into_owned();
                    self.lines = all.lines().map(String::from).collect();
                    FsEvent::Opened(Ok(()))
                }
                None => FsEvent::Opened(Err(missing())),
            },
            FsAction::NextLine => FsEvent::Line(self.lines.pop_front().map(Ok)),
            FsAction::Walk { root, max_depth, .. } => {
                self.walk(&normal(&text(&root)), max_depth);
                FsEvent::Entry(self.entries.pop_front().map(Ok))
            }
            FsAction::NextEntry => FsEvent::Entry(self.entries.pop_front().map(Ok)),
            FsAction::MapFile { path } => match self.files.get(&normal(&text(&path))) {
                Some(content) => FsEvent::Mapped(Ok(content.as_slice())),
                None => FsEvent::Mapped(Err(missing())),
            },
        }
    }
}

fn drive<S, T>(
    fake: &mut Fake,
    first: Step<S, T>,
    resume: impl Fn(S, FsEvent<'_>) -> Step<S, T>,
) -> Result<T, FsError> {
    let mut step = first;
    loop {
        match step {
            Step::Perform(state, action) => {
                let event = fake.perform(action);
                step = resume(state, event);
            }
            Step::Finished(result) => return result,
        }
    }
}

fn engine(fake: &mut Fake, root: &str) -> LocalGitAwareFs {
    drive(fake, LocalGitAwareFs::new(FsPath::from_str(root)), |s, e| s.resume(e)).unwrap()
}

fn tree() -> (Fake, LocalGitAwareFs) {
    let mut fake = Fake::new();
    fake.dir("/work/a/.git");
    fake.file("/work/a/README.md", b"read me\n");
    fake.file("/work/a/src/main.rs", b"fn main() {\n    foo();\n}\n");
    fake.file("/work/a/src/lib.rs", b"pub fn foo() {}\npub fn FOO() {}\nlet x = foo + FOO;\n");
    fake.file("/work/a/src/util/text.rs", b"// nothing\n");
    fake.file("/work/a/docs/guide.md", b"a guide to Foo\n");
    fake.file("/outside/notes.md", b"foo\n");
    let fs = engine(&mut fake, "/work/a");
    (fake, fs)
}

fn list_args() -> ListFilesArgs {
    ListFilesArgs {
        root: None,
        recursive: None,
        include_globs: None,
        exclude_globs: Some(vec![String::from(".git"), String::from(".git/**")]),
        max_results: None,
        include_dirs: None,
        include_metadata: None,
        skip: None,
    }
}

fn list(fake: &mut Fake, fs: &LocalGitAwareFs, args: ListFilesArgs) -> Result<ListFilesResult, FsError> {
    drive(fake, fs.list_files(args), |s, e| s.resume(fs, e))
}

fn paths_of(listed: &ListFilesResult) -> Vec<&str> {
    listed.entries.iter().map(|e| e.path.as_str()).collect()
}

#[test]
fn list_files_lists_files_below_the_root() {
    let (mut fake, fs) = tree();
    let listed = list(&mut fake, &fs, list_args()).unwrap();
    assert_eq!(
        paths_of(&listed),
        vec!["README.md", "docs/guide.md", "src/lib.rs", "src/main.rs", "src/util/text.rs"]
    );
    assert!(!listed.has_more);
    assert!(listed.entries.iter().all(|e| !e.is_dir && e.size.is_none() && e.modified.is_none()));
}

#[test]
fn list_files_takes_a_page() {
    let (mut fake, fs) = tree();
    let mut args = list_args();
    args.skip = Some(1);
    args.max_results = Some(2);
    let listed = list(&mut fake, &fs, args).unwrap();
    assert_eq!(paths_of(&listed), vec!["docs/guide.md", "src/lib.rs"]);
    assert!(listed.has_more);
}

#[test]
fn list_files_page_behind_the_end_is_empty() {
    let (mut fake, fs) = tree();
    let mut args = list_args();
    args.skip = Some(5);
    args.max_results = Some(2);
    let listed = list(&mut fake, &fs, args).unwrap();
    assert!(listed.entries.is_empty());
    assert!(!listed.has_more);
}

#[test]
fn list_files_last_page_that_is_not_full_has_no_more() {
    let (mut fake, fs) = tree();
    let mut args = list_args();
    args.skip = Some(3);
    args.max_results = Some(3);
    let listed = list(&mut fake, &fs, args).unwrap();
    assert_eq!(paths_of(&listed), vec!["src/main.rs", "src/util/text.rs"]);
    assert!(!listed.has_more);
}

#[test]
fn list_files_with_no_room_does_not_walk() {
    let (mut fake, fs) = tree();
    fake.log.clear();
    let mut args = list_args();
    args.max_results = Some(0);
    let listed = list(&mut fake, &fs, args).unwrap();
    assert!(listed.entries.is_empty());
    assert!(!listed.has_more);
    assert!(fake.log.iter().all(|a| !a.starts_with("Walk")));
}

#[test]
fn list_files_one_level_deep() {
    let (mut fake, fs) = tree();
    let mut args = list_args();
    args.recursive = Some(false);
    args.include_dirs = Some(true);
    let listed = list(&mut fake, &fs, args).unwrap();
    assert_eq!(paths_of(&listed), vec!["README.md", "docs", "src"]);
    assert_eq!(listed.entries.iter().map(|e| e.is_dir).collect::<Vec<bool>>(), vec![false, true, true]);
    assert!(fake.log.iter().any(|a| a.starts_with("Walk") && a.contains("max_depth: Some(1)")));
}

#[test]
fn list_files_fetches_metadata_only_for_the_page() {
    let (mut fake, fs) = tree();
    fake.log.clear();
    let mut args = list_args();
    args.include_metadata = Some(true);
    args.skip = Some(2);
    args.max_results = Some(1);
    let listed = list(&mut fake, &fs, args).unwrap();
    assert_eq!(paths_of(&listed), vec!["src/lib.rs"]);
    assert_eq!(listed.entries[0].size, Some(51));
    assert_eq!(listed.entries[0].modified, Some(1_700_000_000));
    let looked_up: usize = fake.log.iter().filter(|a| a.starts_with("Metadata")).count();
    assert_eq!(looked_up, 2);
}

#[test]
fn list_files_filters_by_globs() {
    let (mut fake, fs) = tree();
    let mut args = list_args();
    args.include_globs = Some(vec![String::from("*.rs")]);
    args.exclude_globs = Some(vec![String::from("src/util/**")]);
    let listed = list(&mut fake, &fs, args).unwrap();
    assert_eq!(paths_of(&listed), vec!["src/lib.rs", "src/main.rs"]);
}

#[test]
fn list_files_below_a_subdirectory_is_relative_to_it() {
    let (mut fake, fs) = tree();
    let mut args = list_args();
    args.root = Some(String::from("src"));
    let listed = list(&mut fake, &fs, args).unwrap();
    assert_eq!(paths_of(&listed), vec!["lib.rs", "main.rs", "util/text.rs"]);
}

#[test]
fn list_files_rejects_a_bad_glob_before_walking() {
    let (mut fake, fs) = tree();
    fake.log.clear();
    let mut args = list_args();
    args.include_globs = Some(vec![String::from("*.rs"), String::from("a[")]);
    match list(&mut fake, &fs, args).unwrap_err() {
        FsError::InvalidGlobPattern { pattern, .. } => assert_eq!(pattern, "a["),
        other => panic!("{:?}", other),
    }
    assert!(fake.log.iter().all(|a| !a.starts_with("Walk")));
}

#[test]
fn list_files_checks_the_start() {
    let (mut fake, fs) = tree();
    let mut args = list_args();
    args.root = Some(String::from("../../outside"));
    assert_eq!(
        list(&mut fake, &fs, args).unwrap_err(),
        FsError::PathEscapesRepo { path: FsPath::from_str("/outside") }
    );
    let mut args = list_args();
    args.root = Some(String::from("README.md"));
    assert_eq!(
        list(&mut fake, &fs, args).unwrap_err(),
        FsError::ListRootNotDirectory { path: FsPath::from_str("/work/a/README.md") }
    );
    let mut args = list_args();
    args.root = Some(String::from("/outside"));
    assert_eq!(
        list(&mut fake, &fs, args).unwrap_err(),
        FsError::ListRootNotInGit { path: FsPath::from_str("/outside") }
    );
    let mut args = list_args();
    args.root = Some(String::from("nope"));
    assert!(matches!(list(&mut fake, &fs, args).unwrap_err(), FsError::CanonicalizePath { .. }));
    let mut args = list_args();
    args.root = Some(String::from("/work/a/src"));
    assert_eq!(paths_of(&list(&mut fake, &fs, args).unwrap()), vec!["lib.rs", "main.rs", "util/text.rs"]);
}

#[test]
fn list_files_passes_over_entries_that_could_not_be_read() {
    let (_, fs) = tree();
    let mut fake = Fake::new();
    fake.dir("/work/a");
    let mut step = fs.list_files(list_args());
    let mut fed: u32 = 0;
    let listed = loop {
        match step {
            Step::Perform(state, action) => {
                let event = match action {
                    FsAction::Walk { .. } => FsEvent::Entry(Some(Err(String::from("denied")))),
                    FsAction::NextEntry if fed == 0 => {
                        fed += 1;
                        FsEvent::Entry(Some(Ok(WalkEntry {
                            path: FsPath::from_str("/work/a/x.txt"),
                            kind: EntryKind::File,
                        })))
                    }
                    FsAction::NextEntry => FsEvent::Entry(None),
                    other => fake.perform(other),
                };
                step = state.resume(&fs, event);
            }
            Step::Finished(result) => break result.unwrap(),
        }
    };
    assert_eq!(paths_of(&listed), vec!["x.txt"]);
}

fn find_args(query: &str) -> FindFilesArgs {
    FindFilesArgs {
        query: String::from(query),
        root: None,
        recursive: None,
        include_globs: None,
        exclude_globs: Some(vec![String::from(".git"), String::from(".git/**")]),
        match_mode: None,
        case_sensitive: None,
        include_dirs: None,
        max_results: None,
        skip: None,
    }
}

fn find(fake: &mut Fake, fs: &LocalGitAwareFs, args: FindFilesArgs) -> Result<FindFilesResult, FsError> {
    drive(fake, fs.find_files(args), |s, e| s.resume(fs, e))
}

fn found(result: &FindFilesResult) -> Vec<(&str, bool)> {
    result.matches.iter().map(|m| (m.path.as_str(), m.is_dir)).collect()
}

#[test]
fn find_files_matches_names_without_regard_to_case() {
    let (mut fake, fs) = tree();
    let result = find(&mut fake, &fs, find_args("readme")).unwrap();
    assert_eq!(found(&result), vec![("README.md", false)]);
    assert!(!result.has_more);
    let mut args = find_args("readme");
    args.case_sensitive = Some(true);
    assert!(find(&mut fake, &fs, args).unwrap().matches.is_empty());
}

#[test]
fn find_files_by_name_does_not_look_at_directories_above() {
    let (mut fake, fs) = tree();
    let result = find(&mut fake, &fs, find_args("src")).unwrap();
    assert_eq!(found(&result), vec![("src", true)]);
    let mut args = find_args("src");
    args.match_mode = Some(FindMatchMode::Path);
    let result = find(&mut fake, &fs, args).unwrap();
    assert_eq!(
        found(&result),
        vec![
            ("src", true),
            ("src/lib.rs", false),
            ("src/main.rs", false),
            ("src/util", true),
            ("src/util/text.rs", false)
        ]
    );
}

#[test]
fn find_files_takes_the_query_literally() {
    let (mut fake, fs) = tree();
    fake.file("/work/a/a.b", b"");
    fake.file("/work/a/axb", b"");
    let result = find(&mut fake, &fs, find_args("a.b")).unwrap();
    assert_eq!(found(&result), vec![("a.b", false)]);
}

#[test]
fn find_files_leaves_directories_out_when_told() {
    let (mut fake, fs) = tree();
    let result = find(&mut fake, &fs, find_args("i")).unwrap();
    assert_eq!(
        found(&result),
        vec![("docs/guide.md", false), ("src/lib.rs", false), ("src/main.rs", false), ("src/util", true)]
    );
    let mut args = find_args("i");
    args.include_dirs = Some(false);
    let result = find(&mut fake, &fs, args).unwrap();
    assert_eq!(
        found(&result),
        vec![("docs/guide.md", false), ("src/lib.rs", false), ("src/main.rs", false)]
    );
}

#[test]
fn find_files_returns_the_same_sorted_page_for_any_order_of_the_walk() {
    let (mut fake, fs) = tree();
    let mut args = find_args(".rs");
    args.skip = Some(1);
    args.max_results = Some(2);
    let forward = find(&mut fake, &fs, args.clone()).unwrap();
    fake.reversed = true;
    let backward = find(&mut fake, &fs, args).unwrap();
    assert_eq!(forward, backward);
    assert_eq!(found(&forward), vec![("src/main.rs", false), ("src/util/text.rs", false)]);
    assert!(!forward.has_more);
}

#[test]
fn find_files_says_when_there_are_more() {
    let (mut fake, fs) = tree();
    let mut args = find_args(".rs");
    args.max_results = Some(2);
    let result = find(&mut fake, &fs, args).unwrap();
    assert_eq!(result.matches.len(), 2);
    assert!(result.has_more);
    let mut args = find_args(".rs");
    args.max_results = Some(3);
    let result = find(&mut fake, &fs, args).unwrap();
    assert_eq!(result.matches.len(), 3);
    assert!(!result.has_more);
}

#[test]
fn find_files_sorts_by_the_bytes_of_the_path() {
    let (mut fake, fs) = tree();
    fake.file("/work/a/z/B.x", b"");
    fake.file("/work/a/z/a.x", b"");
    fake.file("/work/a/z/a.x.x", b"");
    fake.file("/work/a/z/\u{e9}.x", b"");
    fake.reversed = true;
    let result = find(&mut fake, &fs, find_args(".x")).unwrap();
    assert_eq!(
        found(&result),
        vec![("z/B.x", false), ("z/a.x", false), ("z/a.x.x", false), ("z/\u{e9}.x", false)]
    );
}

#[test]
fn find_files_with_no_room_does_not_walk() {
    let (mut fake, fs) = tree();
    fake.log.clear();
    let mut args = find_args("a");
    args.max_results = Some(0);
    args.skip = Some(3);
    let result = find(&mut fake, &fs, args).unwrap();
    assert!(result.matches.is_empty());
    assert!(!result.has_more);
    assert!(fake.log.iter().all(|a| !a.starts_with("Walk")));
}

#[test]
fn find_files_walks_in_parallel_and_checks_the_start() {
    let (mut fake, fs) = tree();
    fake.log.clear();
    find(&mut fake, &fs, find_args("a")).unwrap();
    assert!(fake.log.iter().any(|a| a.starts_with("Walk") && a.contains("parallel: true")));
    let mut args = find_args("a");
    args.root = Some(String::from("README.md"));
    assert_eq!(
        find(&mut fake, &fs, args).unwrap_err(),
        FsError::FindRootNotDirectory { path: FsPath::from_str("/work/a/README.md") }
    );
    let mut args = find_args("a");
    args.root = Some(String::from("/outside"));
    assert_eq!(
        find(&mut fake, &fs, args).unwrap_err(),
        FsError::FindRootNotInGit { path: FsPath::from_str("/outside") }
    );
}

fn search_args(query: &str) -> SearchTextArgs {
    SearchTextArgs {
        query: String::from(query),
        mode: None,
        case_sensitive: None,
        root: None,
        include_globs: None,
        exclude_globs: None,
        max_results: None,
        context_lines: None,
        skip: None,
    }
}

fn search(fake: &mut Fake, fs: &LocalGitAwareFs, args: SearchTextArgs) -> Result<SearchTextResult, FsError> {
    drive(fake, fs.search_text(args), |s, e| s.resume(fs, e))
}

#[test]
fn search_text_finds_both_cases_and_reports_the_first_column() {
    let (mut fake, fs) = tree();
    let mut args = search_args("foo");
    args.include_globs = Some(vec![String::from("src/lib.rs")]);
    args.context_lines = Some(0);
    let result = search(&mut fake, &fs, args).unwrap();
    let seen: Vec<(u64, u64, &str)> =
        result.hits.iter().map(|h| (h.line, h.column, h.line_text.as_str())).collect();
    assert_eq!(
        seen,
        vec![(1, 7, "pub fn foo() {}"), (2, 7, "pub fn FOO() {}"), (3, 8, "let x = foo + FOO;")]
    );
    assert!(result.hits.iter().all(|h| h.path == "src/lib.rs"));
    assert!(result.hits.iter().all(|h| h.context_before.is_empty() && h.context_after.is_empty()));
    assert!(!result.has_more);
}

#[test]
fn search_text_case_sensitive_finds_only_one_case() {
    let (mut fake, fs) = tree();
    let mut args = search_args("FOO");
    args.case_sensitive = Some(true);
    args.include_globs = Some(vec![String::from("src/lib.rs")]);
    let result = search(&mut fake, &fs, args).unwrap();
    let seen: Vec<(u64, u64)> = result.hits.iter().map(|h| (h.line, h.column)).collect();
    assert_eq!(seen, vec![(2, 7), (3, 14)]);
}

#[test]
fn search_text_gives_context_within_the_file() {
    let (mut fake, fs) = tree();
    fake.file("/work/a/ctx.txt", b"l1\nl2\n\nl4 needle\nl5\nl6\nl7");
    let mut args = search_args("needle");
    args.context_lines = Some(2);
    let result = search(&mut fake, &fs, args).unwrap();
    assert_eq!(result.hits.len(), 1);
    let hit = &result.hits[0];
    assert_eq!((hit.line, hit.column), (4, 3));
    assert_eq!(hit.line_text, "l4 needle");
    assert_eq!(hit.context_before, vec!["l2", ""]);
    assert_eq!(hit.context_after, vec!["l5", "l6"]);
    fake.file("/work/a/ctx.txt", b"needle\nl2");
    let result = search(&mut fake, &fs, search_args("needle")).unwrap();
    assert!(result.hits[0].context_before.is_empty());
    assert_eq!(result.hits[0].context_after, vec!["l2"]);
}

#[test]
fn search_text_reads_a_query_as_a_pattern_only_in_regex_mode() {
    let (mut fake, fs) = tree();
    fake.file("/work/a/p.txt", b"abc\na.c\n");
    let mut args = search_args("a.c");
    args.include_globs = Some(vec![String::from("p.txt")]);
    let literal = search(&mut fake, &fs, args.clone()).unwrap();
    assert_eq!(literal.hits.iter().map(|h| h.line).collect::<Vec<u64>>(), vec![2]);
    args.mode = Some(SearchMode::Regex);
    let pattern = search(&mut fake, &fs, args).unwrap();
    assert_eq!(pattern.hits.iter().map(|h| h.line).collect::<Vec<u64>>(), vec![1, 2]);
}

#[test]
fn search_text_rejects_a_bad_pattern() {
    let (mut fake, fs) = tree();
    let mut args = search_args("(");
    args.mode = Some(SearchMode::Regex);
    match search(&mut fake, &fs, args).unwrap_err() {
        FsError::InvalidSearchRegex { query, .. } => assert_eq!(query, "("),
        other => panic!("{:?}", other),
    }
    assert!(search(&mut fake, &fs, search_args("(")).is_ok());
}

#[test]
fn search_text_takes_a_page_of_hits() {
    let (mut fake, fs) = tree();
    let mut args = search_args("foo");
    args.include_globs = Some(vec![String::from("src/*.rs")]);
    args.skip = Some(1);
    args.max_results = Some(2);
    let result = search(&mut fake, &fs, args).unwrap();
    let seen: Vec<(&str, u64)> = result.hits.iter().map(|h| (h.path.as_str(), h.line)).collect();
    assert_eq!(seen, vec![("src/lib.rs", 2), ("src/lib.rs", 3)]);
    assert!(result.has_more);
    let mut args = search_args("foo");
    args.include_globs = Some(vec![String::from("src/*.rs")]);
    args.skip = Some(3);
    args.max_results = Some(5);
    let result = search(&mut fake, &fs, args).unwrap();
    let seen: Vec<(&str, u64)> = result.hits.iter().map(|h| (h.path.as_str(), h.line)).collect();
    assert_eq!(seen, vec![("src/main.rs", 2)]);
    assert!(!result.has_more);
}

#[test]
fn search_text_with_no_room_does_not_walk() {
    let (mut fake, fs) = tree();
    fake.log.clear();
    let mut args = search_args("foo");
    args.max_results = Some(0);
    let result = search(&mut fake, &fs, args).unwrap();
    assert!(result.hits.is_empty());
    assert!(!result.has_more);
    assert!(fake.log.iter().all(|a| !a.starts_with("Walk")));
}

#[test]
fn search_text_survives_bytes_that_are_no_text() {
    let (mut fake, fs) = tree();
    fake.file("/work/a/bin.dat", &[0xff, b'f', b'o', b'o', 0xfe, b'\n', 0x00]);
    let mut args = search_args("foo");
    args.include_globs = Some(vec![String::from("bin.dat")]);
    let result = search(&mut fake, &fs, args).unwrap();
    assert_eq!(result.hits.len(), 1);
    assert_eq!(result.hits[0].column, 1);
    assert_eq!(result.hits[0].line_text, "\u{fffd}foo\u{fffd}");
    assert_eq!(result.hits[0].context_after, vec!["\0"]);
}

#[test]
fn search_text_passes_over_files_that_cannot_be_mapped() {
    let (mut fake, fs) = tree();
    let mut step = fs.search_text(search_args("foo"));
    let result = loop {
        match step {
            Step::Perform(state, action) => {
                let event = match action {
                    FsAction::MapFile { ref path } if path.bytes.ends_with(b"lib.rs") => {
                        FsEvent::Mapped(Err(IoFailure {
                            kind: IoKind::PermissionDenied,
                            message: String::from("denied"),
                        }))
                    }
                    other => fake.perform(other),
                };
                step = state.resume(&fs, event);
            }
            Step::Finished(result) => break result.unwrap(),
        }
    };
    let seen: Vec<&str> = result.hits.iter().map(|h| h.path.as_str()).collect();
    assert_eq!(seen, vec!["docs/guide.md", "src/main.rs"]);
}

#[test]
fn search_text_checks_the_start() {
    let (mut fake, fs) = tree();
    let mut args = search_args("foo");
    args.root = Some(String::from("../../outside"));
    assert_eq!(
        search(&mut fake, &fs, args).unwrap_err(),
        FsError::SearchRootEscapesRepo { path: FsPath::from_str("/outside") }
    );
    let mut args = search_args("foo");
    args.root = Some(String::from("/outside"));
    assert_eq!(
        search(&mut fake, &fs, args).unwrap_err(),
        FsError::SearchRootNotInGit { path: FsPath::from_str("/outside") }
    );
    let mut args = search_args("foo");
    args.root = Some(String::from("docs"));
    let result = search(&mut fake, &fs, args).unwrap();
    assert_eq!(result.hits.len(), 1);
    assert_eq!(result.hits[0].path, "docs/guide.md");
    assert_eq!(result.hits[0].column, 11);
}

#[test]
fn search_text_keeps_the_carriage_return_but_no_newline() {
    let (mut fake, fs) = tree();
    fake.file("/work/a/crlf.txt", b"one x\ntwo x\r\n\nlast x\n");
    let mut args = search_args("x");
    args.include_globs = Some(vec![String::from("crlf.txt")]);
    args.context_lines = Some(1);
    let result = search(&mut fake, &fs, args).unwrap();
    let seen: Vec<(u64, &str)> = result.hits.iter().map(|h| (h.line, h.line_text.as_str())).collect();
    assert_eq!(seen, vec![(1, "one x"), (2, "two x\r"), (4, "last x")]);
    assert_eq!(result.hits[0].context_after, vec!["two x\r"]);
    assert_eq!(result.hits[1].context_before, vec!["one x"]);
    assert_eq!(result.hits[1].context_after, vec![""]);
    assert_eq!(result.hits[2].context_before, vec![""]);
    assert!(result.hits[2].context_after.is_empty());
}

#[test]
fn search_text_finds_nothing_on_empty_lines() {
    let (mut fake, fs) = tree();
    fake.file("/work/a/gaps.txt", b"\n\na\n\n");
    let mut args = search_args("^");
    args.mode = Some(SearchMode::Regex);
    args.include_globs = Some(vec![String::from("gaps.txt")]);
    let result = search(&mut fake, &fs, args).unwrap();
    assert_eq!(result.hits.iter().map(|h| h.line).collect::<Vec<u64>>(), vec![3]);
    fake.file("/work/a/gaps.txt", b"");
    let mut args = search_args("^");
    args.mode = Some(SearchMode::Regex);
    args.include_globs = Some(vec![String::from("gaps.txt")]);
    assert!(search(&mut fake, &fs, args).unwrap().hits.is_empty());
}

#[test]
fn search_text_gives_empty_lines_as_context() {
    let (mut fake, fs) = tree();
    fake.file("/work/a/gap.txt", b"\nneedle\n\n\nend\n");
    let mut args = search_args("needle");
    args.include_globs = Some(vec![String::from("gap.txt")]);
    args.context_lines = Some(2);
    let result = search(&mut fake, &fs, args).unwrap();
    assert_eq!(result.hits.len(), 1);
    assert_eq!(result.hits[0].line, 2);
    assert_eq!(result.hits[0].context_before, vec![""]);
    assert_eq!(result.hits[0].context_after, vec!["", ""]);
    let mut args = search_args("end");
    args.include_globs = Some(vec![String::from("gap.txt")]);
    args.context_lines = Some(9);
    let result = search(&mut fake, &fs, args).unwrap();
    assert_eq!(result.hits[0].line, 5);
    assert_eq!(result.hits[0].line_text, "end");
    assert_eq!(result.hits[0].context_before, vec!["", "needle", "", ""]);
    assert!(result.hits[0].context_after.is_empty());
}

#[test]
fn search_text_says_more_only_when_a_further_hit_exists() {
    let (mut fake, fs) = tree();
    fake.file("/work/a/one.txt", b"needle\n");
    let mut args = search_args("needle");
    args.max_results = Some(1);
    let result = search(&mut fake, &fs, args.clone()).unwrap();
    assert_eq!(result.hits.len(), 1);
    assert!(!result.has_more);
    fake.file("/work/a/src/two.txt", b"a\nneedle\n");
    let result = search(&mut fake, &fs, args.clone()).unwrap();
    assert_eq!(result.hits.len(), 1);
    assert_eq!(result.hits[0].path, "one.txt");
    assert!(result.has_more);
    args.max_results = Some(2);
    let result = search(&mut fake, &fs, args.clone()).unwrap();
    assert_eq!(result.hits.len(), 2);
    assert!(!result.has_more);
    args.skip = Some(1);
    args.max_results = Some(1);
    let result = search(&mut fake, &fs, args.clone()).unwrap();
    assert_eq!(result.hits.len(), 1);
    assert_eq!(result.hits[0].path, "src/two.txt");
    assert!(!result.has_more);
    args.skip = Some(2);
    let result = search(&mut fake, &fs, args).unwrap();
    assert!(result.hits.is_empty());
    assert!(!result.has_more);
}

#[test]
fn search_text_says_more_for_a_further_hit_in_the_same_file() {
    let (mut fake, fs) = tree();
    fake.file("/work/a/many.txt", b"needle 1\nneedle 2\nneedle 3\n");
    let mut args = search_args("needle");
    args.max_results = Some(2);
    let result = search(&mut fake, &fs, args.clone()).unwrap();
    assert_eq!(result.hits.iter().map(|h| h.line).collect::<Vec<u64>>(), vec![1, 2]);
    assert!(result.has_more);
    args.max_results = Some(3);
    let result = search(&mut fake, &fs, args).unwrap();
    assert_eq!(result.hits.iter().map(|h| h.line).collect::<Vec<u64>>(), vec![1, 2, 3]);
    assert!(!result.has_more);
}
