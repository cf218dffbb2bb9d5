use gitaware_fs::guard::{choose_rule, Access, Cleared, Guard, GuardStep, Rule};
use gitaware_fs::backend::{LocalGitAwareFs, ResolvedPath};
use gitaware_fs::error::{FsError, IoFailure, IoKind};
use gitaware_fs::io::{FileMeta, FsAction, FsEvent, Step};
use gitaware_fs::path::{bytes_eq, join_bytes, parts_prefix, FsPath};
use gitaware_fs::repo::{RepoSearch, RepoStep};

fn p(text: &str) -> FsPath {
    FsPath::from_str(text)
}

fn parts(text: &str) -> Vec<String> {
    p(text).components().into_iter().map(|c| String::from_utf8(c).unwrap()).collect()
}

fn engine(root: &str) -> LocalGitAwareFs {
    let dir = FileMeta { is_file: false, is_dir: true, len: 0, modified: None };
    match LocalGitAwareFs::new(FsPath::from_str(root)) {
        Step::Perform(state, _) => match state.resume(FsEvent::Resolved(Ok(p(root)))) {
            Step::Perform(state, _) => match state.resume(FsEvent::Meta(Ok(dir))) {
                Step::Finished(Ok(fs)) => fs,
                _ => panic!("the root is a directory"),
            },
            Step::Finished(_) => panic!("the root is looked up"),
        },
        Step::Finished(_) => panic!("the root is resolved"),
    }
}

#[test]
fn join_puts_one_separator() {
    assert_eq!(p("/repo").join(&p("src/main.rs")), p("/repo/src/main.rs"));
    assert_eq!(p("/repo/").join(&p("src")), p("/repo/src"));
    assert_eq!(p("/").join(&p("etc")), p("/etc"));
    assert_eq!(p("").join(&p("etc")), p("etc"));
    assert_eq!(p("/repo").join(&p("")), p("/repo/"));
    assert_eq!(join_bytes(&b"a".to_vec(), &b"b".to_vec()), b"a/b".to_vec());
}

#[test]
fn join_with_an_absolute_path_takes_it_alone() {
    assert_eq!(p("/repo").join(&p("/etc/passwd")), p("/etc/passwd"));
}

#[test]
fn is_absolute_looks_at_the_first_byte() {
    assert!(p("/").is_absolute());
    assert!(p("/a").is_absolute());
    assert!(!p("a/b").is_absolute());
    assert!(!p("").is_absolute());
    assert!(!p("./a").is_absolute());
}

#[test]
fn components_drop_what_leaves_no_trace() {
    assert_eq!(parts("/a/b"), vec!["/", "a", "b"]);
    assert_eq!(parts("/a//b/"), vec!["/", "a", "b"]);
    assert_eq!(parts("/a/./b/."), vec!["/", "a", "b"]);
    assert_eq!(parts("a/../b"), vec!["a", "..", "b"]);
    assert_eq!(parts("./a"), vec![".", "a"]);
    assert_eq!(parts("."), vec!["."]);
    assert_eq!(parts(".a/.b"), vec![".a", ".b"]);
    assert_eq!(parts("/"), vec!["/"]);
    assert_eq!(parts("///"), vec!["/"]);
    assert!(parts("").is_empty());
}

#[test]
fn starts_with_goes_by_whole_components() {
    assert!(p("/repo/src").starts_with(&p("/repo")));
    assert!(p("/repo").starts_with(&p("/repo")));
    assert!(p("/repo").starts_with(&p("/repo/")));
    assert!(p("/repo/src").starts_with(&p("/")));
    assert!(!p("/repository").starts_with(&p("/repo")));
    assert!(!p("/rep").starts_with(&p("/repo")));
    assert!(!p("/etc/passwd").starts_with(&p("/repo")));
    assert!(!p("repo/src").starts_with(&p("/repo")));
    assert!(p("repo/src").starts_with(&p("")));
    assert!(!p("/repo/../etc").starts_with(&p("/etc")));
}

#[test]
fn same_path_goes_by_components_and_same_text_by_bytes() {
    assert!(p("/a/b/").same_path(&p("/a//b")));
    assert!(!p("/a/b/").same_text(&p("/a//b")));
    assert!(p("/a/b").same_text(&p("/a/b")));
    assert!(!p("/a/b").same_path(&p("/a/c")));
    assert!(!p("/a/b").same_path(&p("/a")));
    assert!(bytes_eq(&b"ab".to_vec(), &b"ab".to_vec()));
    assert!(!bytes_eq(&b"ab".to_vec(), &b"ac".to_vec()));
    assert!(!bytes_eq(&b"ab".to_vec(), &b"a".to_vec()));
}

#[test]
fn strip_prefix_gives_the_rest() {
    assert_eq!(p("/repo/src/main.rs").strip_prefix(&p("/repo")), Some(p("src/main.rs")));
    assert_eq!(p("/repo").strip_prefix(&p("/repo")), Some(p("")));
    assert_eq!(p("/repo/a//b/").strip_prefix(&p("/repo/")), Some(p("a//b")));
    assert_eq!(p("/repo/./a/./b/.").strip_prefix(&p("/repo")), Some(p("a/./b")));
    assert_eq!(p("/repo//").strip_prefix(&p("/repo")), Some(p("")));
    assert_eq!(p("/a/b/").strip_prefix(&p("")), Some(p("/a/b")));
    assert_eq!(p("///").strip_prefix(&p("")), Some(p("/")));
    assert_eq!(p("./a/b").strip_prefix(&p(".")), Some(p("a/b")));
    assert_eq!(p("/a/b").strip_prefix(&p("/")), Some(p("a/b")));
    assert_eq!(p("/repository/x").strip_prefix(&p("/repo")), None);
    assert_eq!(p("/a").strip_prefix(&p("")), Some(p("/a")));
    assert_eq!(p("a/b").strip_prefix(&p("/a")), None);
}

#[test]
fn parent_drops_the_last_component() {
    assert_eq!(p("/a/b").parent(), Some(p("/a")));
    assert_eq!(p("/a/b/").parent(), Some(p("/a")));
    assert_eq!(p("/a").parent(), Some(p("/")));
    assert_eq!(p("/").parent(), None);
    assert_eq!(p("").parent(), None);
    assert_eq!(p("a").parent(), Some(p("")));
    assert_eq!(p("a/..").parent(), Some(p("a")));
    assert_eq!(p("/a/.").parent(), Some(p("/")));
    assert_eq!(p("/a//b/./c/").parent(), Some(p("/a//b")));
    assert_eq!(p("./a").parent(), Some(p(".")));
    assert_eq!(p(".").parent(), Some(p("")));
    assert_eq!(p("./").parent(), Some(p("")));
    assert_eq!(p("//").parent(), None);
    assert_eq!(p("a/b/c").parent(), Some(p("a/b")));
}

#[test]
fn name_spans_say_where_the_names_lie() {
    assert_eq!(p("/a//bc/./d/").name_spans(), vec![(1, 2), (4, 6), (9, 10)]);
    assert_eq!(p("./a").name_spans(), vec![(2, 3)]);
    assert_eq!(p("..").name_spans(), vec![(0, 2)]);
    assert!(p("/").name_spans().is_empty());
    assert!(p("").name_spans().is_empty());
}

#[test]
fn file_name_is_the_last_name() {
    assert_eq!(p("/a/b.txt").file_name(), Some(b"b.txt".to_vec()));
    assert_eq!(p("/a/b/").file_name(), Some(b"b".to_vec()));
    assert_eq!(p("b").file_name(), Some(b"b".to_vec()));
    assert_eq!(p("/").file_name(), None);
    assert_eq!(p("").file_name(), None);
    assert_eq!(p("/a/..").file_name(), None);
    assert_eq!(p(".").file_name(), None);
    assert_eq!(p("/a/...").file_name(), Some(b"...".to_vec()));
}

#[test]
fn display_decodes_and_replaces_what_is_no_text() {
    assert_eq!(p("/a/\u{e9}").display(), "/a/\u{e9}");
    assert_eq!(FsPath::new(vec![b'/', 0xff, b'a']).display(), "/\u{fffd}a");
    assert_eq!(p("/a").copy(), p("/a"));
}

#[test]
fn parts_prefix_compares_component_by_component() {
    let parts = p("/a//b/c").components();
    assert!(parts_prefix(&p("/a").components(), &parts));
    assert!(parts_prefix(&p("/a/b/").components(), &parts));
    assert!(!parts_prefix(&p("/b").components(), &parts));
    assert!(!parts_prefix(&p("/a/b/c/d").components(), &parts));
}

#[test]
fn resolve_path_fails_for_a_relative_path_that_escapes() {
    let fs = engine("/repo");
    let got = fs.resolve_path("../../etc/passwd", Ok(p("/etc/passwd")), None);
    assert_eq!(got, Err(FsError::PathEscapesRepo { path: p("/etc/passwd") }));
    let got = fs.resolve_path("link", Ok(p("/elsewhere/target")), Some(p("/elsewhere")));
    assert_eq!(got, Err(FsError::PathEscapesRepo { path: p("/elsewhere/target") }));
    let got = fs.resolve_path("x", Ok(p("/repo-other/x")), Some(p("/repo-other")));
    assert_eq!(got, Err(FsError::PathEscapesRepo { path: p("/repo-other/x") }));
}

#[test]
fn resolve_path_lets_through_what_stays_inside() {
    let fs = engine("/repo");
    assert_eq!(
        fs.resolve_path("a/../b", Ok(p("/repo/b")), Some(p("/repo"))),
        Ok(ResolvedPath { canonical: p("/repo/b"), was_absolute: false })
    );
    assert_eq!(
        fs.resolve_path(".", Ok(p("/repo")), None),
        Ok(ResolvedPath { canonical: p("/repo"), was_absolute: false })
    );
    assert_eq!(
        fs.resolve_path("/work/src/lib.rs", Ok(p("/work/src/lib.rs")), Some(p("/work"))),
        Ok(ResolvedPath { canonical: p("/work/src/lib.rs"), was_absolute: true })
    );
    assert_eq!(
        fs.resolve_path("/repo/a", Ok(p("/repo/a")), Some(p("/repo"))),
        Ok(ResolvedPath { canonical: p("/repo/a"), was_absolute: true })
    );
}

#[test]
fn resolve_path_refuses_an_absolute_path_outside_every_repository() {
    let fs = engine("/repo");
    assert_eq!(
        fs.resolve_path("/etc/passwd", Ok(p("/etc/passwd")), None),
        Err(FsError::ReadFileNotInGit { path: p("/etc/passwd") })
    );
    assert_eq!(
        fs.resolve_path("/repo/a", Ok(p("/repo/a")), None),
        Err(FsError::ReadFileNotInGit { path: p("/repo/a") })
    );
}

#[test]
fn resolve_path_hands_on_the_failure_to_resolve() {
    let fs = engine("/repo");
    let gone = IoFailure { kind: IoKind::NotFound, message: String::from("gone") };
    assert_eq!(
        fs.resolve_path("a/b", Err(gone.clone()), None),
        Err(FsError::CanonicalizePath { path: p("/repo/a/b"), source: gone })
    );
}

#[test]
fn engine_shows_paths_relative_to_its_root() {
    let fs = engine("/repo");
    assert_eq!(fs.locate("a/b"), p("/repo/a/b"));
    assert_eq!(fs.locate("/x"), p("/x"));
    assert!(fs.is_inside(&p("/repo/a")));
    assert!(!fs.is_inside(&p("/repo2")));
    assert_eq!(fs.strip_root(&p("/repo/a/b")), Some(String::from("a/b")));
    assert_eq!(fs.strip_root(&p("/other")), None);
    assert_eq!(fs.show(&p("/repo/a/b")), "a/b");
    assert_eq!(fs.show(&p("/other/a")), "/other/a");
    assert_eq!(fs.show_missing(&p("/repo/a"), true), "/repo/a");
    assert_eq!(fs.show_missing(&p("/repo/a"), false), "a");
    assert_eq!(fs.relative_to(&p("/repo/src"), &p("/repo/src/x.rs")), p("x.rs"));
    assert_eq!(fs.relative_to(&p("/repo/src"), &p("/repo/doc/x.md")), p("doc/x.md"));
    assert_eq!(fs.relative_to(&p("/repo/src"), &p("/else/x")), p("/else/x"));
}

fn marker(search: &RepoSearch) -> String {
    match search.request() {
        FsAction::Exists { path } => path.display(),
        other => panic!("{:?}", other),
    }
}

#[test]
fn repo_search_walks_up_to_the_root_and_gives_up() {
    let mut search = RepoSearch::begin(&p("/a/b/c"));
    let mut asked: Vec<String> = Vec::new();
    let end = loop {
        asked.push(marker(&search));
        match search.resume(false) {
            RepoStep::Probe(next) => search = next,
            other => break other,
        }
    };
    assert_eq!(asked, vec!["/a/b/c/.git", "/a/b/.git", "/a/.git", "/.git"]);
    assert_eq!(end, RepoStep::Missing);
}

#[test]
fn repo_search_stops_at_the_nearest_marker() {
    let search = RepoSearch::begin(&p("/a/b/c"));
    let search = match search.resume(false) {
        RepoStep::Probe(next) => next,
        other => panic!("{:?}", other),
    };
    assert_eq!(marker(&search), "/a/b/.git");
    assert_eq!(search.resume(true), RepoStep::Found(p("/a/b")));
    assert_eq!(
        LocalGitAwareFs::find_git_root(&p("/a/b/c")).resume(true),
        RepoStep::Found(p("/a/b/c"))
    );
}

#[test]
fn repo_search_of_a_relative_path_ends_at_the_empty_path() {
    let mut search = RepoSearch::begin(&p("a/b"));
    let mut asked: Vec<String> = Vec::new();
    loop {
        asked.push(marker(&search));
        match search.resume(false) {
            RepoStep::Probe(next) => search = next,
            _ => break,
        }
    }
    assert_eq!(asked, vec!["a/b/.git", "a/.git", ".git"]);
}

#[test]
fn guard_holds_a_relative_path_to_the_root() {
    let fs = engine("/repo");
    assert_eq!(choose_rule(false, Access::Write), Rule::UnderRoot);
    assert_eq!(choose_rule(true, Access::Read), Rule::InRepository(Access::Read));
    let guard = Guard::begin(p("/repo/../etc"), Rule::UnderRoot);
    assert_eq!(guard.request(), FsAction::Canonicalize { path: p("/repo/../etc") });
    assert_eq!(
        guard.resume(&fs, FsEvent::Resolved(Ok(p("/etc")))),
        GuardStep::Failed(FsError::PathEscapesRepo { path: p("/etc") })
    );
    let guard = Guard::begin(p("/repo/a"), Rule::UnderRoot);
    assert_eq!(
        guard.resume(&fs, FsEvent::Resolved(Ok(p("/repo/a")))),
        GuardStep::Passed(Cleared { canonical: p("/repo/a"), repo: None })
    );
}

#[test]
fn guard_holds_an_absolute_path_to_a_repository() {
    let fs = engine("/repo");
    let guard = Guard::begin(p("/x/y"), Rule::InRepository(Access::Read));
    let guard = match guard.resume(&fs, FsEvent::Resolved(Ok(p("/x/y")))) {
        GuardStep::Ask(next) => next,
        other => panic!("{:?}", other),
    };
    assert_eq!(guard.request(), FsAction::Exists { path: p("/x/y/.git") });
    let guard = match guard.resume(&fs, FsEvent::Exists(false)) {
        GuardStep::Ask(next) => next,
        other => panic!("{:?}", other),
    };
    assert_eq!(guard.request(), FsAction::Exists { path: p("/x/.git") });
    let guard = match guard.resume(&fs, FsEvent::Exists(false)) {
        GuardStep::Ask(next) => next,
        other => panic!("{:?}", other),
    };
    assert_eq!(guard.request(), FsAction::Exists { path: p("/.git") });
    assert_eq!(
        guard.resume(&fs, FsEvent::Exists(false)),
        GuardStep::Failed(FsError::ReadFileNotInGit { path: p("/x/y") })
    );
    let guard = Guard::begin(p("/x/y"), Rule::InRepository(Access::Write));
    let guard = match guard.resume(&fs, FsEvent::Resolved(Ok(p("/x/y")))) {
        GuardStep::Ask(next) => next,
        other => panic!("{:?}", other),
    };
    assert_eq!(
        guard.resume(&fs, FsEvent::Exists(true)),
        GuardStep::Passed(Cleared { canonical: p("/x/y"), repo: Some(p("/x/y")) })
    );
}

#[test]
fn guard_hands_on_the_failure_to_resolve() {
    let fs = engine("/repo");
    let gone = IoFailure::other("gone");
    assert!(!gone.is_not_found());
    let guard = Guard::begin(p("/repo/a"), Rule::UnderRoot);
    assert_eq!(
        guard.resume(&fs, FsEvent::Resolved(Err(gone.clone()))),
        GuardStep::Failed(FsError::CanonicalizePath { path: p("/repo/a"), source: gone })
    );
}
