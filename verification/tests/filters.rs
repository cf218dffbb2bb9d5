use gitaware_fs::error::FsError;
use gitaware_fs::find::{match_le, sort_matches};
use gitaware_fs::glob::{build_globset, GlobFilterSet};
use gitaware_fs::lines::index_lines;
use gitaware_fs::order::{rank_bytes, Rank};
use gitaware_fs::paging::take_page;
use gitaware_fs::pattern::{LineMatcher, NameMatcher};
use gitaware_fs::read::{plan_read, ReadPlan};
use gitaware_fs::text::copy_text;
use gitaware_fs::types::{FindFileMatch, RangeType, ReadFileArgs, SearchMode};

fn globs(list: &[&str]) -> Option<Vec<String>> {
    Some(list.iter().map(|s| String::from(*s)).collect())
}

#[test]
fn build_globset_of_nothing_is_no_set() {
    assert!(build_globset(&None).unwrap().is_none());
    assert!(build_globset(&globs(&[])).unwrap().is_none());
    assert!(build_globset(&globs(&["*.rs"])).unwrap().is_some());
}

#[test]
fn build_globset_names_the_first_bad_pattern() {
    match build_globset(&globs(&["*.rs", "{a", "[b"])).unwrap_err() {
        FsError::InvalidGlobPattern { pattern, .. } => assert_eq!(pattern, "{a"),
        other => panic!("{:?}", other),
    }
}

#[test]
fn filters_keep_what_is_included_and_not_excluded() {
    let both = GlobFilterSet::compile(&globs(&["*.rs", "*.md"]), &globs(&["target/**"])).unwrap();
    assert!(both.is_kept("src/main.rs"));
    assert!(both.is_kept("README.md"));
    assert!(!both.is_kept("Cargo.toml"));
    assert!(!both.is_kept("target/debug/build.rs"));
    let none = GlobFilterSet::compile(&None, &None).unwrap();
    assert!(none.is_kept("anything"));
    let only_out = GlobFilterSet::compile(&globs(&[]), &globs(&["*.log"])).unwrap();
    assert!(only_out.is_kept("a.txt"));
    assert!(!only_out.is_kept("a.log"));
}

#[test]
fn filters_fail_on_the_include_list_first() {
    match GlobFilterSet::compile(&globs(&["a["]), &globs(&["b["])).unwrap_err() {
        FsError::InvalidGlobPattern { pattern, .. } => assert_eq!(pattern, "a["),
        other => panic!("{:?}", other),
    }
    match GlobFilterSet::compile(&globs(&["a"]), &globs(&["b["])).unwrap_err() {
        FsError::InvalidGlobPattern { pattern, .. } => assert_eq!(pattern, "b["),
        other => panic!("{:?}", other),
    }
}

#[test]
fn name_matcher_is_literal() {
    let m = NameMatcher::literal("a.b", false).unwrap();
    assert!(m.is_match("xA.By"));
    assert!(!m.is_match("axb"));
    let m = NameMatcher::literal("a.b", true).unwrap();
    assert!(!m.is_match("A.B"));
    assert!(m.is_match("a.b"));
    assert!(NameMatcher::literal("(", false).unwrap().is_match("f(x)"));
}

#[test]
fn name_matcher_takes_every_meta_character_literally() {
    let all = "\\.+*?()|[]{}^$#&-~";
    let m = NameMatcher::literal(all, true).unwrap();
    assert!(m.is_match("x\\.+*?()|[]{}^$#&-~y"));
    assert!(!m.is_match("\\.+*?()|[]{}^$#&-"));
    for c in all.chars() {
        let m = NameMatcher::literal(&c.to_string(), true).unwrap();
        assert!(m.is_match(&format!("a{}b", c)));
        assert!(!m.is_match("ab"));
    }
}

#[test]
fn line_matcher_reports_the_leftmost_match() {
    let m = LineMatcher::compile("foo", SearchMode::Literal, false).unwrap();
    assert_eq!(m.find(b"a FOO and a foo"), Some(2));
    assert_eq!(m.find(b"nothing"), None);
    assert_eq!(m.find(&[0xff, b'f', b'o', b'o']), Some(1));
    let m = LineMatcher::compile("fo+", SearchMode::Regex, true).unwrap();
    assert_eq!(m.find(b"FOO fooo"), Some(4));
    let m = LineMatcher::compile("fo+", SearchMode::Literal, true).unwrap();
    assert_eq!(m.find(b"FOO fooo fo+"), Some(9));
    match LineMatcher::compile("(", SearchMode::Regex, false).unwrap_err() {
        FsError::InvalidSearchRegex { query, .. } => assert_eq!(query, "("),
        other => panic!("{:?}", other),
    }
}

#[test]
fn line_matcher_folds_case_as_unicode_does() {
    let m = LineMatcher::compile("k", SearchMode::Literal, false).unwrap();
    assert_eq!(m.find("\u{212a} k".as_bytes()), Some(0));
    let m = LineMatcher::compile("k", SearchMode::Literal, true).unwrap();
    assert_eq!(m.find("\u{212a} k".as_bytes()), Some(4));
}

#[test]
fn index_lines_begins_a_line_behind_every_newline_but_the_last() {
    assert_eq!(index_lines(b"a\nbc\n"), vec![0, 2]);
    assert_eq!(index_lines(b"a\nbc"), vec![0, 2]);
    assert_eq!(index_lines(b"\n\n\n"), vec![0, 1, 2]);
    assert_eq!(index_lines(b""), vec![0]);
    assert_eq!(index_lines(b"abc"), vec![0]);
    assert_eq!(index_lines(b"a\r\nb"), vec![0, 3]);
}

#[test]
fn rank_bytes_is_the_order_of_byte_strings() {
    assert_eq!(rank_bytes(b"a", b"b"), Rank::Before);
    assert_eq!(rank_bytes(b"b", b"a"), Rank::After);
    assert_eq!(rank_bytes(b"a", b"a"), Rank::Same);
    assert_eq!(rank_bytes(b"a", b"ab"), Rank::Before);
    assert_eq!(rank_bytes(b"ab", b"a"), Rank::After);
    assert_eq!(rank_bytes(b"", b""), Rank::Same);
    assert_eq!(rank_bytes(b"Z", b"a"), Rank::Before);
    assert_eq!(rank_bytes(&[0x7f], &[0x80]), Rank::Before);
}

fn m(path: &str, is_dir: bool) -> FindFileMatch {
    FindFileMatch { path: String::from(path), is_dir }
}

#[test]
fn sort_matches_orders_by_path() {
    let sorted = sort_matches(vec![m("b", false), m("a/b", true), m("a", true), m("B", false), m("a.b", false)]);
    assert_eq!(sorted, vec![m("B", false), m("a", true), m("a.b", false), m("a/b", true), m("b", false)]);
    assert_eq!(sort_matches(vec![m("x", true), m("x", false)]), vec![m("x", false), m("x", true)]);
    assert!(sort_matches(Vec::new()).is_empty());
    assert!(match_le(&m("a", false), &m("a", false)));
    assert!(match_le(&m("a", false), &m("a", true)));
    assert!(!match_le(&m("a", true), &m("a", false)));
    assert!(!match_le(&m("b", false), &m("a", true)));
}

#[test]
fn take_page_cuts_a_window() {
    let all: Vec<u32> = vec![1, 2, 3, 4, 5];
    assert_eq!(take_page(all.clone(), 1, 2), vec![2, 3]);
    assert_eq!(take_page(all.clone(), 0, 9), vec![1, 2, 3, 4, 5]);
    assert_eq!(take_page(all.clone(), 4, 2), vec![5]);
    assert_eq!(take_page(all.clone(), 5, 2), Vec::<u32>::new());
    assert_eq!(take_page(all.clone(), 9, 2), Vec::<u32>::new());
    assert_eq!(take_page(all, 2, 0), Vec::<u32>::new());
}

fn read_args() -> ReadFileArgs {
    ReadFileArgs {
        path: String::from("f"),
        range_type: None,
        offset_bytes: None,
        max_bytes: None,
        start_line: None,
        max_lines: None,
    }
}

#[test]
fn plan_read_fills_in_the_defaults() {
    assert_eq!(plan_read(&read_args()), Ok(ReadPlan::Bytes { offset: 0, max_bytes: 65536 }));
    let mut args = read_args();
    args.max_lines = Some(3);
    assert_eq!(plan_read(&args), Ok(ReadPlan::Lines { start_line: 1, max_lines: 3 }));
    let mut args = read_args();
    args.range_type = Some(RangeType::Lines);
    assert_eq!(plan_read(&args), Ok(ReadPlan::Lines { start_line: 1, max_lines: 200 }));
    let mut args = read_args();
    args.offset_bytes = Some(7);
    assert_eq!(plan_read(&args), Ok(ReadPlan::Bytes { offset: 7, max_bytes: 65536 }));
}

#[test]
fn plan_read_rejects_mixed_addressing() {
    let mut args = read_args();
    args.start_line = Some(1);
    args.max_bytes = Some(1);
    assert_eq!(plan_read(&args), Err(FsError::ReadFileBytesWithLines));
    let mut args = read_args();
    args.range_type = Some(RangeType::Bytes);
    args.start_line = Some(1);
    assert_eq!(plan_read(&args), Err(FsError::ReadFileLinesWithBytes));
    let mut args = read_args();
    args.start_line = Some(0);
    assert_eq!(plan_read(&args), Err(FsError::StartLineMustBePositive));
    assert_eq!(copy_text("abc"), "abc");
}
