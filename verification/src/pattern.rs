//! Matching names and lines.
//!
//! Patterns are compiled and run by `regex`. A query that is meant literally
//! is escaped first, so one engine serves both kinds of search. What a
//! pattern matches is not restated here: the contracts speak of it by name.

use vstd::prelude::*;

use crate::error::FsError;
use crate::text::copy_text;
use crate::types::SearchMode;

verus! {

/// `regex::Regex`: a compiled pattern that runs on text.
#[verifier::external_type_specification]
#[verifier::external_body]
pub struct ExTextRegex(regex::Regex);

/// `regex::bytes::Regex`: a compiled pattern that runs on raw bytes.
#[verifier::external_type_specification]
#[verifier::external_body]
pub struct ExBytesRegex(regex::bytes::Regex);

/// The characters that mean something in a pattern.
pub open spec fn is_meta(c: char) -> bool {
    c == '\\' || c == '.' || c == '+' || c == '*' || c == '?' || c == '(' || c == ')' || c == '|'
        || c == '[' || c == ']' || c == '{' || c == '}' || c == '^' || c == '$' || c == '#' || c
        == '&' || c == '-' || c == '~'
}

/// `text` with a backslash before every character that means something in a
/// pattern.
pub open spec fn escaped(text: Seq<char>) -> Seq<char>
    decreases text.len(),
{
    if text.len() == 0 {
        Seq::empty()
    } else if is_meta(text[0]) {
        seq!['\\', text[0]] + escaped(text.drop_first())
    } else {
        seq![text[0]] + escaped(text.drop_first())
    }
}

/// Whether `pattern` compiles into a matcher of text.
pub uninterp spec fn text_pattern_compiles(pattern: Seq<char>, fold_case: bool) -> bool;

/// The pattern that a matcher of text was compiled from.
pub uninterp spec fn text_pattern_of(re: regex::Regex) -> Seq<char>;

/// Whether a matcher of text was compiled to ignore case.
pub uninterp spec fn text_pattern_folds(re: regex::Regex) -> bool;

/// Whether `pattern` matches anywhere in `haystack`.
pub uninterp spec fn text_pattern_matches(
    pattern: Seq<char>,
    fold_case: bool,
    haystack: Seq<char>,
) -> bool;

/// Whether `pattern` compiles into a matcher of bytes.
pub uninterp spec fn bytes_pattern_compiles(pattern: Seq<char>, fold_case: bool) -> bool;

/// The pattern that a matcher of bytes was compiled from.
pub uninterp spec fn bytes_pattern_of(re: regex::bytes::Regex) -> Seq<char>;

/// Whether a matcher of bytes was compiled to ignore case.
pub uninterp spec fn bytes_pattern_folds(re: regex::bytes::Regex) -> bool;

/// Where the leftmost match of `pattern` in `haystack` begins, if there is
/// one.
pub uninterp spec fn first_match_start(
    pattern: Seq<char>,
    fold_case: bool,
    haystack: Seq<u8>,
) -> Option<int>;

/// `regex::escape`: the text as a pattern that matches it literally, made by
/// putting a backslash before each of its meta characters.
#[verifier::external_body]
fn escape_text(text: &str) -> (pattern: String)
    ensures
        pattern@ == escaped(text@),
{
    regex::escape(text)
}

/// `regex::RegexBuilder`: compiles `pattern` with the default configuration
/// but for case. It fails where the pattern is no regular expression or
/// compiles to more than the default size limit.
#[verifier::external_body]
fn compile_text(pattern: &str, fold_case: bool) -> (built: std::result::Result<
    regex::Regex,
    regex::Error,
>)
    ensures
        built is Ok <==> text_pattern_compiles(pattern@, fold_case),
        built matches Ok(re) ==> text_pattern_of(re) == pattern@ && text_pattern_folds(re)
            == fold_case,
{
    regex::RegexBuilder::new(pattern).case_insensitive(fold_case).build()
}

/// `regex::Regex::is_match`: whether there is a match anywhere in the haystack.
#[verifier::external_body]
fn text_is_match(re: &regex::Regex, haystack: &str) -> (hit: bool)
    ensures
        hit == text_pattern_matches(text_pattern_of(*re), text_pattern_folds(*re), haystack@),
{
    re.is_match(haystack)
}

/// `regex::bytes::RegexBuilder`: as for text, for a matcher that runs on raw
/// bytes.
#[verifier::external_body]
fn compile_bytes(pattern: &str, fold_case: bool) -> (built: std::result::Result<
    regex::bytes::Regex,
    regex::Error,
>)
    ensures
        built is Ok <==> bytes_pattern_compiles(pattern@, fold_case),
        built matches Ok(re) ==> bytes_pattern_of(re) == pattern@ && bytes_pattern_folds(re)
            == fold_case,
{
    regex::bytes::RegexBuilder::new(pattern).case_insensitive(fold_case).build()
}

/// `regex::bytes::Regex::find`: the byte offset at which the leftmost match
/// begins. The offset lies within the haystack.
#[verifier::external_body]
fn find_start(re: &regex::bytes::Regex, haystack: &[u8]) -> (start: Option<usize>)
    ensures
        start matches Some(at) ==> at <= haystack@.len(),
        match start {
            Some(at) => Some(at as int),
            None => None,
        } == first_match_start(bytes_pattern_of(*re), bytes_pattern_folds(*re), haystack@),
{
    re.find(haystack).map(|m| m.start())
}

/// Matches a name or a path against a query that is meant literally.
#[derive(Debug)]
pub struct NameMatcher {
    re: regex::Regex,
}

impl NameMatcher {
    /// The query that is looked for.
    pub closed spec fn pattern(&self) -> Seq<char> {
        text_pattern_of(self.re)
    }

    /// Whether upper and lower case count as the same.
    pub closed spec fn folds_case(&self) -> bool {
        text_pattern_folds(self.re)
    }

    /// Whether the query occurs in `haystack`.
    pub open spec fn accepts(&self, haystack: Seq<char>) -> bool {
        text_pattern_matches(self.pattern(), self.folds_case(), haystack)
    }

    /// A matcher for the literal `query`.
    pub fn literal(query: &str, case_sensitive: bool) -> (built: std::result::Result<
        NameMatcher,
        FsError,
    >)
        ensures
            built is Ok <==> text_pattern_compiles(escaped(query@), !case_sensitive),
            built matches Ok(m) ==> m.pattern() == escaped(query@) && m.folds_case()
                == !case_sensitive,
            built matches Err(e) ==> e matches FsError::InvalidFindFilesRegex { query: q, .. }
                && q@ == query@,
    {
        let pattern = escape_text(query);
        match compile_text(pattern.as_str(), !case_sensitive) {
            Ok(re) => Ok(NameMatcher { re }),
            Err(source) => Err(FsError::InvalidFindFilesRegex { query: copy_text(query), source }),
        }
    }

    pub fn is_match(&self, haystack: &str) -> (hit: bool)
        ensures
            hit == self.accepts(haystack@),
    {
        text_is_match(&self.re, haystack)
    }
}

/// The pattern that a text search compiles: the query as it stands, or
/// escaped where it is meant literally.
pub open spec fn search_pattern(query: Seq<char>, mode: SearchMode) -> Seq<char> {
    match mode {
        SearchMode::Literal => escaped(query),
        SearchMode::Regex => query,
    }
}

/// Finds a query in the raw bytes of one line.
#[derive(Debug)]
pub struct LineMatcher {
    re: regex::bytes::Regex,
}

impl LineMatcher {
    /// The pattern that is looked for.
    pub closed spec fn pattern(&self) -> Seq<char> {
        bytes_pattern_of(self.re)
    }

    /// Whether upper and lower case count as the same.
    pub closed spec fn folds_case(&self) -> bool {
        bytes_pattern_folds(self.re)
    }

    /// Where the leftmost match in `line` begins.
    pub open spec fn first_match(&self, line: Seq<u8>) -> Option<int> {
        first_match_start(self.pattern(), self.folds_case(), line)
    }

    /// A matcher for `query`, read as `mode` says.
    pub fn compile(query: &str, mode: SearchMode, case_sensitive: bool) -> (built:
        std::result::Result<LineMatcher, FsError>)
        ensures
            built is Ok <==> bytes_pattern_compiles(search_pattern(query@, mode), !case_sensitive),
            built matches Ok(m) ==> m.pattern() == search_pattern(query@, mode) && m.folds_case()
                == !case_sensitive,
            built matches Err(e) ==> e matches FsError::InvalidSearchRegex { query: q, .. } && q@
                == query@,
    {
        let pattern = match mode {
            SearchMode::Literal => escape_text(query),
            SearchMode::Regex => copy_text(query),
        };
        match compile_bytes(pattern.as_str(), !case_sensitive) {
            Ok(re) => Ok(LineMatcher { re }),
            Err(source) => Err(FsError::InvalidSearchRegex { query: copy_text(query), source }),
        }
    }

    /// The byte column of the leftmost match in `line`.
    pub fn find(&self, line: &[u8]) -> (start: Option<usize>)
        ensures
            start matches Some(at) ==> at <= line@.len(),
            match start {
                Some(at) => Some(at as int),
                None => None,
            } == self.first_match(line@),
    {
        find_start(&self.re, line)
    }
}

} // verus!
