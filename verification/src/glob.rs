//! Include and excludes filters.
//!
//! The patterns are compiled and matched by `globset`. What is decided here is
//! which pattern an error names, when no filter is made at all, and how the two
//! filters combine.

use vstd::prelude::*;

use crate::error::FsError;
use crate::text::{copy_text, text_views};

verus! {

/// `globset::Glob`: one parsed pattern.
#[verifier::external_type_specification]
#[verifier::external_body]
pub struct ExGlob(globset::Glob);

/// `globset::GlobSet`: patterns compiled to be matched together.
#[verifier::external_type_specification]
#[verifier::external_body]
pub struct ExGlobSet(globset::GlobSet);

/// `globset::GlobSetBuilder`: the globs from which a set is compiled.
#[verifier::external_type_specification]
#[verifier::external_body]
pub struct ExGlobSetBuilder(globset::GlobSetBuilder);

/// Whether `globset` accepts `pattern` as a glob.
pub uninterp spec fn glob_parses(pattern: Seq<char>) -> bool;

/// The pattern that a glob was parsed from.
pub uninterp spec fn glob_pattern(glob: globset::Glob) -> Seq<char>;

/// The patterns of the globs that were added to a builder, in order.
pub uninterp spec fn builder_patterns(builder: globset::GlobSetBuilder) -> Seq<Seq<char>>;

/// Whether `globset` can compile these patterns into one set.
pub uninterp spec fn set_compiles(patterns: Seq<Seq<char>>) -> bool;

/// The patterns that a set was compiled from, in order.
pub uninterp spec fn set_patterns(set: globset::GlobSet) -> Seq<Seq<char>>;

/// Whether the set compiled from `patterns` matches `path`: whether any one of
/// its globs does.
pub uninterp spec fn set_matches(patterns: Seq<Seq<char>>, path: Seq<char>) -> bool;

/// `Glob::new`: parses one pattern with the default options. It fails on the
/// patterns that `globset` rejects and on no others, and the glob remembers
/// the pattern it came from.
#[verifier::external_body]
fn parse_glob(pattern: &str) -> (parsed: std::result::Result<globset::Glob, globset::Error>)
    ensures
        parsed is Ok <==> glob_parses(pattern@),
        parsed matches Ok(g) ==> glob_pattern(g) == pattern@,
{
    globset::Glob::new(pattern)
}

/// `GlobSetBuilder::new`: a builder that holds no glob.
#[verifier::external_body]
fn new_builder() -> (builder: globset::GlobSetBuilder)
    ensures
        builder_patterns(builder) == Seq::<Seq<char>>::empty(),
{
    globset::GlobSetBuilder::new()
}

/// `GlobSetBuilder::add`: puts the glob behind those that the builder holds.
#[verifier::external_body]
fn add_glob(builder: &mut globset::GlobSetBuilder, glob: globset::Glob)
    ensures
        builder_patterns(*final(builder)) == builder_patterns(*old(builder)).push(
            glob_pattern(glob),
        ),
{
    builder.add(glob);
}

/// `GlobSetBuilder::build`: compiles the globs added so far into one set. It
/// fails only where compiling their regular expressions does.
#[verifier::external_body]
fn build_set(builder: &globset::GlobSetBuilder) -> (built: std::result::Result<
    globset::GlobSet,
    globset::Error,
>)
    ensures
        built is Ok <==> set_compiles(builder_patterns(*builder)),
        built matches Ok(set) ==> set_patterns(set) == builder_patterns(*builder),
{
    builder.build()
}

/// `GlobSet::is_match`: whether any glob of the set matches the path.
#[verifier::external_body]
fn set_is_match(set: &globset::GlobSet, path: &str) -> (hit: bool)
    ensures
        hit == set_matches(set_patterns(*set), path@),
{
    set.is_match(path)
}

/// The patterns of an optional list; a missing list has none.
pub open spec fn given_patterns(patterns: Option<Vec<String>>) -> Seq<Seq<char>> {
    match patterns {
        Some(list) => text_views(list@),
        None => Seq::empty(),
    }
}

/// The position of the first pattern that is no glob, or the length of the list
/// where all of them are.
pub open spec fn first_rejected(patterns: Seq<Seq<char>>) -> int
    decreases patterns.len(),
{
    if patterns.len() == 0 {
        0
    } else if !glob_parses(patterns[0]) {
        0
    } else {
        1 + first_rejected(patterns.drop_first())
    }
}

/// The text that an error carries where the patterns are globs one by one but
/// do not compile together.
pub open spec fn compiled_set_label() -> Seq<char> {
    "<compiled globset>"@
}

pub proof fn lemma_first_rejected(patterns: Seq<Seq<char>>)
    ensures
        0 <= first_rejected(patterns) <= patterns.len(),
        forall|i: int| 0 <= i < first_rejected(patterns) ==> glob_parses(#[trigger] patterns[i]),
        first_rejected(patterns) < patterns.len() ==> !glob_parses(
            patterns[first_rejected(patterns)],
        ),
    decreases patterns.len(),
{
    if patterns.len() > 0 && glob_parses(patterns[0]) {
        let rest = patterns.drop_first();
        lemma_first_rejected(rest);
        assert forall|i: int| 0 <= i < first_rejected(patterns) implies glob_parses(
            #[trigger] patterns[i],
        ) by {
            if i > 0 {
                assert(patterns[i] == rest[i - 1]);
            }
        }
        if first_rejected(patterns) < patterns.len() {
            assert(patterns[first_rejected(patterns)] == rest[first_rejected(rest)]);
        }
    }
}

/// The first position at which a pattern is no glob is the only one before
/// which all are and at which one is not.
pub proof fn lemma_first_rejected_is(patterns: Seq<Seq<char>>, at: int)
    requires
        0 <= at <= patterns.len(),
        forall|i: int| 0 <= i < at ==> glob_parses(#[trigger] patterns[i]),
        at < patterns.len() ==> !glob_parses(patterns[at]),
    ensures
        first_rejected(patterns) == at,
{
    lemma_first_rejected(patterns);
    let f = first_rejected(patterns);
    if f < at {
        assert(glob_parses(patterns[f]));
    } else if f > at {
        assert(glob_parses(patterns[at]));
    }
}

/// Compiles an optional list of patterns into a set.
///
/// The patterns are parsed in order, and the first that is no glob is named in
/// the error. A missing or empty list gives no set. Patterns that are globs
/// one by one but do not compile together fail under a label of their own.
pub fn build_globset(patterns: &Option<Vec<String>>) -> (built: std::result::Result<
    Option<globset::GlobSet>,
    FsError,
>)
    ensures
        ({
            let given = given_patterns(*patterns);
            let bad = first_rejected(given);
            if bad < given.len() {
                built matches Err(FsError::InvalidGlobPattern { pattern, .. }) && pattern@
                    == given[bad]
            } else if given.len() == 0 {
                built == Ok::<Option<globset::GlobSet>, FsError>(None)
            } else if !set_compiles(given) {
                built matches Err(FsError::InvalidGlobPattern { pattern, .. }) && pattern@
                    == compiled_set_label()
            } else {
                built matches Ok(Some(set)) && set_patterns(set) == given
            }
        }),
{
    let ghost given = given_patterns(*patterns);
    let mut builder = new_builder();
    let mut any = false;
    match patterns {
        Some(list) => {
            let mut i: usize = 0;
            while i < list.len()
                invariant
                    i <= list.len(),
                    given == text_views(list@),
                    given == given_patterns(*patterns),
                    any == (i > 0),
                    builder_patterns(builder) == given.take(i as int),
                    forall|k: int| 0 <= k < i ==> glob_parses(#[trigger] given[k]),
                decreases list.len() - i,
            {
                let pattern = &list[i];
                match parse_glob(pattern.as_str()) {
                    Ok(glob) => {
                        add_glob(&mut builder, glob);
                        assert(given.take(i + 1) =~= given.take(i as int).push(given[i as int]));
                    },
                    Err(source) => {
                        proof {
                            lemma_first_rejected_is(given, i as int);
                        }
                        return Err(
                            FsError::InvalidGlobPattern {
                                pattern: copy_text(pattern.as_str()),
                                source,
                            },
                        );
                    },
                }
                any = true;
                i += 1;
            }
            assert(given.take(list.len() as int) =~= given);
        },
        None => {},
    }
    proof {
        lemma_first_rejected_is(given, given.len() as int);
    }
    if any {
        match build_set(&builder) {
            Ok(set) => Ok(Some(set)),
            Err(source) => Err(
                FsError::InvalidGlobPattern { pattern: copy_text("<compiled globset>"), source },
            ),
        }
    } else {
        Ok(None)
    }
}

/// An include-filter and an exclude-filter, either of which may be missing.
#[derive(Debug)]
pub struct GlobFilterSet {
    includes: Option<globset::GlobSet>,
    excludes: Option<globset::GlobSet>,
}

impl GlobFilterSet {
    /// The patterns of the include-filter, where there is one.
    pub closed spec fn include_patterns(&self) -> Option<Seq<Seq<char>>> {
        match self.includes {
            Some(set) => Some(set_patterns(set)),
            None => None,
        }
    }

    /// The patterns of the exclude-filter, where there is one.
    pub closed spec fn exclude_patterns(&self) -> Option<Seq<Seq<char>>> {
        match self.excludes {
            Some(set) => Some(set_patterns(set)),
            None => None,
        }
    }

    /// An entry is kept when the include-filter is missing or matches it, and
    /// the exclude-filter is missing or does not match it.
    pub open spec fn keeps(&self, path: Seq<char>) -> bool {
        &&& self.include_patterns() matches Some(inc) ==> set_matches(inc, path)
        &&& self.exclude_patterns() matches Some(exc) ==> !set_matches(exc, path)
    }

    /// Compiles both lists, the include-list first. A list that is missing or
    /// empty gives no filter.
    pub fn compile(includes: &Option<Vec<String>>, excludes: &Option<Vec<String>>) -> (built:
        std::result::Result<GlobFilterSet, FsError>)
        ensures
            built is Ok <==> compiles(given_patterns(*includes)) && compiles(
                given_patterns(*excludes),
            ),
            built matches Ok(filters) ==> filters.include_patterns() == filter_of(
                given_patterns(*includes),
            ) && filters.exclude_patterns() == filter_of(given_patterns(*excludes)),
            built matches Err(e) ==> e matches FsError::InvalidGlobPattern { pattern, .. }
                && pattern@ == rejected_label(
                if compiles(given_patterns(*includes)) {
                    given_patterns(*excludes)
                } else {
                    given_patterns(*includes)
                },
            ),
    {
        proof {
            lemma_first_rejected(given_patterns(*includes));
            lemma_first_rejected(given_patterns(*excludes));
        }
        match build_globset(includes) {
            Ok(inc) => match build_globset(excludes) {
                Ok(exc) => Ok(GlobFilterSet { includes: inc, excludes: exc }),
                Err(e) => Err(e),
            },
            Err(e) => Err(e),
        }
    }

    /// Whether an entry with this path, taken relative to where the traversal
    /// began, is kept.
    pub fn is_kept(&self, path: &str) -> (kept: bool)
        ensures
            kept == self.keeps(path@),
    {
        match &self.excludes {
            Some(set) => {
                if set_is_match(set, path) {
                    return false;
                }
            },
            None => {},
        }
        match &self.includes {
            Some(set) => set_is_match(set, path),
            None => true,
        }
    }
}

/// Whether a list of patterns can be made into a filter, or needs none.
pub open spec fn compiles(given: Seq<Seq<char>>) -> bool {
    first_rejected(given) == given.len() && (given.len() > 0 ==> set_compiles(given))
}

/// The filter that a list of patterns stands for: none for the empty list.
pub open spec fn filter_of(given: Seq<Seq<char>>) -> Option<Seq<Seq<char>>> {
    if given.len() == 0 {
        None
    } else {
        Some(given)
    }
}

/// The text that the error carries for a list that cannot be made into a
/// filter.
pub open spec fn rejected_label(given: Seq<Seq<char>>) -> Seq<char> {
    if first_rejected(given) < given.len() {
        given[first_rejected(given)]
    } else {
        compiled_set_label()
    }
}

} // verus!
