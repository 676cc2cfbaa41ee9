//! Regular expressions: what the library relies on of the `regex` crate.

use vstd::prelude::*;
use vstd::string::*;

verus! {

/// `regex::Regex`, one compiled pattern.
#[verifier::external_type_specification]
#[verifier::external_body]
pub struct ExRegex(regex::Regex);

/// `regex::RegexSet`, a list of patterns that are searched for together.
#[verifier::external_type_specification]
#[verifier::external_body]
pub struct ExRegexSet(regex::RegexSet);

/// `regex::Error`, why patterns did not compile.
#[verifier::external_type_specification]
#[verifier::external_body]
pub struct ExRegexError(regex::Error);

/// The pattern that a `Regex` holds, as `Regex::as_str` gives it back.
pub uninterp spec fn regex_pattern(re: regex::Regex) -> Seq<char>;

/// The patterns that a `RegexSet` holds, in order, as `RegexSet::patterns` gives them back.
pub uninterp spec fn set_patterns(set: regex::RegexSet) -> Seq<Seq<char>>;

/// What `Regex::new` says of `pattern`: nothing where it compiles, else the text of the error.
pub uninterp spec fn pattern_error(pattern: Seq<char>) -> Option<Seq<char>>;

/// What `RegexSet::new` says of `patterns`: nothing where they compile, else the text of the
/// error.
pub uninterp spec fn set_error(patterns: Seq<Seq<char>>) -> Option<Seq<char>>;

/// Whether `pattern` matches anywhere in `text`, as `RegexSet::matches` reports it.
pub uninterp spec fn regex_matches(pattern: Seq<char>, text: Seq<char>) -> bool;

/// The strings as character sequences.
pub open spec fn views(strings: Seq<String>) -> Seq<Seq<char>> {
    strings.map_values(|s: String| s@)
}

/// Where in `patterns` those stand that match `text`, in ascending order.
pub open spec fn matching(patterns: Seq<Seq<char>>, text: Seq<char>) -> Seq<usize> {
    Seq::new(patterns.len(), |i: int| i as usize).filter(
        |i: usize| regex_matches(patterns[i as int], text),
    )
}

/// `Regex::new`. Whether it compiles `pattern`, and how the error prints where it does not, are
/// functions of `pattern` alone; a compiled `Regex` holds the pattern that it was made from.
#[verifier::external_body]
fn new_regex(pattern: &str) -> (r: Result<regex::Regex, regex::Error>)
    ensures
        r is Ok <==> pattern_error(pattern@) is None,
        r matches Ok(re) ==> regex_pattern(re) == pattern@,
        r matches Err(e) ==> forall|s: String|
            to_string_from_display_ensures(&e, s) ==> pattern_error(pattern@) == Some(s@),
{
    regex::Regex::new(pattern)
}

/// `RegexSet::new`. Whether it compiles `patterns`, and how the error prints where it does not,
/// are functions of `patterns` alone; the set holds the patterns that it was made from.
#[verifier::external_body]
fn new_regex_set(patterns: &Vec<String>) -> (r: Result<regex::RegexSet, regex::Error>)
    ensures
        r is Ok <==> set_error(views(patterns@)) is None,
        r matches Ok(set) ==> set_patterns(set) == views(patterns@),
        r matches Err(e) ==> forall|s: String|
            to_string_from_display_ensures(&e, s) ==> set_error(views(patterns@)) == Some(s@),
{
    regex::RegexSet::new(patterns)
}

/// `RegexSet::matches`: the indices of the patterns that match in `text`, ascending. Whether one
/// of them matches is a function of that pattern and `text` alone.
#[verifier::external_body]
pub(crate) fn set_matches(set: &regex::RegexSet, text: &str) -> (r: Vec<usize>)
    ensures
        r@ == Seq::new(set_patterns(*set).len(), |i: int| i as usize).filter(
            |i: usize| regex_matches(set_patterns(*set)[i as int], text@),
        ),
{
    set.matches(text).iter().collect()
}

/// Compile one pattern, or say why it does not compile.
pub fn compile(pattern: &str) -> (r: Result<regex::Regex, String>)
    ensures
        match r {
            Ok(re) => pattern_error(pattern@) is None && regex_pattern(re) == pattern@,
            Err(reason) => pattern_error(pattern@) == Some(reason@),
        },
{
    match new_regex(pattern) {
        Ok(re) => Ok(re),
        Err(e) => Err(e.to_string()),
    }
}

/// Compile several patterns into one set, or say why they do not compile.
pub fn compile_set(patterns: &Vec<String>) -> (r: Result<regex::RegexSet, String>)
    ensures
        match r {
            Ok(set) => set_error(views(patterns@)) is None && set_patterns(set) == views(
                patterns@,
            ),
            Err(reason) => set_error(views(patterns@)) == Some(reason@),
        },
{
    match new_regex_set(patterns) {
        Ok(set) => Ok(set),
        Err(e) => Err(e.to_string()),
    }
}

} // verus!
