//! The regular-expression engine, as far as the log patterns use it. Nothing
//! in this file is proved: each item states what the `regex` crate documents.

use regex::Regex;
use vstd::prelude::*;

verus! {

/// A compiled regular expression of the `regex` crate.
#[verifier::external_type_specification]
#[verifier::external_body]
pub struct ExRegex(regex::Regex);

/// Why the `regex` crate refused a pattern.
#[verifier::external_type_specification]
#[verifier::external_body]
pub struct ExRegexError(regex::Error);

/// The pattern text that a compiled expression was built from, which
/// `Regex::as_str` hands back.
pub uninterp spec fn regex_source(re: &Regex) -> Seq<char>;

/// Whether a compiled expression has the settings that `Regex::new` compiles
/// with: those of a `RegexBuilder` on which nothing was set.
pub uninterp spec fn regex_default(re: &Regex) -> bool;

/// Whether `Regex::new` accepts a pattern.
pub uninterp spec fn regex_compiles(pattern: Seq<char>) -> bool;

/// Whether the expression written as `pattern`, compiled with the default
/// settings, matches anywhere in `haystack`.
pub uninterp spec fn regex_is_match(pattern: Seq<char>, haystack: Seq<char>) -> bool;

/// The capture groups of the leftmost match in `haystack` of the expression
/// written as `pattern`, compiled with the default settings: the whole match
/// first; a group that took no part in the match is `None`.
pub uninterp spec fn regex_captures(pattern: Seq<char>, haystack: Seq<char>) -> Option<
    Seq<Option<Seq<char>>>,
>;

/// `Regex::new` compiles a pattern with the default settings. It fails on a
/// pattern that is invalid or too large; the compiled expression remembers
/// the text it was given.
pub assume_specification[ regex::Regex::new ](re: &str) -> (r: Result<Regex, regex::Error>)
    ensures
        r is Ok <==> regex_compiles(re@),
        r matches Ok(compiled) ==> regex_source(&compiled) == re@,
        r matches Ok(compiled) ==> regex_default(&compiled),
;

/// `Regex::as_str` returns the pattern text that the expression was compiled from.
pub assume_specification[ regex::Regex::as_str ](re: &Regex) -> (s: &str)
    ensures
        s@ == regex_source(re),
;

/// `Regex::is_match` says whether there is a match anywhere in the haystack.
/// Of an expression compiled with the default settings the answer depends on
/// the pattern text and the haystack alone; of one compiled with other
/// settings nothing is said.
pub assume_specification[ regex::Regex::is_match ](re: &Regex, haystack: &str) -> (b: bool)
    ensures
        regex_default(re) ==> b == regex_is_match(regex_source(re), haystack@),
;

/// The views of a list of capture groups.
pub open spec fn groups_view(groups: Seq<Option<String>>) -> Seq<Option<Seq<char>>> {
    groups.map_values(
        |g: Option<String>|
            match g {
                Some(s) => Some(s@),
                None => None,
            },
    )
}

/// The view of what a search for capture groups gave.
pub open spec fn search_view(found: Option<Vec<Option<String>>>) -> Option<Seq<Option<Seq<char>>>> {
    match found {
        Some(groups) => Some(groups_view(groups@)),
        None => None,
    }
}

/// `Regex::captures` finds the leftmost match and hands out its capture
/// groups, which are copied here into owned strings in group order. Of an
/// expression compiled with the default settings they depend on the pattern
/// text and the haystack alone; of one compiled with other settings nothing
/// is said.
#[verifier::external_body]
pub(crate) fn capture_groups(re: &Regex, haystack: &str) -> (r: Option<Vec<Option<String>>>)
    ensures
        regex_default(re) ==> search_view(r) == regex_captures(regex_source(re), haystack@),
{
    let found = re.captures(haystack)?;
    Some(found.iter().map(|group| group.map(|m| m.as_str().to_string())).collect())
}

} // verus!
