//! Regular expressions, as far as the line classifier needs them.
//!
//! Matching is done by the `regex` crate. What a match yields is not
//! specified here beyond a name: [`captures_of`] stands for the groups of the
//! leftmost match of a pattern in a text.

use vstd::prelude::*;

verus! {

/// The compiled expression of the `regex` crate. Nothing of its inside is
/// known here.
#[verifier::external_type_specification]
#[verifier::external_body]
pub struct ExRegex(regex::Regex);

/// The error with which the `regex` crate refuses a pattern. Nothing of its
/// inside is known here.
#[verifier::external_type_specification]
#[verifier::external_body]
pub struct ExRegexError(regex::Error);

/// The pattern text that a compiled expression was built from: what
/// `regex::Regex::as_str` returns.
pub uninterp spec fn pattern_of(compiled: regex::Regex) -> Seq<char>;

/// Whether `regex::Regex::new` accepts the pattern text.
pub uninterp spec fn compiles(pattern: Seq<char>) -> bool;

/// What `regex::Regex::captures` finds of a pattern in a text: nothing where
/// the pattern matches nowhere, else the groups of the leftmost match. Group
/// 0 is the whole match, the others follow in the order of their opening
/// parentheses; a group that took no part in the match is absent.
pub uninterp spec fn captures_of(pattern: Seq<char>, text: Seq<char>) -> Option<
    Seq<Option<Seq<char>>>,
>;

/// `regex::Regex::new` compiles a pattern text. It succeeds on the texts
/// that [`compiles`] names, and the compiled expression remembers its text.
pub assume_specification[ regex::Regex::new ](re: &str) -> (r: Result<regex::Regex, regex::Error>)
    ensures
        r is Ok <==> compiles(re@),
        r matches Ok(compiled) ==> pattern_of(compiled) == re@,
;

/// The groups of the leftmost match of a compiled expression in a text.
///
/// Calls `regex::Regex::captures` and copies each group that `Captures::iter`
/// yields into a string of its own. The result depends on the pattern text
/// and the searched text alone, and is named by [`captures_of`].
#[verifier::external_body]
pub(crate) fn capture_groups(compiled: &regex::Regex, text: &str) -> (r: Option<
    Vec<Option<String>>,
>)
    ensures
        r.deep_view() == captures_of(pattern_of(*compiled), text@),
{
    compiled.captures(text).map(
        |found| found.iter().map(|group| group.map(|m| m.as_str().to_string())).collect(),
    )
}

} // verus!
