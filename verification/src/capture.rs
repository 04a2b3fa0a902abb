//! Regular-expression search, done by the `regex` crate.
//!
//! Nothing in this file is proved. What the search returns is given a name,
//! and the rest of the crate is verified for every value that name may take.

use vstd::prelude::*;

verus! {

/// `regex::Error`, the reason for which an expression was not compiled. It is
/// carried, never looked into.
#[verifier::external_type_specification]
#[verifier::external_body]
pub struct ExRegexError(regex::Error);

/// Whether `regex::Regex::new` accepts `expression` under its default limits.
pub uninterp spec fn expression_compiles(expression: Seq<char>) -> bool;

/// What `regex::Regex::captures` finds for the leftmost match of a compiled
/// `expression` in `haystack`: nothing, or the text of every capture group in
/// the order of the opening parentheses, group 0 being the whole match. A
/// group that took no part in the match has no text.
pub uninterp spec fn leftmost_captures(expression: Seq<char>, haystack: Seq<char>) -> Option<
    Seq<Option<Seq<char>>>,
>;

/// The texts of a list of capture groups.
pub open spec fn group_texts(groups: Seq<Option<String>>) -> Seq<Option<Seq<char>>> {
    Seq::new(
        groups.len(),
        |i: int|
            match groups[i] {
                Some(text) => Some(text@),
                None => None,
            },
    )
}

/// The texts of what a search returned.
pub open spec fn found_texts(found: Option<Vec<Option<String>>>) -> Option<Seq<Option<Seq<char>>>> {
    match found {
        Some(groups) => Some(group_texts(groups@)),
        None => None,
    }
}

/// Compiles `expression` with `regex::Regex::new` and searches `haystack`
/// with `regex::Regex::captures`.
///
/// Trusted: the call fails exactly when the expression does not compile, and
/// otherwise returns the capture groups of the leftmost match, each copied
/// out of the haystack, or `None` where nothing matches. Both are functions of
/// the two texts alone.
#[verifier::external_body]
pub(crate) fn search(expression: &str, haystack: &str) -> (r: Result<
    Option<Vec<Option<String>>>,
    regex::Error,
>)
    ensures
        r is Ok <==> expression_compiles(expression@),
        r matches Ok(found) ==> found_texts(found) == leftmost_captures(expression@, haystack@),
{
    let compiled = regex::Regex::new(expression)?;
    let found = compiled.captures(haystack);
    Ok(found.map(|groups| groups.iter().map(|g| g.map(|m| m.as_str().to_string())).collect()))
}

} // verus!
