//! Searching a text for a regular expression.

use vstd::prelude::*;

verus! {

/// The text of the leftmost match of the regular expression `pattern` in
/// `text`, as the `regex` crate finds it. `None` where nothing in `text`
/// matches, and where `pattern` is no regular expression that the crate
/// accepts.
pub uninterp spec fn regex_find(pattern: Seq<char>, text: Seq<char>) -> Option<Seq<char>>;

/// Compiles `pattern` with `regex::Regex::new` and searches `text` with
/// `Regex::find`, handing back the matched part as `Match::as_str` gives it.
///
/// Trusted: that the outcome is [`regex_find`] of the two texts, that is,
/// that it depends on nothing but them. What the match is for a given
/// pattern is not stated here.
#[verifier::external_body]
pub(crate) fn find_match(pattern: &str, text: &str) -> (found: Option<String>)
    ensures
        found.deep_view() == regex_find(pattern@, text@),
{
    match regex::Regex::new(pattern) {
        Ok(compiled) => compiled.find(text).map(|m| m.as_str().to_string()),
        Err(_) => None,
    }
}

} // verus!
