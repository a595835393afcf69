//! Searching text for patterns written as regular expressions.
//!
//! The searching itself is the work of the `regex` crate; what it finds is
//! given a name here, and the rest of the library speaks of it by that name.

use vstd::prelude::*;

verus! {

/// The first match of the regular expression `pattern` in `text`: the byte
/// offsets in the UTF-8 encoding of `text` at which the match begins and
/// ends. There is none where the pattern is not a regular expression.
pub uninterp spec fn pattern_match(pattern: Seq<char>, text: Seq<char>) -> Option<(usize, usize)>;

/// What the first capture group matched in the first match of the regular
/// expression `pattern` in `text`: the byte offsets in the UTF-8 encoding of
/// `text` at which that part begins and ends. There is none where there is
/// no match or the group took no part in it.
pub uninterp spec fn pattern_group(pattern: Seq<char>, text: Seq<char>) -> Option<(usize, usize)>;

/// `text` in lower case, by the Unicode rules that `str::to_lowercase`
/// follows.
pub uninterp spec fn lowercase(text: Seq<char>) -> Seq<char>;

/// Calls `regex::Regex::new` and, on the expression it gives,
/// `Regex::find`. The contract names the offsets of the match and claims
/// nothing else of them.
#[verifier::external_body]
pub(crate) fn regex_find(pattern: &str, text: &str) -> (out: Option<(usize, usize)>)
    ensures
        out == pattern_match(pattern@, text@),
{
    match regex::Regex::new(pattern) {
        Ok(re) => re.find(text).map(|m| (m.start(), m.end())),
        Err(_) => None,
    }
}

/// Calls `regex::Regex::new` and, on the expression it gives,
/// `Regex::captures`, and takes group one of what that finds. The contract
/// names the offsets of the group and claims nothing else of them.
#[verifier::external_body]
pub(crate) fn regex_group(pattern: &str, text: &str) -> (out: Option<(usize, usize)>)
    ensures
        out == pattern_group(pattern@, text@),
{
    match regex::Regex::new(pattern) {
        Ok(re) => re.captures(text).and_then(|c| c.get(1)).map(|m| (m.start(), m.end())),
        Err(_) => None,
    }
}

/// Calls `str::to_lowercase`. The contract names the result.
#[verifier::external_body]
pub(crate) fn to_lowercase(text: &str) -> (out: String)
    ensures
        out@ == lowercase(text@),
{
    text.to_lowercase()
}

} // verus!
