//! Regular expressions, from the `regex` crate, and the full-match rule that
//! subrealm rules use.

use vstd::prelude::*;
use crate::text::concat;

verus! {

/// What `Regex::new(pattern)` and then `is_match(text)` give: whether some
/// part of `text` matches, or `None` where the pattern does not compile.
pub uninterp spec fn regex_matches(pattern: Seq<char>, text: Seq<char>) -> Option<bool>;

/// `Regex::new(pattern)`, then `is_match(text)`; `None` where the pattern
/// does not compile.
#[verifier::external_body]
pub(crate) fn regex_match(pattern: &str, text: &str) -> (r: Option<bool>)
    ensures
        r == regex_matches(pattern@, text@),
{
    match regex::Regex::new(pattern) {
        Ok(re) => Some(re.is_match(text)),
        Err(_) => None,
    }
}

/// The pattern anchored at both ends: `^pattern$`.
pub open spec fn anchored(pattern: Seq<char>) -> Seq<char> {
    "^"@ + pattern + "$"@
}

/// Whether the whole of `text` matches `pattern`: the anchored pattern
/// matches, or `None` where it does not compile.
pub open spec fn full_match(pattern: Seq<char>, text: Seq<char>) -> Option<bool> {
    regex_matches(anchored(pattern), text)
}

/// `pattern` anchored at both ends.
pub fn anchored_pattern(pattern: &str) -> (r: String)
    ensures
        r@ == anchored(pattern@),
{
    let head = concat("^", pattern);
    concat(head.as_str(), "$")
}

/// Whether the whole of `text` matches `pattern`; `None` where the pattern
/// does not compile.
pub fn regex_full_match(pattern: &str, text: &str) -> (r: Option<bool>)
    ensures
        r == full_match(pattern@, text@),
{
    let p = anchored_pattern(pattern);
    regex_match(p.as_str(), text)
}

} // verus!
