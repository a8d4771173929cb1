//! Matching a text against a regular expression.
use vstd::prelude::*;

verus! {

/// The text of the first capture group of the leftmost match of the regular
/// expression `pattern` in `text`: `None` where the pattern does not
/// compile, nothing matches, or the group took no part in the match.
pub uninterp spec fn regex_first_group(pattern: Seq<char>, text: Seq<char>) -> Option<Seq<char>>;

/// Compiles `pattern` with `regex::Regex::new`, searches `text` with
/// `Regex::captures` and copies the first group out.  Trusted: the result is
/// what `regex_first_group` names, a function of the two texts alone.
#[verifier::external_body]
pub(crate) fn regexFirstGroup(pattern: &str, text: &str) -> (group: Option<String>)
    ensures
        match group {
            Some(found) => regex_first_group(pattern@, text@) == Some(found@),
            None => regex_first_group(pattern@, text@) is None,
        },
{
    let compiled = match regex::Regex::new(pattern) {
        Ok(compiled) => compiled,
        Err(_) => return None,
    };
    match compiled.captures(text) {
        Some(captures) => match captures.get(1) {
            Some(found) => Some(found.as_str().to_string()),
            None => None,
        },
        None => None,
    }
}

} // verus!
