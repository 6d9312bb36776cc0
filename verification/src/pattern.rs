//! Regular-expression searches, answered by the `regex` crate.

use vstd::prelude::*;

verus! {

/// The text of the leftmost match of the regular expression `pattern` in
/// `text`, as the `regex` crate finds it. `None` where `pattern` does not
/// compile or matches nowhere in `text`.
pub uninterp spec fn regex_first_match(pattern: Seq<char>, text: Seq<char>) -> Option<Seq<char>>;

/// `regex::Regex::new` and `Regex::find`: compiles `pattern` and searches
/// `text` for its first match. The contract only names the answer.
#[verifier::external_body]
pub(crate) fn regex_find(pattern: &str, text: &str) -> (r: Option<String>)
    ensures
        r.deep_view() == regex_first_match(pattern@, text@),
{
    let re = regex::Regex::new(pattern).ok()?;
    re.find(text).map(|m| m.as_str().to_string())
}

/// `text` with every match of the regular expression `pattern` replaced by
/// `replacement`, as the `regex` crate replaces them; `None` where `pattern`
/// does not compile.
pub uninterp spec fn regex_replaced(
    pattern: Seq<char>,
    text: Seq<char>,
    replacement: Seq<char>,
) -> Option<Seq<char>>;

/// `regex::Regex::new` and `Regex::replace_all`: compiles `pattern` and
/// replaces each of its matches in `text`. The contract only names the
/// answer.
#[verifier::external_body]
pub(crate) fn regex_replace_all(pattern: &str, text: &str, replacement: &str) -> (r: Option<String>)
    ensures
        r.deep_view() == regex_replaced(pattern@, text@, replacement@),
{
    let re = regex::Regex::new(pattern).ok()?;
    Some(re.replace_all(text, replacement).into_owned())
}

} // verus!
