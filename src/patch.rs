//! A final normalization pass over rendered text: whitespace inside empty brackets,
//! spacing before separators, trailing blanks and runs of blank lines.

use vstd::prelude::*;
use vstd::string::*;

verus! {

// Whether `regex::Regex::new` accepts `pattern`.
pub uninterp spec fn regex_accepts(pattern: Seq<char>) -> bool;

// What `regex::Regex::replace_all` returns on `haystack`, for the regex compiled from
// `pattern`, with every match replaced by `replacement` taken literally.
pub uninterp spec fn regex_replaced(
    pattern: Seq<char>,
    haystack: Seq<char>,
    replacement: Seq<char>,
) -> Seq<char>;

/// Relies on `regex::Regex::new`, which reports whether it accepts `pattern`, and on
/// `regex::Regex::replace_all` with a `regex::NoExpand` replacement, which replaces every
/// non-overlapping match in `haystack` by `replacement` verbatim; `None` where the pattern
/// is refused.
#[verifier::external_body]
fn replace_all_matches(pattern: &str, haystack: &str, replacement: &str) -> (r: Option<String>)
    ensures
        r is Some <==> regex_accepts(pattern@),
        r matches Some(t) ==> t@ == regex_replaced(pattern@, haystack@, replacement@),
{
    match regex::Regex::new(pattern) {
        Ok(re) => Some(re.replace_all(haystack, regex::NoExpand(replacement)).into_owned()),
        Err(_) => None,
    }
}

/// `text` with the matches of `pattern` replaced; unchanged where the pattern is refused.
pub open spec fn rewritten(pattern: Seq<char>, replacement: Seq<char>, text: Seq<char>) -> Seq<
    char,
> {
    if regex_accepts(pattern) {
        regex_replaced(pattern, text, replacement)
    } else {
        text
    }
}

/// The normalization of `s`: each rule applied once over the whole text, in order.
pub open spec fn patched(s: Seq<char>) -> Seq<char> {
    let s1 = rewritten("\\{\\s+\\}"@, "{}"@, s);
    let s2 = rewritten("\\[\\s+\\]"@, "[]"@, s1);
    let s3 = rewritten("[ \\t]+;"@, ";"@, s2);
    let s4 = rewritten("[ \\t]+:[ \\t]+"@, ": "@, s3);
    let s5 = rewritten("[ \\t]+\\n"@, "\n"@, s4);
    rewritten("\\n\\n+"@, "\n"@, s5)
}

/// Applies one rule; leaves `text` as it is where the rule's pattern is refused.
fn rewrite(pattern: &str, replacement: &str, text: String) -> (r: String)
    ensures
        r@ == rewritten(pattern@, replacement@, text@),
{
    match replace_all_matches(pattern, text.as_str(), replacement) {
        Some(t) => t,
        None => text,
    }
}

/// Normalizes rendered text: whitespace inside an empty brace or bracket pair is dropped,
/// blanks before `;` are dropped, a colon gets one space after it and none before, blanks at
/// the end of a line are dropped, and a run of line breaks becomes one.
pub fn patch(s: &str) -> (r: String)
    ensures
        r@ == patched(s@),
{
    let t = String::from_str(s);
    let t = rewrite("\\{\\s+\\}", "{}", t);
    let t = rewrite("\\[\\s+\\]", "[]", t);
    let t = rewrite("[ \\t]+;", ";", t);
    let t = rewrite("[ \\t]+:[ \\t]+", ": ", t);
    let t = rewrite("[ \\t]+\\n", "\n", t);
    rewrite("\\n\\n+", "\n", t)
}

} // verus!
