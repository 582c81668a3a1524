//! Searching report lines with regular expressions.

use vstd::prelude::*;

verus! {

/// The error of the `regex` crate for a pattern that it cannot compile.
#[verifier::external_type_specification]
#[verifier::external_body]
pub struct ExRegexError(regex::Error);

/// What the first capture group of `pattern` holds at the first match of
/// `pattern` in `text`, as `regex::Regex::captures` reports it: `None`
/// where `pattern` has no match in `text`, has one in which the group
/// takes no part, or has no capture group.
pub uninterp spec fn first_group(pattern: Seq<char>, text: Seq<char>) -> Option<Seq<char>>;

/// Whether `regex::Regex::new` compiles `pattern`. It does unless the
/// pattern is invalid or its compiled form is bigger than the default size
/// limit; the size is counted in bytes of the build at hand.
pub uninterp spec fn compiles(pattern: Seq<char>) -> bool;

/// Compiles `pattern` with `regex::Regex::new`, searches `text` with
/// `regex::Regex::captures` and hands back the text of capture group 1.
///
/// Trusted: the result is an error exactly where the pattern does not
/// compile, see [`compiles`], and else [`first_group`] of the pattern and
/// the text. Which patterns compile is not claimed.
#[verifier::external_body]
pub(crate) fn capture_first_group(pattern: &str, text: &str) -> (found: Result<
    Option<String>,
    regex::Error,
>)
    ensures
        found is Ok <==> compiles(pattern@),
        found matches Ok(group) ==> crate::model::view_of(group) == first_group(pattern@, text@),
{
    let compiled = regex::Regex::new(pattern)?;
    Ok(compiled.captures(text).and_then(|groups| groups.get(1)).map(|m| m.as_str().to_owned()))
}

/// The message of a `regex::Error`, as its `Display` writes it.
///
/// Trusted: nothing is claimed of the text.
#[verifier::external_body]
pub(crate) fn error_message(error: &regex::Error) -> String {
    format!("{}", error)
}

} // verus!
