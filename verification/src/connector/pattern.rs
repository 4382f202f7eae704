//! Regular expressions on the texts that the connectors read.

use super::protocol::ParseError;
use crate::text::{option_view, trim, trim_spec};
use vstd::prelude::*;

verus! {

/// `text` with the leftmost match of the regular expression `pattern`
/// replaced by what `replacement` stands for, in which `$` refers to the
/// groups of the match, or `text` itself where nothing matches; `None`
/// where `pattern` is not a regular expression.
pub uninterp spec fn regex_replaced(
    pattern: Seq<char>,
    text: Seq<char>,
    replacement: Seq<char>,
) -> Option<Seq<char>>;

/// Whether the regular expression `pattern` matches somewhere in `text`;
/// `None` where `pattern` is not a regular expression.
pub uninterp spec fn regex_matches(pattern: Seq<char>, text: Seq<char>) -> Option<bool>;

/// `regex::Regex::replace` of the expression that `regex::Regex::new`
/// makes of `pattern`. The contract only names the result: the same three
/// texts always give the same text.
#[verifier::external_body]
fn replace(pattern: &str, text: &str, replacement: &str) -> (r: Option<String>)
    ensures
        option_view(r) == regex_replaced(pattern@, text@, replacement@),
{
    match regex::Regex::new(pattern) {
        Ok(expression) => Some(expression.replace(text, replacement).into_owned()),
        Err(_) => None,
    }
}

/// `regex::Regex::is_match` of the expression that `regex::Regex::new`
/// makes of `pattern`. The contract only names the result: the same two
/// texts always give the same answer.
#[verifier::external_body]
fn is_match(pattern: &str, text: &str) -> (r: Option<bool>)
    ensures
        r == regex_matches(pattern@, text@),
{
    match regex::Regex::new(pattern) {
        Ok(expression) => Some(expression.is_match(text)),
        Err(_) => None,
    }
}

/// What is left of a text once a replacement has been made in it and the
/// white space at its ends is gone, or the error that the pattern is none.
pub open spec fn trimmed_spec(replaced: Option<Seq<char>>) -> Result<Seq<char>, ParseError> {
    match replaced {
        Some(clean) => Ok(trim_spec(clean)),
        None => Err(ParseError::Pattern),
    }
}

/// Whether a pattern matched: it is one, and it did.
pub open spec fn matched_spec(found: Option<bool>) -> bool {
    found == Some(true)
}

/// `text` without the leftmost match of `pattern` and without the white
/// space at its ends.
pub open spec fn cleaned(pattern: Seq<char>, text: Seq<char>) -> Result<Seq<char>, ParseError> {
    trimmed_spec(regex_replaced(pattern, text, ""@))
}

/// Trims what a replacement gave.
pub fn trimmed(replaced: Option<String>) -> (r: Result<String, ParseError>)
    ensures
        match r {
            Ok(text) => trimmed_spec(option_view(replaced)) == Ok::<Seq<char>, ParseError>(text@),
            Err(e) => trimmed_spec(option_view(replaced)) == Err::<Seq<char>, ParseError>(e),
        },
{
    match replaced {
        Some(clean) => Ok(trim(clean.as_str())),
        None => Err(ParseError::Pattern),
    }
}

/// Whether a pattern matched, given what matching it gave.
pub fn matched(found: Option<bool>) -> (r: bool)
    ensures
        r == matched_spec(found),
{
    match found {
        Some(matches) => matches,
        None => false,
    }
}

/// Cuts the leftmost match of `pattern` out of `text` and trims the rest.
pub fn clean(pattern: &str, text: &str) -> (r: Result<String, ParseError>)
    ensures
        match r {
            Ok(title) => cleaned(pattern@, text@) == Ok::<Seq<char>, ParseError>(title@),
            Err(e) => cleaned(pattern@, text@) == Err::<Seq<char>, ParseError>(e),
        },
{
    trimmed(replace(pattern, text, ""))
}

/// Whether `pattern` is a regular expression that matches somewhere in
/// `text`.
pub fn occurs(pattern: &str, text: &str) -> (r: bool)
    ensures
        r == matched_spec(regex_matches(pattern@, text@)),
{
    matched(is_match(pattern, text))
}

} // verus!
