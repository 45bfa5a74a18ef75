//! The two string functions that the service takes from elsewhere: Unicode
//! lowercasing from the standard library and JSON string quoting from
//! `serde_json`. Neither is verified here. Each is given a name in
//! specifications, and a wrapper whose contract ties the call to that name.

use vstd::prelude::*;

verus! {

/// The lowercase form of `text` as `str::to_lowercase` computes it, by the
/// Unicode property `Lowercase`. It depends on `text` alone.
pub uninterp spec fn lowercased(text: Seq<char>) -> Seq<char>;

/// The JSON string literal for `text` as `serde_json::to_string` writes it:
/// the text between double quotes, with quotes, backslashes and control
/// characters escaped. It depends on `text` alone.
pub uninterp spec fn json_string(text: Seq<char>) -> Seq<char>;

/// Calls `str::to_lowercase`. Trusted: the result is the lowercase form of
/// `text`, which this crate knows only by the name `lowercased`.
#[verifier::external_body]
pub(crate) fn lowercase(text: &str) -> (lowered: String)
    ensures
        lowered@ == lowercased(text@),
{
    text.to_lowercase()
}

/// Calls `serde_json::to_string` on a string slice and drops the error's
/// details. Trusted: the call succeeds, since a string has no failing
/// serialization and the output goes to a buffer in memory, and its result is
/// the JSON literal that this crate knows by the name `json_string`.
#[verifier::external_body]
pub(crate) fn quote_json(text: &str) -> (quoted: Option<String>)
    ensures
        quoted is Some,
        quoted->Some_0@ == json_string(text@),
{
    serde_json::to_string(text).ok()
}

} // verus!
