//! The JSON text columns of the `messages` table (`reasoning_details`,
//! `codex_reasoning_items`).
use vstd::prelude::*;
use crate::state::error::{Context, Error};

verus! {

/// Whether `serde_json::from_str::<serde_json::Value>` accepts `s`.
pub uninterp spec fn json_text_parses(s: Seq<char>) -> bool;

/// The value `serde_json::from_str::<serde_json::Value>` parses from `s`.
pub uninterp spec fn parsed_json_value(s: Seq<char>) -> serde_json::Value;

/// The text `serde_json::to_string` writes for `value`.
pub uninterp spec fn json_text_of(value: serde_json::Value) -> Seq<char>;

/// Calls `serde_json::from_str` into a `serde_json::Value`. Whether it
/// succeeds, and the value, are named as functions of `s` alone.
#[verifier::external_body]
fn parse_json(s: &str) -> (r: Result<serde_json::Value, serde_json::Error>)
    ensures
        r is Ok <==> json_text_parses(s@),
        r matches Ok(v) ==> v == parsed_json_value(s@),
{
    serde_json::from_str(s)
}

/// Calls `serde_json::to_string` on a `serde_json::Value`. It succeeds (a
/// `Value`'s serialization cannot fail: its map keys are strings and
/// non-finite numbers are written as `null`), and its text is named as a
/// function of `value` alone.
#[verifier::external_body]
fn value_to_json(value: &serde_json::Value) -> (r: Result<String, serde_json::Error>)
    ensures
        r is Ok,
        r matches Ok(t) ==> t@ == json_text_of(*value),
{
    serde_json::to_string(value)
}

/// Parses an optional JSON column: an absent column gives `None`, a present
/// one the value parsed from its text; text that is not JSON gives the error
/// `"{what}: {error}"`.
pub fn parse_json_column(column: Option<&str>, what: &str) -> (r: Result<
    Option<serde_json::Value>,
    Error,
>)
    ensures
        column is None ==> r is Ok,
        column matches Some(s) ==> (r is Ok <==> json_text_parses(s@)),
        r matches Ok(v) ==> (v is Some <==> column is Some),
        column matches Some(s) ==> (r matches Ok(Some(v)) ==> v == parsed_json_value(s@)),
        r is Err ==> r matches Err(Error::Message(m)),
        r matches Err(Error::Message(m)) ==> exists|t: String| m@ == what@ + ": "@ + t@,
{
    match column {
        None => Ok(None),
        Some(s) => match parse_json(s).context(what) {
            Ok(v) => Ok(Some(v)),
            Err(e) => Err(e),
        },
    }
}

/// Serializes an optional JSON value for its column: an absent value gives
/// `None`, a present one its JSON text.
pub fn json_column_text(value: Option<&serde_json::Value>, what: &str) -> (r: Result<
    Option<String>,
    Error,
>)
    ensures
        value is None ==> r is Ok,
        r matches Ok(t) ==> (t is Some <==> value is Some),
        value matches Some(v) ==> (r matches Ok(Some(t)) && t@ == json_text_of(*v)),
{
    match value {
        None => Ok(None),
        Some(v) => match value_to_json(v).context(what) {
            Ok(text) => Ok(Some(text)),
            Err(e) => Err(e),
        },
    }
}

} // verus!
