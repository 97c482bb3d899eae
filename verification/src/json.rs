//! Trusted boundary around `serde_json`.
//!
//! Inbound signaling frames arrive as JSON text.  Each wrapper below makes
//! one `serde_json` access path — parse the text, walk to a member, convert
//! it to a plain value — and its contract names the result: the parse is
//! deterministic, so what each path yields is a function of the text and the
//! key alone.  The decode step in [`crate::frames`] states its contract over
//! these names; no contract says what a name is on given text, so concrete
//! frames reach this boundary only through the tests, which run the real
//! parser.

use vstd::prelude::*;

verus! {

/// The texts `serde_json::from_str::<serde_json::Value>` accepts as a JSON
/// document.
pub uninterp spec fn json_wf(s: Seq<char>) -> bool;

/// Relies on `serde_json::from_str::<serde_json::Value>` (deterministic;
/// returns `Err` rather than panicking): whether the text is accepted.
#[verifier::external_body]
pub(crate) fn is_json(text: &str) -> (r: bool)
    ensures
        r == json_wf(text@),
{
    serde_json::from_str::<serde_json::Value>(text).is_ok()
}

/// The top-level `key` member of the text's JSON object, when it is a
/// string.
pub uninterp spec fn top_string_of(s: Seq<char>, key: Seq<char>) -> Option<String>;

/// Relies on `serde_json::from_str`, `Value::get` and `Value::as_str`: the
/// top-level `key` member, copied out when it is a string.
#[verifier::external_body]
pub(crate) fn top_string(text: &str, key: &str) -> (r: Option<String>)
    ensures
        r == top_string_of(text@, key@),
{
    serde_json::from_str::<serde_json::Value>(text)
        .ok()
        .and_then(|v| v.get(key).and_then(|x| x.as_str()).map(|x| x.to_string()))
}

/// The top-level `key` member of the text's JSON object, when it is an
/// unsigned integer.
pub uninterp spec fn top_u64_of(s: Seq<char>, key: Seq<char>) -> Option<u64>;

/// Relies on `serde_json::from_str`, `Value::get` and `Value::as_u64`: the
/// top-level `key` member, when it is an integer representable as `u64`.
#[verifier::external_body]
pub(crate) fn top_u64(text: &str, key: &str) -> (r: Option<u64>)
    ensures
        r == top_u64_of(text@, key@),
{
    serde_json::from_str::<serde_json::Value>(text)
        .ok()
        .and_then(|v| v.get(key).and_then(|x| x.as_u64()))
}

/// The `key` member of the frame's `data` object, when it is a string.
pub uninterp spec fn data_string_of(s: Seq<char>, key: Seq<char>) -> Option<String>;

/// Relies on `serde_json::from_str`, `Value::get` and `Value::as_str`: the
/// `key` member under the top-level `data` member, copied out when it is a
/// string.
#[verifier::external_body]
pub(crate) fn data_string(text: &str, key: &str) -> (r: Option<String>)
    ensures
        r == data_string_of(text@, key@),
{
    serde_json::from_str::<serde_json::Value>(text)
        .ok()
        .and_then(|v| v.get("data").and_then(|d| d.get(key)).and_then(|x| x.as_str()).map(
            |x| x.to_string()))
}

/// The `key` member of the frame's `data` object, when it is an unsigned
/// integer.
pub uninterp spec fn data_u64_of(s: Seq<char>, key: Seq<char>) -> Option<u64>;

/// Relies on `serde_json::from_str`, `Value::get` and `Value::as_u64`: the
/// `key` member under `data`, when it is an integer representable as `u64`.
#[verifier::external_body]
pub(crate) fn data_u64(text: &str, key: &str) -> (r: Option<u64>)
    ensures
        r == data_u64_of(text@, key@),
{
    serde_json::from_str::<serde_json::Value>(text)
        .ok()
        .and_then(|v| v.get("data").and_then(|d| d.get(key)).and_then(|x| x.as_u64()))
}

/// The `key` member of the frame's `data` object, when it is a boolean.
pub uninterp spec fn data_bool_of(s: Seq<char>, key: Seq<char>) -> Option<bool>;

/// Relies on `serde_json::from_str`, `Value::get` and `Value::as_bool`: the
/// `key` member under `data`, when it is a JSON boolean.
#[verifier::external_body]
pub(crate) fn data_bool(text: &str, key: &str) -> (r: Option<bool>)
    ensures
        r == data_bool_of(text@, key@),
{
    serde_json::from_str::<serde_json::Value>(text)
        .ok()
        .and_then(|v| v.get("data").and_then(|d| d.get(key)).and_then(|x| x.as_bool()))
}

/// The length of the `key` member of the frame's `data` object, when it is
/// an array.
pub uninterp spec fn data_array_len_of(s: Seq<char>, key: Seq<char>) -> Option<usize>;

/// Relies on `serde_json::from_str`, `Value::get` and `Value::as_array`:
/// how many entries the array under `data.key` has, when it is one.
#[verifier::external_body]
pub(crate) fn data_array_len(text: &str, key: &str) -> (r: Option<usize>)
    ensures
        r == data_array_len_of(text@, key@),
{
    serde_json::from_str::<serde_json::Value>(text)
        .ok()
        .and_then(|v| v.get("data").and_then(|d| d.get(key)).and_then(|x| x.as_array()).map(
            |a| a.len()))
}

/// Entry `i` of the array under `data.key`, when that entry is an unsigned
/// integer.
pub uninterp spec fn data_u64_at_of(s: Seq<char>, key: Seq<char>, i: int) -> Option<u64>;

/// Relies on `serde_json::from_str`, `Value::get`, `Value::as_array`, slice
/// indexing and `Value::as_u64`: entry `i` of the array under `data.key`,
/// when it is an integer representable as `u64`.
#[verifier::external_body]
pub(crate) fn data_u64_at(text: &str, key: &str, i: usize) -> (r: Option<u64>)
    ensures
        r == data_u64_at_of(text@, key@, i as int),
{
    serde_json::from_str::<serde_json::Value>(text)
        .ok()
        .and_then(|v| v.get("data").and_then(|d| d.get(key)).and_then(|x| x.as_array())
            .and_then(|a| a.get(i)).and_then(|x| x.as_u64()))
}

} // verus!
