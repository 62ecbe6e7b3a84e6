//! What this crate has from `serde_json`.
//!
//! Nothing in this module is proved: each function here makes one call into
//! `serde_json`, and its contract is what the rest of the crate believes of
//! that call.

use serde_json::Value;
use vstd::prelude::*;

verus! {

/// `serde_json::Value`, a parsed JSON document. Nothing is known of what is
/// in one but what `text_members` names.
#[verifier::external_type_specification]
#[verifier::external_body]
pub struct ExValue(serde_json::Value);

/// `serde_json::Error`, by which a call of `serde_json` fails. Nothing is
/// known of what is in one.
#[verifier::external_type_specification]
#[verifier::external_body]
pub struct ExError(serde_json::Error);

/// The text members of a JSON value: where the value is an object, each of
/// its members whose value is a JSON string, by name. Any other value, and
/// an object without such members, has none.
pub uninterp spec fn text_members(value: serde_json::Value) -> Map<Seq<char>, Seq<char>>;

/// The text members of the JSON document that `bytes` spell, or `None` where
/// `bytes` are not one JSON document.
pub uninterp spec fn parsed_members(bytes: Seq<u8>) -> Option<Map<Seq<char>, Seq<char>>>;

/// The bytes of `text` written as a JSON string: quoted and escaped.
pub uninterp spec fn quoted(text: Seq<char>) -> Seq<u8>;

/// `serde_json::from_slice` at type `Value`. The contract claims only that
/// the outcome is a function of the bytes: whether they parse, and which text
/// members the parsed value then has.
#[verifier::external_body]
pub(crate) fn parse(bytes: &[u8]) -> (r: Result<Value, serde_json::Error>)
    ensures
        match r {
            Ok(value) => parsed_members(bytes@) == Some(text_members(value)),
            Err(_) => parsed_members(bytes@) is None,
        },
{
    serde_json::from_slice::<Value>(bytes)
}

/// `serde_json::Value::get` with a string index. The contract claims that
/// the call finds a member exactly where the value is an object that has one
/// of that name, and keeps of what it found the text of a JSON string.
#[verifier::external_body]
pub(crate) fn text_member<'a>(value: &'a Value, name: &str) -> (r: Option<&'a str>)
    ensures
        match r {
            Some(text) => text_members(*value).contains_key(name@) && text_members(*value)[name@]
                == text@,
            None => !text_members(*value).contains_key(name@),
        },
{
    match value.get(name) {
        Some(Value::String(text)) => Some(text.as_str()),
        _ => None,
    }
}

/// `serde_json::to_vec` on a `str`. The contract claims that the call
/// succeeds, since it writes into a vector and a `str` has nothing to refuse,
/// and that what it writes is a function of the text.
#[verifier::external_body]
pub(crate) fn quote(text: &str) -> (r: Result<Vec<u8>, serde_json::Error>)
    ensures
        r is Ok,
        r matches Ok(bytes) ==> bytes@ == quoted(text@),
{
    serde_json::to_vec(text)
}

} // verus!
