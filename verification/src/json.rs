//! What the relay takes from `serde_json`. Nothing in this file is proved: each
//! contract says what the outside function is believed to do.

use vstd::prelude::*;

verus! {

/// `serde_json::Value`, a parsed JSON document. Verus sees nothing inside it.
#[verifier::external_type_specification]
#[verifier::external_body]
pub struct ExJsonValue(serde_json::Value);

/// `serde_json::Error`, the reason a text was not accepted as JSON.
#[verifier::external_type_specification]
#[verifier::external_body]
pub struct ExJsonError(serde_json::Error);

/// The document that `serde_json::from_str` reads from `text`, or `None`
/// where it refuses the text.
pub uninterp spec fn json_parse(text: Seq<char>) -> Option<serde_json::Value>;

/// Whether `value` is a JSON object, as `serde_json::Value::is_object` tells.
pub uninterp spec fn json_is_object(value: serde_json::Value) -> bool;

/// The object `value` after `serde_json::Map::insert` has put the JSON string
/// `text` under `key`, in place of whatever stood under that key before. A
/// `value` that is no object stays as it is.
pub uninterp spec fn json_with_string(
    value: serde_json::Value,
    key: Seq<char>,
    text: Seq<char>,
) -> serde_json::Value;

/// The compact JSON text that `serde_json::Value`'s `Display` writes for `value`.
pub uninterp spec fn json_text(value: serde_json::Value) -> Seq<char>;

/// Calls `serde_json::from_str` for a `serde_json::Value`. Believed: the call
/// succeeds exactly on the texts that `json_parse` accepts, and then returns
/// the document that `json_parse` names.
#[verifier::external_body]
pub(crate) fn parse_json(text: &str) -> (parsed: Result<serde_json::Value, serde_json::Error>)
    ensures
        parsed is Ok <==> json_parse(text@) is Some,
        parsed matches Ok(value) ==> json_parse(text@) == Some(value),
{
    serde_json::from_str::<serde_json::Value>(text)
}

/// `serde_json::Value::is_object`. Believed: it answers as `json_is_object` does.
pub assume_specification[ serde_json::Value::is_object ](value: &serde_json::Value) -> (yes: bool)
    ensures
        yes == json_is_object(*value),
;

/// Calls `serde_json::Value::as_object_mut` and, on the map it gives,
/// `serde_json::Map::insert` with `key` and the JSON string `text`. Believed:
/// the value afterwards is the one that `json_with_string` names.
#[verifier::external_body]
pub(crate) fn set_string_member(value: &mut serde_json::Value, key: &str, text: &str)
    ensures
        *final(value) == json_with_string(*old(value), key@, text@),
{
    if let Some(members) = value.as_object_mut() {
        members.insert(key.to_string(), serde_json::Value::String(text.to_string()));
    }
}

/// Calls `to_string` on a `serde_json::Value`, which goes through its
/// `Display`. Believed: the result is the text that `json_text` names.
#[verifier::external_body]
pub(crate) fn json_to_text(value: &serde_json::Value) -> (text: String)
    ensures
        text@ == json_text(*value),
{
    value.to_string()
}

} // verus!
