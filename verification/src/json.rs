use vstd::prelude::*;

verus! {

/// A parsed JSON document of `serde_json`. Its inside is not visible
/// here: it is read through the three functions below.
#[verifier::external_type_specification]
#[verifier::external_body]
pub struct ExJsonValue(serde_json::Value);

/// The member that `serde_json::Value::get` finds under a text key:
/// none where the value is no object or has no such key.
pub uninterp spec fn json_member(value: serde_json::Value, key: Seq<char>) -> Option<
    serde_json::Value,
>;

/// What `serde_json::Value::is_object` answers.
pub uninterp spec fn json_is_object(value: serde_json::Value) -> bool;

/// What `serde_json::Value::as_u64` returns: the number, where the
/// value is a non-negative integer that fits 64 bits.
pub uninterp spec fn json_unsigned(value: serde_json::Value) -> Option<u64>;

/// Calls `serde_json::Value::get` with a text key. The result is a
/// function of the value and the key alone; it is named, not described.
#[verifier::external_body]
pub(crate) fn member<'a>(value: &'a serde_json::Value, key: &str) -> (found: Option<
    &'a serde_json::Value,
>)
    ensures
        found.is_some() == json_member(*value, key@).is_some(),
        found.is_some() ==> *found.unwrap() == json_member(*value, key@).unwrap(),
{
    value.get(key)
}

/// Calls `serde_json::Value::is_object`.
#[verifier::external_body]
pub(crate) fn is_object(value: &serde_json::Value) -> (answer: bool)
    ensures
        answer == json_is_object(*value),
{
    value.is_object()
}

/// Calls `serde_json::Value::as_u64`.
#[verifier::external_body]
pub(crate) fn unsigned(value: &serde_json::Value) -> (number: Option<u64>)
    ensures
        number == json_unsigned(*value),
{
    value.as_u64()
}

/// A JSON object of `serde_json`: text keys with a value each.
#[verifier::external_type_specification]
#[verifier::external_body]
#[verifier::reject_recursive_types(K)]
#[verifier::reject_recursive_types(V)]
pub struct ExJsonObject<K, V>(serde_json::Map<K, V>);

/// The JSON objects of this library: keys are texts.
pub type JsonObject = serde_json::Map<String, serde_json::Value>;

/// What a JSON object holds: the value under each key.
pub uninterp spec fn json_entries(object: JsonObject) -> Map<
    Seq<char>,
    serde_json::Value,
>;

/// The JSON string that `serde_json::Value::from` makes of a text.
pub uninterp spec fn json_text(text: Seq<char>) -> serde_json::Value;

/// The JSON number that `serde_json::Value::from` makes of an unsigned
/// integer.
pub uninterp spec fn json_number(n: nat) -> serde_json::Value;

/// The text that `serde_json::to_string` writes for an object with the
/// given entries, where it writes one.
pub uninterp spec fn json_object_text(entries: Map<Seq<char>, serde_json::Value>) -> Option<
    Seq<char>,
>;

/// Calls `serde_json::Map::new`: an object without entries.
#[verifier::external_body]
pub(crate) fn new_object() -> (made: JsonObject)
    ensures
        json_entries(made) =~= Map::empty(),
{
    serde_json::Map::new()
}

/// Calls `serde_json::Map::insert`: afterwards the key holds the value,
/// whether it was there before or not, and the other entries are as
/// they were.
#[verifier::external_body]
pub(crate) fn put(object: &mut JsonObject, key: &str, value: serde_json::Value)
    ensures
        json_entries(*final(object)) == json_entries(*old(object)).insert(key@, value),
{
    object.insert(key.to_string(), value);
}

/// Calls `serde_json::Value::from` on a text.
#[verifier::external_body]
pub(crate) fn text_value(text: &str) -> (value: serde_json::Value)
    ensures
        value == json_text(text@),
{
    serde_json::Value::from(text)
}

/// Calls `serde_json::Value::from` on an unsigned integer.
#[verifier::external_body]
pub(crate) fn number_value(n: usize) -> (value: serde_json::Value)
    ensures
        value == json_number(n as nat),
{
    serde_json::Value::from(n)
}

/// Calls `clone` on a `serde_json::Value`: the copy is the same
/// document.
#[verifier::external_body]
pub(crate) fn copy_value(value: &serde_json::Value) -> (copy: serde_json::Value)
    ensures
        copy == *value,
{
    value.clone()
}

/// Calls `serde_json::to_string` on an object. The text depends on the
/// entries alone; a failure to write gives no text.
#[verifier::external_body]
pub(crate) fn object_text(object: &JsonObject) -> (text: Option<String>)
    ensures
        text.is_some() == json_object_text(json_entries(*object)).is_some(),
        text.is_some() ==> text.unwrap()@ == json_object_text(json_entries(*object)).unwrap(),
{
    serde_json::to_string(object).ok()
}

} // verus!
