//! JSON values, as serde_json (through rustbasic_core) holds and writes them.

use vstd::prelude::*;

use rustbasic_core::serde_json::Value;

verus! {

/// serde_json's `Value`: a JSON document. Opaque here; the library carries
/// it and has serde_json write it out.
#[verifier::external_type_specification]
#[verifier::external_body]
pub struct ExJsonValue(Value);

/// The compact JSON text that serde_json writes for `value`.
pub uninterp spec fn json_text(value: Value) -> Seq<char>;

/// The JSON string value holding `text`.
pub uninterp spec fn json_string_value(text: Seq<char>) -> Value;

/// The JSON number value holding the unsigned integer `n`.
pub uninterp spec fn json_number_value(n: u64) -> Value;

/// The JSON object that serde_json's `Map` builds from `members`, in order.
pub uninterp spec fn json_object_value(members: Seq<(Seq<char>, Value)>) -> Value;

/// Writes `value` as compact JSON text with serde_json's `Display` for
/// `Value` (`to_string`). The contract claims only that the text is a
/// function of the value: what that text is, serde_json decides.
#[verifier::external_body]
pub fn to_json_text(value: &Value) -> (text: String)
    ensures
        text@ == json_text(*value),
{
    value.to_string()
}

/// serde_json's `Value::String`: the JSON string value holding `text`.
/// The contract claims only that the value is a function of the text.
#[verifier::external_body]
pub fn json_string(text: String) -> (value: Value)
    ensures
        value == json_string_value(text@),
{
    Value::String(text)
}

/// serde_json's `Value::from(u64)`: the JSON number value holding `n`. The
/// contract claims only that the value is a function of `n`.
#[verifier::external_body]
pub fn json_number(n: u64) -> (value: Value)
    ensures
        value == json_number_value(n),
{
    Value::from(n)
}

/// serde_json's `Map` collected from `members` (`FromIterator`), as a
/// `Value::Object`. The contract claims only that the object is a function
/// of the members in their order; serde_json decides how a later member
/// with the key of an earlier one replaces it, and in what order members
/// are written.
#[verifier::external_body]
pub fn json_object(members: Vec<(String, Value)>) -> (object: Value)
    ensures
        object == json_object_value(members@.map_values(|m: (String, Value)| (m.0@, m.1))),
{
    Value::Object(members.into_iter().collect())
}

} // verus!
