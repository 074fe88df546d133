//! JSON values as this crate sees them: the parser's value type carried as
//! it is, and a mathematical model of what such a value holds.

use vstd::prelude::*;

verus! {

/// The JSON value type of `serde_json`, carried through without looking inside.
#[verifier::external_type_specification]
#[verifier::external_body]
pub struct ExJsonValue(serde_json::Value);

/// The error that `serde_json` reports for text that is not a JSON document.
#[verifier::external_type_specification]
#[verifier::external_body]
pub struct ExJsonError(serde_json::Error);

/// What a JSON value holds. A number stands as its text.
pub enum JsonModel {
    Null,
    Bool(bool),
    Number(Seq<char>),
    Text(Seq<char>),
    List(Seq<JsonModel>),
    Object(Map<Seq<char>, JsonModel>),
}

/// What `value` holds.
pub uninterp spec fn json_model(value: serde_json::Value) -> JsonModel;

/// The document that `bytes` spell, if they spell one.
pub uninterp spec fn json_document(bytes: Seq<u8>) -> Option<JsonModel>;

/// What each of `values` holds, in order.
pub open spec fn json_models(values: Seq<serde_json::Value>) -> Seq<JsonModel> {
    values.map_values(|value: serde_json::Value| json_model(value))
}

/// `serde_json::from_slice`, read as a whole value: it succeeds exactly on
/// the byte strings that spell a JSON document, and then returns a value
/// holding that document.
#[verifier::external_body]
pub(crate) fn parse_document(bytes: &[u8]) -> (parsed: Result<
    serde_json::Value,
    serde_json::Error,
>)
    ensures
        match parsed {
            Ok(value) => json_document(bytes@) == Some(json_model(value)),
            Err(_) => json_document(bytes@) is None,
        },
{
    serde_json::from_slice::<serde_json::Value>(bytes)
}

/// `serde_json::Value::get` with a text key: the member of that name where
/// the value is an object that has one, nothing otherwise.
#[verifier::external_body]
pub(crate) fn member<'a>(value: &'a serde_json::Value, key: &str) -> (found: Option<
    &'a serde_json::Value,
>)
    ensures
        match found {
            Some(inner) => json_model(*value) matches JsonModel::Object(members)
                && members.contains_key(key@) && members[key@] == json_model(*inner),
            None => !(json_model(*value) matches JsonModel::Object(members)
                && members.contains_key(key@)),
        },
{
    value.get(key)
}

/// `serde_json::Value::as_array`: the elements where the value is an array,
/// nothing otherwise.
pub assume_specification[ serde_json::Value::as_array ](value: &serde_json::Value) -> (found:
    Option<&Vec<serde_json::Value>>)
    ensures
        match found {
            Some(items) => json_model(*value) == JsonModel::List(json_models(items@)),
            None => !(json_model(*value) is List),
        },
;

/// `serde_json::Value::as_str`: the text where the value is a string,
/// nothing otherwise.
pub assume_specification[ serde_json::Value::as_str ](value: &serde_json::Value) -> (found: Option<
    &str,
>)
    ensures
        match found {
            Some(text) => json_model(*value) == JsonModel::Text(text@),
            None => !(json_model(*value) is Text),
        },
;

/// `Clone` of `serde_json::Value`: the copy holds what the value holds.
pub assume_specification[ <serde_json::Value as Clone>::clone ](
    value: &serde_json::Value,
) -> (copy: serde_json::Value)
    ensures
        json_model(copy) == json_model(*value),
;

/// The JSON value `true` or `false`, built with `serde_json::Value::Bool`.
#[verifier::external_body]
pub(crate) fn json_bool(flag: bool) -> (value: serde_json::Value)
    ensures
        json_model(value) == JsonModel::Bool(flag),
{
    serde_json::Value::Bool(flag)
}

} // verus!
