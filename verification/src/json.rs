//! JSON values as `serde_json` holds them, and what the library knows of them.
use serde_json::{Map as Fields, Number, Value};
use vstd::prelude::*;

use crate::text;

verus! {

/// A JSON value of `serde_json`, opaque to the verifier.
///
/// What it holds is given by [`json_of`].
#[verifier::external_type_specification]
#[verifier::external_body]
pub struct ExValue(serde_json::Value);

/// A JSON number of `serde_json`, opaque to the verifier.
///
/// What it holds is given by [`number_of`].
#[verifier::external_type_specification]
#[verifier::external_body]
pub struct ExNumber(serde_json::Number);

/// A map of `serde_json`, opaque to the verifier.
///
/// What a map from strings to values holds is given by [`fields_of`].
#[verifier::external_type_specification]
#[verifier::external_body]
#[verifier::reject_recursive_types(K)]
#[verifier::reject_recursive_types(V)]
pub struct ExFields<K, V>(serde_json::Map<K, V>);

/// An error of `serde_json`, opaque to the verifier.
///
/// What it says is given by [`error_text`].
#[verifier::external_type_specification]
#[verifier::external_body]
pub struct ExError(serde_json::Error);

/// The number that a JSON value holds.
pub enum JsonNumber {
    /// An integer.
    Integer(int),
    /// A number with a fraction or an exponent, by its printed form.
    Float(Seq<char>),
}

/// What a JSON value holds.
pub enum Json {
    /// `null`.
    Null,
    /// A boolean.
    Bool(bool),
    /// A number.
    Number(JsonNumber),
    /// A string.
    String(Seq<char>),
    /// An array.
    Array(Seq<Json>),
    /// An object.
    Object(Map<Seq<char>, Json>),
}

/// What `value` holds.
pub uninterp spec fn json_of(value: Value) -> Json;

/// What `number` holds.
pub uninterp spec fn number_of(number: Number) -> JsonNumber;

/// What `fields` holds.
pub uninterp spec fn fields_of(fields: Fields<String, Value>) -> Map<Seq<char>, Json>;

/// What `error` says.
pub uninterp spec fn error_text(error: serde_json::Error) -> Seq<char>;

/// What each of `values` holds.
pub open spec fn jsons_of(values: Seq<Value>) -> Seq<Json> {
    values.map_values(|value: Value| json_of(value))
}

/// What deserializing gave, or what the error says that took its place.
pub open spec fn parsed<T>(result: Result<T, serde_json::Error>) -> Result<T, Seq<char>> {
    match result {
        Ok(value) => Ok(value),
        Err(error) => Err(error_text(error)),
    }
}

/// The text of `value`: `serde_json`'s compact form.
pub uninterp spec fn json_text(value: Json) -> Seq<char>;

/// The debug text of an array of `values`, as `serde_json` writes it.
pub uninterp spec fn values_debug_text(values: Seq<Json>) -> Seq<char>;

/// The debug text of a map of `fields`, as `serde_json` writes it.
pub uninterp spec fn fields_debug_text(fields: Map<Seq<char>, Json>) -> Seq<char>;

/// A JSON value, taken apart by its kind.
pub(crate) enum Opened {
    /// `null`.
    Null,
    /// A boolean, as the value that it was.
    Bool(Value),
    /// A number, as the value that it was.
    Number(Value),
    /// A string, as the value that it was.
    String(Value),
    /// The elements of an array.
    Array(Vec<Value>),
    /// The fields of an object.
    Object(Fields<String, Value>),
}

/// Matches on `serde_json::Value`.
///
/// The variant is the kind of what the value holds, and the fields of the variant are the
/// elements of an array or the fields of an object.
#[verifier::external_body]
pub(crate) fn open_value(value: Value) -> (opened: Opened)
    ensures
        match opened {
            Opened::Null => json_of(value) == Json::Null,
            Opened::Bool(inner) => inner == value && json_of(value) is Bool,
            Opened::Number(inner) => inner == value && json_of(value) is Number,
            Opened::String(inner) => inner == value && json_of(value) is String,
            Opened::Array(values) => json_of(value) == Json::Array(jsons_of(values@)),
            Opened::Object(fields) => json_of(value) == Json::Object(fields_of(fields)),
        },
{
    match value {
        Value::Null => Opened::Null,
        Value::Bool(_) => Opened::Bool(value),
        Value::Number(_) => Opened::Number(value),
        Value::String(_) => Opened::String(value),
        Value::Array(values) => Opened::Array(values),
        Value::Object(fields) => Opened::Object(fields),
    }
}

/// `serde_json::Value::Null` holds `null`.
#[verifier::external_body]
pub(crate) fn null_value() -> (value: Value)
    ensures
        json_of(value) == Json::Null,
{
    Value::Null
}

/// `serde_json::Value::String` holds the string that it is made of.
#[verifier::external_body]
pub(crate) fn string_value(string: String) -> (value: Value)
    ensures
        json_of(value) == Json::String(string@),
{
    Value::String(string)
}

/// `serde_json::Value::Array` holds the values that it is made of, in order.
#[verifier::external_body]
pub(crate) fn array_value(values: Vec<Value>) -> (value: Value)
    ensures
        json_of(value) == Json::Array(jsons_of(values@)),
{
    Value::Array(values)
}

/// `serde_json::Value::Object` holds the fields that it is made of.
#[verifier::external_body]
pub(crate) fn object_value(fields: Fields<String, Value>) -> (value: Value)
    ensures
        json_of(value) == Json::Object(fields_of(fields)),
{
    Value::Object(fields)
}

/// `<serde_json::Value as Clone>::clone` gives the same value again.
#[verifier::external_body]
pub(crate) fn clone_value(value: &Value) -> (clone: Value)
    ensures
        clone == *value,
{
    value.clone()
}

/// `<serde_json::Map<String, Value> as Clone>::clone` gives the same map again.
#[verifier::external_body]
pub(crate) fn clone_fields(fields: &Fields<String, Value>) -> (clone: Fields<String, Value>)
    ensures
        clone == *fields,
{
    fields.clone()
}

/// `<serde_json::Number as From<u64>>::from` holds the integer that it is made of.
#[verifier::external_body]
pub(crate) fn number_from_u64(integer: u64) -> (number: Number)
    ensures
        number_of(number) == JsonNumber::Integer(integer as int),
{
    Number::from(integer)
}

/// `serde_json::Number::as_u64` gives the integer that the number holds, where it is not
/// negative.
///
/// No integer that a number holds is above the largest `u64`.
#[verifier::external_body]
pub(crate) fn number_as_u64(number: &Number) -> (integer: Option<u64>)
    ensures
        match (integer, number_of(*number)) {
            (Some(integer), JsonNumber::Integer(held)) => integer == held,
            (None, JsonNumber::Integer(held)) => held < 0,
            (Some(_), JsonNumber::Float(_)) => false,
            (None, JsonNumber::Float(_)) => true,
        },
{
    number.as_u64()
}

/// `<serde_json::Number as ToString>::to_string` gives an integer in decimal, and any other
/// number in its printed form.
#[verifier::external_body]
pub(crate) fn number_to_text(number: &Number) -> (text: String)
    ensures
        text@ == match number_of(*number) {
            JsonNumber::Integer(held) => text::signed_decimal(held),
            JsonNumber::Float(printed) => printed,
        },
{
    number.to_string()
}

/// `<serde_json::Value as ToString>::to_string` gives the text of what the value holds.
#[verifier::external_body]
pub(crate) fn value_to_text(value: &Value) -> (text: String)
    ensures
        text@ == json_text(json_of(*value)),
{
    value.to_string()
}

/// The `Debug` form of a vector of `serde_json::Value`s is a function of what they hold.
#[verifier::external_body]
pub(crate) fn values_to_debug_text(values: &Vec<Value>) -> (text: String)
    ensures
        text@ == values_debug_text(jsons_of(values@)),
{
    format!("{:?}", values)
}

/// The `Debug` form of a `serde_json::Map` is a function of what it holds.
#[verifier::external_body]
pub(crate) fn fields_to_debug_text(fields: &Fields<String, Value>) -> (text: String)
    ensures
        text@ == fields_debug_text(fields_of(*fields)),
{
    format!("{:?}", fields)
}

/// `<serde_json::Error as ToString>::to_string` gives what the error says.
#[verifier::external_body]
pub(crate) fn error_to_text(error: &serde_json::Error) -> (text: String)
    ensures
        text@ == error_text(*error),
{
    error.to_string()
}

} // verus!
