//! Reading JSON values: the parser and the accessors of `serde_json`, and the field
//! extraction that the webhook payloads need.

use crate::text::join3;
use vstd::prelude::*;

verus! {

/// A parsed JSON value of `serde_json`, opaque to the verifier.
#[verifier::external_type_specification]
#[verifier::external_body]
pub struct ExValue(serde_json::Value);

/// The error of `serde_json`, opaque to the verifier.
#[verifier::external_type_specification]
#[verifier::external_body]
pub struct ExJsonError(serde_json::Error);

/// The mathematical content of a JSON value.
///
/// Of a number only this is kept: whether it is an integer that fits `u64`, and which.
pub enum JsonData {
    Null,
    Bool(bool),
    Unsigned(u64),
    OtherNumber,
    Text(Seq<char>),
    List(Seq<JsonData>),
    Object(Map<Seq<char>, JsonData>),
}

impl JsonData {
    /// The member `key` of an object; `None` for a missing key and for any other value.
    pub open spec fn member(self, key: Seq<char>) -> Option<JsonData> {
        match self {
            JsonData::Object(members) => if members.contains_key(key) {
                Some(members[key])
            } else {
                None
            },
            _ => None,
        }
    }
}

/// What a `serde_json::Value` holds.
pub uninterp spec fn json_data(value: serde_json::Value) -> JsonData;

/// What `serde_json::from_slice` makes of a text: the value's content, or the error's message.
pub uninterp spec fn json_parse(text: Seq<u8>) -> Result<JsonData, Seq<char>>;

/// The message that an error of `serde_json` displays.
pub uninterp spec fn json_error_message(error: serde_json::Error) -> Seq<char>;

/// Parses a JSON text.
///
/// Wraps `serde_json::from_slice` at the type `serde_json::Value`. The contract names the
/// outcome `json_parse(text)` and ties it to what the returned value holds or to the message
/// of the returned error; it says nothing of which texts parse.
#[verifier::external_body]
pub(crate) fn parse_json(text: &[u8]) -> (parsed: Result<serde_json::Value, serde_json::Error>)
    ensures
        match parsed {
            Ok(value) => json_parse(text@) == Ok::<JsonData, Seq<char>>(json_data(value)),
            Err(error) => json_parse(text@) == Err::<JsonData, Seq<char>>(
                json_error_message(error),
            ),
        },
{
    serde_json::from_slice::<serde_json::Value>(text)
}

/// The message of a parse error.
///
/// Wraps `to_string` on `serde_json::Error`, which renders the error through its `Display`.
#[verifier::external_body]
pub(crate) fn json_error_text(error: &serde_json::Error) -> (message: String)
    ensures
        message@ == json_error_message(*error),
{
    error.to_string()
}

/// The member `key` of a JSON object.
///
/// Wraps `serde_json::Value::get` with a string index: the member where the value is an object
/// that has the key, `None` where it is no object or lacks the key.
#[verifier::external_body]
pub(crate) fn json_member<'a>(value: &'a serde_json::Value, key: &str) -> (member: Option<
    &'a serde_json::Value,
>)
    ensures
        match member {
            Some(found) => json_data(*value).member(key@) == Some(json_data(*found)),
            None => json_data(*value).member(key@) is None,
        },
{
    value.get(key)
}

/// The string that a JSON value is.
///
/// Wraps `serde_json::Value::as_str`: the text of a JSON string, `None` for any other value.
#[verifier::external_body]
pub(crate) fn json_str<'a>(value: &'a serde_json::Value) -> (text: Option<&'a str>)
    ensures
        match text {
            Some(s) => json_data(*value) == JsonData::Text(s@),
            None => !(json_data(*value) is Text),
        },
{
    value.as_str()
}

/// The unsigned integer that a JSON value is.
///
/// Wraps `serde_json::Value::as_u64`: the number where the value is an integer that fits
/// `u64`, `None` for any other value.
#[verifier::external_body]
pub(crate) fn json_u64(value: &serde_json::Value) -> (number: Option<u64>)
    ensures
        match number {
            Some(n) => json_data(*value) == JsonData::Unsigned(n),
            None => !(json_data(*value) is Unsigned),
        },
{
    value.as_u64()
}

/// Whether a JSON value is an object.
///
/// Wraps `serde_json::Value::is_object`.
#[verifier::external_body]
pub(crate) fn json_is_object(value: &serde_json::Value) -> (object: bool)
    ensures
        object == (json_data(*value) is Object),
{
    value.is_object()
}

/// What `serde_json::to_string` makes of a string: the string as a JSON text, in quotes and
/// with what needs it escaped.
pub uninterp spec fn json_quoted(text: Seq<char>) -> Seq<char>;

/// Writes a string as a JSON text.
///
/// Wraps `serde_json::to_string` at the type `str`. It writes into memory and fails only where
/// the value's own serialization fails, which that of a `str` never does: so the contract
/// promises a text, and names it `json_quoted(text)`.
#[verifier::external_body]
pub(crate) fn json_quote(text: &str) -> (quoted: Result<String, serde_json::Error>)
    ensures
        quoted is Ok,
        quoted->Ok_0@ == json_quoted(text@),
{
    serde_json::to_string(text)
}

/// A string as a JSON text: in quotes, and with what needs it escaped.
pub fn quote(text: &str) -> (quoted: String)
    ensures
        quoted@ == json_quoted(text@),
{
    match json_quote(text) {
        Ok(quoted) => quoted,
        Err(_) => vstd::pervasive::unreached(),
    }
}

/// `JSON data does not describe an object`
pub open spec fn not_an_object_message() -> Seq<char> {
    "JSON data does not describe an object"@
}

/// `The "<field>" field was not found in the JSON object.`
pub open spec fn not_found_message(field: Seq<char>) -> Seq<char> {
    "The \""@ + field + "\" field was not found in the JSON object."@
}

/// `The "<field>" field does not describe a string.`
pub open spec fn not_a_string_message(field: Seq<char>) -> Seq<char> {
    "The \""@ + field + "\" field does not describe a string."@
}

/// `The "<field>" field does not describe an unsigned integer.`
pub open spec fn not_a_number_message(field: Seq<char>) -> Seq<char> {
    "The \""@ + field + "\" field does not describe an unsigned integer."@
}

/// A value where it is an object, else the complaint.
pub open spec fn object_of(value: JsonData) -> Result<JsonData, Seq<char>> {
    if value is Object {
        Ok(value)
    } else {
        Err(not_an_object_message())
    }
}

/// The object under `field` of `object`, else the complaint.
pub open spec fn object_field(object: JsonData, field: Seq<char>) -> Result<JsonData, Seq<char>> {
    match object.member(field) {
        None => Err(not_found_message(field)),
        Some(value) => object_of(value),
    }
}

/// The string under `field` of `object`, else the complaint.
pub open spec fn string_field(object: JsonData, field: Seq<char>) -> Result<Seq<char>, Seq<char>> {
    match object.member(field) {
        None => Err(not_found_message(field)),
        Some(JsonData::Text(s)) => Ok(s),
        Some(_) => Err(not_a_string_message(field)),
    }
}

/// The unsigned integer under `field` of `object`, else the complaint.
pub open spec fn u64_field(object: JsonData, field: Seq<char>) -> Result<u64, Seq<char>> {
    match object.member(field) {
        None => Err(not_found_message(field)),
        Some(JsonData::Unsigned(n)) => Ok(n),
        Some(_) => Err(not_a_number_message(field)),
    }
}

/// The content of a result that holds a JSON value or a message.
pub open spec fn value_result(r: Result<&serde_json::Value, String>) -> Result<JsonData, Seq<char>> {
    match r {
        Ok(value) => Ok(json_data(*value)),
        Err(e) => Err(e@),
    }
}

/// The value itself where it is an object.
pub fn extract_json_object<'a>(value: &'a serde_json::Value) -> (object: Result<
    &'a serde_json::Value,
    String,
>)
    ensures
        value_result(object) == object_of(json_data(*value)),
{
    if json_is_object(value) {
        Ok(value)
    } else {
        Err("JSON data does not describe an object".to_owned())
    }
}

/// The object under `field` of `object`.
pub fn extract_json_object_named<'a>(object: &'a serde_json::Value, field: &str) -> (found: Result<
    &'a serde_json::Value,
    String,
>)
    ensures
        value_result(found) == object_field(json_data(*object), field@),
{
    match json_member(object, field) {
        None => Err(join3("The \"", field, "\" field was not found in the JSON object.")),
        Some(value) => extract_json_object(value),
    }
}

/// The string under `field` of `object`.
pub fn extract_json_string(object: &serde_json::Value, field: &str) -> (found: Result<
    String,
    String,
>)
    ensures
        match found {
            Ok(s) => string_field(json_data(*object), field@) == Ok::<Seq<char>, Seq<char>>(s@),
            Err(e) => string_field(json_data(*object), field@) == Err::<Seq<char>, Seq<char>>(e@),
        },
{
    match json_member(object, field) {
        None => Err(join3("The \"", field, "\" field was not found in the JSON object.")),
        Some(value) => match json_str(value) {
            Some(s) => Ok(s.to_owned()),
            None => Err(join3("The \"", field, "\" field does not describe a string.")),
        },
    }
}

/// The unsigned integer under `field` of `object`.
pub fn extract_json_u64(object: &serde_json::Value, field: &str) -> (found: Result<u64, String>)
    ensures
        match found {
            Ok(n) => u64_field(json_data(*object), field@) == Ok::<u64, Seq<char>>(n),
            Err(e) => u64_field(json_data(*object), field@) == Err::<u64, Seq<char>>(e@),
        },
{
    match json_member(object, field) {
        None => Err(join3("The \"", field, "\" field was not found in the JSON object.")),
        Some(value) => match json_u64(value) {
            Some(n) => Ok(n),
            None => Err(join3("The \"", field, "\" field does not describe an unsigned integer.")),
        },
    }
}

} // verus!
