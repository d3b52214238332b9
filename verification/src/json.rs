//! What this crate takes on trust from `serde_json`.
//!
//! A JSON value stays a `serde_json::Value`, which the verifier cannot look
//! into. Each way of reading one that the catalog needs has a name here, a
//! function of the value alone, and a small function that makes the call and
//! is believed to return what the name says. Nothing in this file is proved.
use vstd::prelude::*;

verus! {

#[verifier::external_type_specification]
#[verifier::external_body]
pub struct ExValue(serde_json::Value);

#[verifier::external_type_specification]
#[verifier::external_body]
pub struct ExParseError(serde_json::Error);

#[verifier::external_type_specification]
#[verifier::external_body]
#[verifier::reject_recursive_types(K)]
#[verifier::reject_recursive_types(V)]
pub struct ExObject<K, V>(serde_json::Map<K, V>);

/// What `serde_json::from_str` makes of a text that is read as a list of
/// values: the values in order, or the error.
pub uninterp spec fn json_list(text: Seq<char>) -> Result<
    Seq<serde_json::Value>,
    serde_json::Error,
>;

/// The message that a parse error displays.
pub uninterp spec fn json_diagnostic(error: serde_json::Error) -> Seq<char>;

/// The value that indexing `value` by the string `key` gives.
pub uninterp spec fn json_member(value: serde_json::Value, key: Seq<char>) -> serde_json::Value;

/// The text of a JSON string; `None` for any other value.
pub uninterp spec fn json_text(value: serde_json::Value) -> Option<Seq<char>>;

/// The truth value of a JSON boolean; `None` for any other value.
pub uninterp spec fn json_boolean(value: serde_json::Value) -> Option<bool>;

/// A JSON number as a signed 64-bit integer, where `as_i64` gives one.
pub uninterp spec fn json_integer(value: serde_json::Value) -> Option<i64>;

/// A JSON number as a double, by its IEEE 754 bit pattern, where `as_f64`
/// gives one.
pub uninterp spec fn json_double(value: serde_json::Value) -> Option<u64>;

/// The elements of a JSON array, in order; `None` for any other value.
pub uninterp spec fn json_items(value: serde_json::Value) -> Option<Seq<serde_json::Value>>;

/// The map of a JSON object; `None` for any other value.
pub uninterp spec fn json_object(value: serde_json::Value) -> Option<
    serde_json::Map<String, serde_json::Value>,
>;

/// The entries of a JSON object, key and value, in the order in which the
/// map is walked.
pub uninterp spec fn json_entries(object: serde_json::Map<String, serde_json::Value>) -> Seq<
    (Seq<char>, serde_json::Value),
>;

/// Calls `serde_json::from_str` for a `Vec<Value>`. Believed: the outcome is
/// the one that `json_list` names for the text. The parser bounds its own
/// depth and returns an error where a text is no list of JSON values.
#[verifier::external_body]
pub(crate) fn parse_list(text: &str) -> (r: Result<Vec<serde_json::Value>, serde_json::Error>)
    ensures
        match r {
            Ok(list) => json_list(text@) == Ok::<Seq<serde_json::Value>, serde_json::Error>(
                list@,
            ),
            Err(error) => json_list(text@) == Err::<Seq<serde_json::Value>, serde_json::Error>(
                error,
            ),
        },
{
    serde_json::from_str::<Vec<serde_json::Value>>(text)
}

/// Calls `to_string` on a `serde_json::Error`, which formats it by its
/// `Display`. Believed: the text is the one that `json_diagnostic` names.
#[verifier::external_body]
pub(crate) fn read_diagnostic(error: &serde_json::Error) -> (r: String)
    ensures
        r@ == json_diagnostic(*error),
{
    error.to_string()
}

/// Indexes a `Value` by a string key, `value[key]`. Believed: the result is
/// the value that `json_member` names. The index never panics: for a missing
/// key, or a value that is no object, it gives JSON null.
#[verifier::external_body]
pub(crate) fn read_member<'a>(value: &'a serde_json::Value, key: &str) -> (r: &'a serde_json::Value)
    ensures
        *r == json_member(*value, key@),
{
    &value[key]
}

/// Calls `Value::as_str`. Believed: the result is what `json_text` names.
#[verifier::external_body]
pub(crate) fn read_text<'a>(value: &'a serde_json::Value) -> (r: Option<&'a str>)
    ensures
        match r {
            Some(text) => json_text(*value) == Some(text@),
            None => json_text(*value) is None,
        },
{
    value.as_str()
}

/// Calls `Value::as_bool`. Believed: the result is what `json_boolean` names.
#[verifier::external_body]
pub(crate) fn read_boolean(value: &serde_json::Value) -> (r: Option<bool>)
    ensures
        r == json_boolean(*value),
{
    value.as_bool()
}

/// Calls `Value::as_i64`. Believed: the result is what `json_integer` names.
#[verifier::external_body]
pub(crate) fn read_integer(value: &serde_json::Value) -> (r: Option<i64>)
    ensures
        r == json_integer(*value),
{
    value.as_i64()
}

/// Calls `Value::as_f64` and takes the double's bit pattern with `to_bits`.
/// Believed: the result is what `json_double` names.
#[verifier::external_body]
pub(crate) fn read_double(value: &serde_json::Value) -> (r: Option<u64>)
    ensures
        r == json_double(*value),
{
    value.as_f64().map(|double| double.to_bits())
}

/// Calls `Value::as_array`. Believed: the result is what `json_items` names.
#[verifier::external_body]
pub(crate) fn read_items<'a>(value: &'a serde_json::Value) -> (r: Option<&'a Vec<serde_json::Value>>)
    ensures
        match r {
            Some(list) => json_items(*value) == Some(list@),
            None => json_items(*value) is None,
        },
{
    value.as_array()
}

/// Calls `Value::as_object`. Believed: the result is what `json_object`
/// names.
#[verifier::external_body]
pub(crate) fn read_object<'a>(value: &'a serde_json::Value) -> (r: Option<
    &'a serde_json::Map<String, serde_json::Value>,
>)
    ensures
        match r {
            Some(map) => json_object(*value) == Some(*map),
            None => json_object(*value) is None,
        },
{
    value.as_object()
}

/// Walks a `Map` with `Map::iter` and collects what it yields. Believed: the
/// keys and values are those that `json_entries` names, in its order.
#[verifier::external_body]
pub(crate) fn read_entries<'a>(object: &'a serde_json::Map<String, serde_json::Value>) -> (r: Vec<
    (&'a String, &'a serde_json::Value),
>)
    ensures
        r@.len() == json_entries(*object).len(),
        forall|i: int|
            0 <= i < r@.len() ==> (#[trigger] r@[i]).0@ == json_entries(*object)[i].0 && *r@[i].1
                == json_entries(*object)[i].1,
{
    object.iter().collect()
}

} // verus!
