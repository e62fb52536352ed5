//! The calls into `serde_json`.
//!
//! JSON text is read and written by `serde_json`, and a document in memory
//! is a `serde_json::Value`. Nothing in this file is proved: each function
//! is a single call into `serde_json`, and its contract restates over the
//! model of a document what the `serde_json` source does. The contracts rely
//! on `serde_json` as this crate builds it: with `preserve_order`, so that
//! an object keeps its members in the order in which they were inserted,
//! and without `arbitrary_precision`, so that a number is held in one of
//! three binary forms.

use crate::json::{is_finite_bits, Json, Number};
use vstd::prelude::*;

verus! {

#[verifier::external_type_specification]
#[verifier::external_body]
pub struct ExValue(serde_json::Value);

#[verifier::external_type_specification]
#[verifier::external_body]
pub struct ExError(serde_json::Error);

/// The document that a `serde_json::Value` holds: its variant, and under it
/// the boolean, the number, the characters, the elements in order, or the
/// members in the order in which the value's map walks them.
pub uninterp spec fn json_model(v: serde_json::Value) -> Json;

/// The documents that a sequence of values holds, in the same order.
pub open spec fn json_models(values: Seq<serde_json::Value>) -> Seq<Json> {
    Seq::new(values.len(), |i: int| json_model(values[i]))
}

/// The document that `serde_json::from_slice` reads from a text into a
/// `Value`; `None` where it rejects the text. Where the text names a member
/// of an object twice, the document holds the name once, with the later
/// value.
pub uninterp spec fn json_parse(text: Seq<u8>) -> Option<Json>;

/// The compact text that `serde_json::to_vec` writes for a `Value` that
/// holds the document.
pub uninterp spec fn json_text(doc: Json) -> Seq<u8>;

/// Calls `serde_json::from_slice` at type `Value`. Assumed: whether the text
/// is accepted, and the document of the value that comes back, depend on the
/// bytes alone; [`json_parse`] names that outcome.
#[verifier::external_body]
pub(crate) fn parse(text: &[u8]) -> (r: Result<serde_json::Value, serde_json::Error>)
    ensures
        match r {
            Ok(v) => json_parse(text@) == Some(json_model(v)),
            Err(_) => json_parse(text@) is None,
        },
{
    serde_json::from_slice::<serde_json::Value>(text)
}

/// Calls `serde_json::to_vec` at type `Value`. Assumed: it succeeds, and the
/// bytes depend on the document alone; [`json_text`] names them. It succeeds
/// because `to_vec` fails only where the value's `Serialize` impl fails of
/// its own, where a map has a key that is no string, or where the writer
/// fails: the impl of `Value` only hands its parts on, the keys of its maps
/// are `String`s, and the writer is a `Vec<u8>`.
#[verifier::external_body]
pub(crate) fn render(v: &serde_json::Value) -> (r: Result<Vec<u8>, serde_json::Error>)
    ensures
        r is Ok,
        r matches Ok(text) ==> text@ == json_text(json_model(*v)),
{
    serde_json::to_vec(v)
}

/// Calls `Value::is_object`. Assumed: true for the variant `Object` and for
/// no other.
#[verifier::external_body]
pub(crate) fn is_object(v: &serde_json::Value) -> (r: bool)
    ensures
        r == (json_model(*v) is Object),
{
    v.is_object()
}

/// Calls `Value::is_null`. Assumed: true for the variant `Null` and for no
/// other.
#[verifier::external_body]
pub(crate) fn is_null(v: &serde_json::Value) -> (r: bool)
    ensures
        r == (json_model(*v) is Null),
{
    v.is_null()
}

/// Calls `Value::get` with a string index. Assumed: for an object with a
/// member of that name, the member's value (a map holds no name twice, so it
/// is the first of that name); `None` for an object without one and for a
/// value that is no object.
#[verifier::external_body]
pub(crate) fn member<'a>(v: &'a serde_json::Value, key: &str) -> (r: Option<&'a serde_json::Value>)
    ensures
        match r {
            Some(child) => json_model(*v).member(key@) == Some(json_model(*child)),
            None => json_model(*v).member(key@) is None,
        },
{
    v.get(key)
}

/// Calls `Value::as_str`. Assumed: the characters of a string, and `None` for
/// any other value.
#[verifier::external_body]
pub(crate) fn as_text(v: &serde_json::Value) -> (r: Option<&str>)
    ensures
        match r {
            Some(s) => json_model(*v) == Json::Text(s@),
            None => !(json_model(*v) is Text),
        },
{
    v.as_str()
}

/// Calls `Value::as_u64`. Assumed: the value of a number held as a
/// non-negative integer, and `None` for any other value.
#[verifier::external_body]
pub(crate) fn as_unsigned(v: &serde_json::Value) -> (r: Option<u64>)
    ensures
        match r {
            Some(n) => json_model(*v) == Json::Number(Number::PosInt(n)),
            None => !(json_model(*v) matches Json::Number(Number::PosInt(_))),
        },
{
    v.as_u64()
}

/// Calls `Value::as_i64`. Assumed: what comes back is the value of a number
/// held as a negative integer, or of one held as a non-negative integer (up
/// to `i64::MAX`); and a number held as a negative integer gives its value.
#[verifier::external_body]
pub(crate) fn as_signed(v: &serde_json::Value) -> (r: Option<i64>)
    ensures
        match r {
            Some(n) => json_model(*v) == Json::Number(Number::NegInt(n))
                || (n >= 0 && json_model(*v) == Json::Number(Number::PosInt(n as u64))),
            None => !(json_model(*v) matches Json::Number(Number::NegInt(_))),
        },
{
    v.as_i64()
}

/// Calls `Value::as_f64` and takes the bits of the double. Assumed: every
/// number gives a double and nothing else does; a number held as a double
/// gives its own bits; and the double is finite, since a `Number` holds no
/// other and an integer converts to a finite one. Of which finite double an
/// integer gives, nothing is assumed.
#[verifier::external_body]
pub(crate) fn as_float_bits(v: &serde_json::Value) -> (r: Option<u64>)
    ensures
        r is Some <==> json_model(*v) is Number,
        json_model(*v) matches Json::Number(Number::Float(bits)) ==> r == Some(bits),
        r matches Some(bits) ==> is_finite_bits(bits),
{
    v.as_f64().map(|x| x.to_bits())
}

/// Calls `Value::as_array`. Assumed: the elements of an array, in order, and
/// `None` for any other value.
#[verifier::external_body]
pub(crate) fn elements(v: &serde_json::Value) -> (r: Option<&Vec<serde_json::Value>>)
    ensures
        match r {
            Some(items) => json_model(*v) == Json::Array(json_models(items@)),
            None => !(json_model(*v) is Array),
        },
{
    v.as_array()
}

/// Builds the variant `Value::String`. Assumed: the value holds a string
/// with the given characters.
#[verifier::external_body]
pub(crate) fn text_value(s: String) -> (v: serde_json::Value)
    ensures
        json_model(v) == Json::Text(s@),
{
    serde_json::Value::String(s)
}

/// Calls `Map::from_iter` and builds the variant `Value::Object`. Assumed:
/// the value holds an object with the given members in the given order. The
/// names must differ: the map would keep a repeated name once, with the
/// later value.
#[verifier::external_body]
pub(crate) fn object_value(members: Vec<(String, serde_json::Value)>) -> (v: serde_json::Value)
    requires
        forall|i: int, j: int|
            0 <= i < j < members@.len() ==> (#[trigger] members@[i]).0@ != (#[trigger] members@[j]).0@,
    ensures
        json_model(v) == Json::Object(
            Seq::new(members@.len(), |i: int| (members@[i].0@, json_model(members@[i].1))),
        ),
{
    serde_json::Value::Object(serde_json::Map::from_iter(members))
}

} // verus!
