//! The boundary to `serde_json`: JSON values are carried as `serde_json::Value`
//! and described to the verifier by a mathematical document model. Everything
//! in this module that calls into `serde_json` is assumed, not proved.

use vstd::prelude::*;

verus! {

/// The mathematical content of a JSON value.
///
/// A number is modelled by its value where it is an unsigned integer of at
/// most 64 bits, and by `None` for every other number (negative or fractional).
pub enum Doc {
    Null,
    Bool(bool),
    Number(Option<u64>),
    Text(Seq<char>),
    Array(Seq<Doc>),
    Object(Map<Seq<char>, Doc>),
}

/// `serde_json::Value`, opaque to the verifier.
#[verifier::external_type_specification]
#[verifier::external_body]
pub struct ExValue(serde_json::Value);

/// `serde_json::Error`, opaque to the verifier.
#[verifier::external_type_specification]
#[verifier::external_body]
pub struct ExError(serde_json::Error);

/// The document that a `serde_json::Value` holds.
pub uninterp spec fn doc(value: serde_json::Value) -> Doc;

/// What `serde_json::from_slice::<Value>` makes of a byte string: the document
/// it reads, or `None` where it reports an error.
pub uninterp spec fn json_parse(bytes: Seq<u8>) -> Option<Doc>;

/// The bytes that `serde_json::to_vec` writes for a value holding the given
/// document, where the document is `printable`.
pub uninterp spec fn json_text(document: Doc) -> Seq<u8>;

/// The documents of a sequence of values, item by item.
pub open spec fn docs(values: Seq<serde_json::Value>) -> Seq<Doc> {
    Seq::new(values.len(), |i: int| doc(values[i]))
}

/// Whether a document nests arrays and objects at most `depth` deep and holds
/// no number other than unsigned 64-bit integers.
pub open spec fn printable(document: Doc, depth: nat) -> bool
    decreases depth,
{
    match document {
        Doc::Number(n) => n is Some,
        Doc::Array(items) => depth > 0 && forall|i: int|
            0 <= i < items.len() ==> printable(#[trigger] items[i], (depth - 1) as nat),
        Doc::Object(fields) => depth > 0 && forall|k: Seq<char>|
            fields.contains_key(k) ==> printable(#[trigger] fields[k], (depth - 1) as nat),
        _ => true,
    }
}

/// Calls `serde_json::from_slice::<Value>`. Assumed: the outcome is a function
/// of the bytes alone, named `json_parse`; on success the value returned holds
/// the document so named.
#[verifier::external_body]
pub(crate) fn parse(bytes: &[u8]) -> (r: Result<serde_json::Value, serde_json::Error>)
    ensures
        match r {
            Ok(value) => json_parse(bytes@) == Some(doc(value)),
            Err(_) => json_parse(bytes@) is None,
        },
{
    serde_json::from_slice::<serde_json::Value>(bytes)
}

/// Calls `serde_json::to_vec` on a value. Assumed: for a value of bounded
/// nesting whose numbers are all unsigned integers, the call succeeds and the
/// bytes written are a function of the document alone, named `json_text`.
///
/// The serializer fails only where its writer fails or where a map has a key
/// that is no string. Here the writer is a `Vec<u8>`, to which every write
/// succeeds, and the keys of a `Value` are `String`s.
#[verifier::external_body]
pub(crate) fn print(value: &serde_json::Value) -> (r: Result<Vec<u8>, serde_json::Error>)
    requires
        printable(doc(*value), 8),
    ensures
        r is Ok,
        r matches Ok(bytes) ==> bytes@ == json_text(doc(*value)),
{
    serde_json::to_vec(value)
}

/// Builds `Value::String` from a copy of the text.
#[verifier::external_body]
pub(crate) fn text(s: &str) -> (r: serde_json::Value)
    ensures
        doc(r) == Doc::Text(s@),
{
    serde_json::Value::String(s.to_owned())
}

/// Calls `Value::from(u64)`: the number with that unsigned value.
#[verifier::external_body]
pub(crate) fn number(n: u64) -> (r: serde_json::Value)
    ensures
        doc(r) == Doc::Number(Some(n)),
{
    serde_json::Value::from(n)
}

/// Builds `Value::Bool`.
#[verifier::external_body]
pub(crate) fn boolean(b: bool) -> (r: serde_json::Value)
    ensures
        doc(r) == Doc::Bool(b),
{
    serde_json::Value::Bool(b)
}

/// Builds `Value::Array` from the items, in their order.
#[verifier::external_body]
pub(crate) fn array(items: Vec<serde_json::Value>) -> (r: serde_json::Value)
    ensures
        doc(r) == Doc::Array(docs(items@)),
{
    serde_json::Value::Array(items)
}

/// Builds `Value::Object` around `serde_json::Map::new()`: the object without
/// fields.
#[verifier::external_body]
pub(crate) fn empty_object() -> (r: serde_json::Value)
    ensures
        doc(r) == Doc::Object(Map::<Seq<char>, Doc>::empty()),
{
    serde_json::Value::Object(serde_json::Map::new())
}

/// Calls `serde_json::Map::insert` on the map of an object: the field is added,
/// or replaces the field of the same key; the other fields stay.
#[verifier::external_body]
pub(crate) fn set_field(object: &mut serde_json::Value, key: &str, value: serde_json::Value)
    requires
        doc(*old(object)) is Object,
    ensures
        doc(*final(object)) == Doc::Object(doc(*old(object))->Object_0.insert(key@, doc(value))),
{
    if let serde_json::Value::Object(fields) = object {
        fields.insert(key.to_owned(), value);
    }
}

/// Calls `Value::get` with a string key: the field of that key where the value
/// is an object that has it, `None` otherwise.
#[verifier::external_body]
pub(crate) fn field<'a>(value: &'a serde_json::Value, key: &str) -> (r: Option<&'a serde_json::Value>)
    ensures
        match r {
            Some(inner) => has_field(doc(*value), key@) && doc(*inner) == doc(*value)->Object_0[key@],
            None => !has_field(doc(*value), key@),
        },
{
    value.get(key)
}

/// Whether a document is an object with a field of the given key.
pub open spec fn has_field(document: Doc, key: Seq<char>) -> bool {
    document is Object && document->Object_0.contains_key(key)
}

/// Calls `Value::as_object` and `serde_json::Map::len`: the number of fields
/// of an object, `None` for any other value. An object has finitely many
/// fields.
#[verifier::external_body]
pub(crate) fn field_count(value: &serde_json::Value) -> (r: Option<usize>)
    ensures
        match r {
            Some(n) => doc(*value) is Object && doc(*value)->Object_0.dom().finite()
                && doc(*value)->Object_0.dom().len() == n,
            None => !(doc(*value) is Object),
        },
{
    match value.as_object() {
        Some(fields) => Some(fields.len()),
        None => None,
    }
}

/// Calls `Value::as_u64`: the value of a number that is an unsigned integer of
/// at most 64 bits, `None` for any other value.
#[verifier::external_body]
pub(crate) fn as_unsigned(value: &serde_json::Value) -> (r: Option<u64>)
    ensures
        match r {
            Some(n) => doc(*value) == Doc::Number(Some(n)),
            None => !(doc(*value) is Number) || doc(*value)->Number_0 is None,
        },
{
    value.as_u64()
}

/// Calls `Value::as_bool`: the truth value of a boolean, `None` for any other
/// value.
#[verifier::external_body]
pub(crate) fn as_boolean(value: &serde_json::Value) -> (r: Option<bool>)
    ensures
        match r {
            Some(b) => doc(*value) == Doc::Bool(b),
            None => !(doc(*value) is Bool),
        },
{
    value.as_bool()
}

/// Calls `Value::as_str`: the text of a string, `None` for any other value.
#[verifier::external_body]
pub(crate) fn as_text<'a>(value: &'a serde_json::Value) -> (r: Option<&'a str>)
    ensures
        match r {
            Some(s) => doc(*value) == Doc::Text(s@),
            None => !(doc(*value) is Text),
        },
{
    value.as_str()
}

/// Calls `Value::as_array`: the items of an array in their order, `None` for
/// any other value.
#[verifier::external_body]
pub(crate) fn as_items<'a>(value: &'a serde_json::Value) -> (r: Option<&'a Vec<serde_json::Value>>)
    ensures
        match r {
            Some(items) => doc(*value) == Doc::Array(docs(items@)),
            None => !(doc(*value) is Array),
        },
{
    value.as_array()
}

} // verus!
