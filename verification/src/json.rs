//! A mathematical model of JSON values, and trusted access to the generic
//! JSON values of the `serde_json` crate through that model.
//!
//! Every fact the rest of the library knows about a `serde_json::Value`
//! flows through the contracts in this module: each wrapper states, over the
//! model, what the named `serde_json` function returns.

use vstd::prelude::*;

verus! {

/// The model of one JSON value.
///
/// Numbers are split by whether the reader can hand them out as an unsigned
/// 64-bit integer; nothing else about a number matters to this library.
pub enum Jv {
    Null,
    Bool { b: bool },
    UInt { n: u64 },
    NonUInt,
    Str { s: Seq<char> },
    Arr { elems: Seq<Jv> },
    Obj { fields: Map<Seq<char>, Jv> },
}

/// Declares `serde_json::Value`, the generic JSON value this library reads.
#[verifier::external_type_specification]
#[verifier::external_body]
pub struct ExJsonValue(serde_json::Value);

/// Declares `serde_json::Error`, the error the JSON parser reports.
#[verifier::external_type_specification]
#[verifier::external_body]
pub struct ExJsonError(serde_json::Error);

/// What a `serde_json::Value` holds, as a `Jv`.
pub uninterp spec fn json_model(v: serde_json::Value) -> Jv;

/// The JSON document that a piece of text denotes, if the text is valid JSON.
pub uninterp spec fn json_doc_of(s: Seq<char>) -> Option<Jv>;

/// Relies on `serde_json::from_str::<serde_json::Value>`: the text parses to
/// one JSON value, or fails, depending on the text alone.
#[verifier::external_body]
pub(crate) fn parse_json(s: &str) -> (r: Result<serde_json::Value, serde_json::Error>)
    ensures
        (r is Ok <==> json_doc_of(s@) is Some),
        r is Ok ==> json_model(r->Ok_0) == json_doc_of(s@)->Some_0,
{
    serde_json::from_str(s)
}

/// Relies on `serde_json::Value::get` with a string index: on an object it
/// looks the key up, on every other value it returns `None`.
#[verifier::external_body]
pub(crate) fn jv_get<'a>(v: &'a serde_json::Value, key: &str) -> (r: Option<
    &'a serde_json::Value,
>)
    ensures
        match json_model(*v) {
            Jv::Obj { fields } => {
                &&& (r is Some <==> fields.dom().contains(key@))
                &&& r is Some ==> json_model(*r->Some_0) == fields[key@]
            },
            _ => r is None,
        },
{
    v.get(key)
}

/// Relies on `serde_json::Value::as_str`: `Some` exactly on a JSON string,
/// returning its characters.
#[verifier::external_body]
pub(crate) fn jv_as_str<'a>(v: &'a serde_json::Value) -> (r: Option<&'a str>)
    ensures
        (r is Some <==> json_model(*v) is Str),
        r is Some ==> r->Some_0@ == json_model(*v)->s,
{
    v.as_str()
}

/// Relies on `serde_json::Value::as_u64`: `Some` exactly on a JSON number
/// that the crate represents as an unsigned 64-bit integer.
#[verifier::external_body]
pub(crate) fn jv_as_u64(v: &serde_json::Value) -> (r: Option<u64>)
    ensures
        (r is Some <==> json_model(*v) is UInt),
        r is Some ==> r->Some_0 == json_model(*v)->n,
{
    v.as_u64()
}

/// Relies on `serde_json::Value::as_array`: `Some` exactly on a JSON array,
/// returning its elements in order.
#[verifier::external_body]
pub(crate) fn jv_as_array<'a>(v: &'a serde_json::Value) -> (r: Option<
    &'a Vec<serde_json::Value>,
>)
    ensures
        (r is Some <==> json_model(*v) is Arr),
        r is Some ==> {
            let elems = json_model(*v)->elems;
            &&& r->Some_0@.len() == elems.len()
            &&& forall|i: int|
                0 <= i < elems.len() ==> #[trigger] json_model(r->Some_0@[i]) == elems[i]
        },
{
    v.as_array()
}

/// The named field of a JSON object model, if it is present and a string.
pub open spec fn obj_str(fields: Map<Seq<char>, Jv>, k: Seq<char>) -> Option<Seq<char>> {
    if fields.dom().contains(k) && fields[k] is Str {
        Some(fields[k]->s)
    } else {
        None
    }
}

/// The named field of a JSON object model, if it is present and an unsigned
/// 64-bit number.
pub open spec fn obj_u64(fields: Map<Seq<char>, Jv>, k: Seq<char>) -> Option<u64> {
    if fields.dom().contains(k) && fields[k] is UInt {
        Some(fields[k]->n)
    } else {
        None
    }
}

/// The named field of a JSON object model, if it is present and an array.
pub open spec fn obj_arr(fields: Map<Seq<char>, Jv>, k: Seq<char>) -> Option<Seq<Jv>> {
    if fields.dom().contains(k) && fields[k] is Arr {
        Some(fields[k]->elems)
    } else {
        None
    }
}

} // verus!
