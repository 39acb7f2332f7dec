//! An abstract model of parsed JSON documents, and the trusted accessors the
//! manifest reader walks them with.
//!
//! serde_json's value type is opaque to the verifier, so the model gives each
//! parsed value a mathematical shape, `JsonRep`, through the two names
//! `rep_of` (the shape of a value) and `parse_rep` (the shape the parser
//! gives a text, if any). Every accessor's contract relates its result to
//! the shape, and parsing the same text always yields the same shape.

use vstd::prelude::*;

verus! {

/// The mathematical shape of a JSON value: null, a boolean, a number (with
/// its unsigned 64-bit reading, where it has one), a string, an array, or
/// an object mapping member names to values (for a repeated name, the last
/// member wins, as the parser keeps only that one).
pub enum JsonRep {
    Null,
    Bool(bool),
    Num(Option<u64>),
    Str(Seq<char>),
    Arr(Seq<JsonRep>),
    Obj(Map<Seq<char>, JsonRep>),
}

/// The shape of a parsed JSON value.
pub uninterp spec fn rep_of(v: serde_json::Value) -> JsonRep;

/// The shape the JSON parser gives a text: `None` when the text is not a
/// valid JSON document.
pub uninterp spec fn parse_rep(text: Seq<char>) -> Option<JsonRep>;

/// The member of an object shape under `key`, `None` for any other shape or
/// a missing member.
pub open spec fn field_rep(j: JsonRep, key: Seq<char>) -> Option<JsonRep> {
    match j {
        JsonRep::Obj(m) => if m.dom().contains(key) {
            Some(m[key])
        } else {
            None
        },
        _ => None,
    }
}

/// The characters of a string shape, `None` for any other shape.
pub open spec fn str_rep(o: Option<JsonRep>) -> Option<Seq<char>> {
    match o {
        Some(j) => match j {
            JsonRep::Str(s) => Some(s),
            _ => None,
        },
        None => None,
    }
}

/// The unsigned 64-bit reading of a number shape, `None` for any other
/// shape or a number without one.
pub open spec fn u64_rep(o: Option<JsonRep>) -> Option<u64> {
    match o {
        Some(j) => match j {
            JsonRep::Num(n) => n,
            _ => None,
        },
        None => None,
    }
}

/// The elements of an array shape, `None` for any other shape.
pub open spec fn arr_rep(o: Option<JsonRep>) -> Option<Seq<JsonRep>> {
    match o {
        Some(j) => match j {
            JsonRep::Arr(s) => Some(s),
            _ => None,
        },
        None => None,
    }
}

/// The shapes of a sequence of parsed values, element by element.
pub open spec fn reps_of(s: Seq<serde_json::Value>) -> Seq<JsonRep> {
    s.map_values(|v: serde_json::Value| rep_of(v))
}

/// Relies on serde_json::from_str: parses `text` as a JSON document, `Err`
/// exactly on text that is not valid JSON; parsing is a function of the
/// text alone.
#[verifier::external_body]
pub(crate) fn parse_json(text: &str) -> (r: Result<serde_json::Value, serde_json::Error>)
    ensures
        r is Ok <==> parse_rep(text@) is Some,
        r matches Ok(v) ==> parse_rep(text@) == Some(rep_of(v)),
{
    serde_json::from_str(text)
}

/// Relies on serde_json::Value::get: looks `key` up in a JSON object,
/// `None` exactly when the value is not an object or has no such member.
#[verifier::external_body]
pub(crate) fn json_get<'a>(v: &'a serde_json::Value, key: &str) -> (r: Option<
    &'a serde_json::Value,
>)
    ensures
        r is Some <==> field_rep(rep_of(*v), key@) is Some,
        r matches Some(w) ==> field_rep(rep_of(*v), key@) == Some(rep_of(*w)),
{
    v.get(key)
}

/// Relies on serde_json::Value::as_str: the borrowed characters of a JSON
/// string, `None` exactly for any other kind of value.
#[verifier::external_body]
pub(crate) fn json_str<'a>(v: &'a serde_json::Value) -> (r: Option<&'a str>)
    ensures
        r is Some <==> rep_of(*v) is Str,
        r matches Some(s) ==> rep_of(*v) == JsonRep::Str(s@),
{
    v.as_str()
}

/// Relies on serde_json::Value::as_u64: the value of a JSON number that is
/// an unsigned 64-bit integer, `None` exactly otherwise.
#[verifier::external_body]
pub(crate) fn json_u64(v: &serde_json::Value) -> (r: Option<u64>)
    ensures
        r is Some <==> (rep_of(*v) matches JsonRep::Num(n) && n is Some),
        r matches Some(n) ==> rep_of(*v) == JsonRep::Num(Some(n)),
{
    v.as_u64()
}

/// Relies on serde_json::Value::as_array: the elements of a JSON array,
/// `None` exactly for any other kind of value.
#[verifier::external_body]
pub(crate) fn json_array<'a>(v: &'a serde_json::Value) -> (r: Option<&'a Vec<serde_json::Value>>)
    ensures
        r is Some <==> rep_of(*v) is Arr,
        r matches Some(a) ==> rep_of(*v) == JsonRep::Arr(reps_of(a@)),
{
    v.as_array()
}

} // verus!
