//! A mathematical model of JSON documents, and the bridge to `serde_json`.
//!
//! The library never writes JSON text itself: every value is assembled as a
//! `serde_json::Value` through the small trusted wrappers below, whose
//! contracts describe the assembled document with the [`JsonRep`] model, and
//! `serde_json` renders it to text. The one thing verified code decides is
//! *which* entries go into an object, and that decision is what the wrappers'
//! contracts pin down.

use vstd::prelude::*;

verus! {

/// What a JSON document holds, as a mathematical value.
///
/// A number is either an integer or a float; a float is carried by its bits,
/// so the model itself stays free of floating point. An object is a map from
/// key to value: the backing store that `serde_json` uses here is ordered by
/// key, so the map determines the rendered text.
pub enum JsonRep {
    Null,
    Bool { b: bool },
    Int { i: int },
    FloatBits { bits: u64 },
    Str { text: Seq<char> },
    Arr { items: Seq<JsonRep> },
    Obj { entries: Map<Seq<char>, JsonRep> },
}

#[verifier::external_type_specification]
#[verifier::external_body]
pub struct ExValue(serde_json::Value);

#[verifier::external_type_specification]
#[verifier::external_body]
pub struct ExError(serde_json::Error);

/// What a `serde_json::Value` holds, as a [`JsonRep`].
pub uninterp spec fn rep(v: serde_json::Value) -> JsonRep;

/// The text that `serde_json::to_string` renders a value of the given model
/// as. This is a function of the model alone: the object store is ordered by
/// key, so two values with equal models render to equal text.
pub uninterp spec fn text_of(r: JsonRep) -> Seq<char>;

/// What `serde_json::from_str` parses the given text into, if anything.
pub uninterp spec fn parse_of(s: Seq<char>) -> Option<JsonRep>;

/// The object holding the given (key, value) entries, a later entry
/// overwriting an earlier one with the same key.
pub open spec fn entries_map(entries: Seq<(String, serde_json::Value)>) -> Map<Seq<char>, JsonRep>
    decreases entries.len(),
{
    if entries.len() == 0 {
        Map::empty()
    } else {
        entries_map(entries.drop_last()).insert(entries.last().0@, rep(entries.last().1))
    }
}

/// Relies on `serde_json::Value::Bool`: holds exactly the given boolean.
#[verifier::external_body]
pub(crate) fn json_bool(b: bool) -> (v: serde_json::Value)
    ensures
        rep(v) == (JsonRep::Bool { b }),
{
    serde_json::Value::Bool(b)
}

/// Relies on `serde_json::Value::from` for `i64`: holds exactly the given
/// integer.
#[verifier::external_body]
pub(crate) fn json_i64(i: i64) -> (v: serde_json::Value)
    ensures
        rep(v) == (JsonRep::Int { i: i as int }),
{
    serde_json::Value::from(i)
}

/// Relies on `serde_json::Value::String`: holds exactly the given text.
#[verifier::external_body]
pub(crate) fn json_str(s: &str) -> (v: serde_json::Value)
    ensures
        rep(v) == (JsonRep::Str { text: s@ }),
{
    serde_json::Value::String(s.to_owned())
}

/// Relies on `serde_json::Value::Array`: holds exactly the given items, in
/// order.
#[verifier::external_body]
pub(crate) fn json_arr(items: Vec<serde_json::Value>) -> (v: serde_json::Value)
    ensures
        rep(v) == (JsonRep::Arr { items: items@.map_values(|x: serde_json::Value| rep(x)) }),
{
    serde_json::Value::Array(items)
}

/// Relies on `serde_json::Value::Object` and the `FromIterator` impl of
/// `serde_json::Map`, which inserts the entries in order, a later entry
/// overwriting an earlier one with the same key.
#[verifier::external_body]
pub(crate) fn json_obj(entries: Vec<(String, serde_json::Value)>) -> (v: serde_json::Value)
    ensures
        rep(v) == (JsonRep::Obj { entries: entries_map(entries@) }),
{
    serde_json::Value::Object(entries.into_iter().collect())
}

/// Relies on `Clone` for `serde_json::Value`: the clone holds what the
/// original holds.
pub assume_specification[ <serde_json::Value as Clone>::clone ](v: &serde_json::Value) -> (r:
    serde_json::Value)
    ensures
        rep(r) == rep(*v),
;

/// Relies on `serde_json::to_string`, which renders a `serde_json::Value`
/// without error: the value came out of this module's constructors, so its
/// objects are keyed by strings, the one way serialization of a
/// `serde_json::Value` could refuse.
#[verifier::external_body]
pub(crate) fn json_to_text(v: &serde_json::Value) -> (s: String)
    ensures
        s@ == text_of(rep(*v)),
{
    match serde_json::to_string(v) {
        Ok(s) => s,
        Err(_) => String::new(),
    }
}

/// Relies on `serde_json::from_str` for `serde_json::Value`: whether the text
/// parses, and into what, depends on the text alone.
#[verifier::external_body]
pub(crate) fn json_parse(s: &str) -> (r: Result<serde_json::Value, serde_json::Error>)
    ensures
        match r {
            Ok(v) => parse_of(s@) == Some(rep(v)),
            Err(_) => parse_of(s@) is None,
        },
{
    serde_json::from_str(s)
}

/// Relies on `serde_json::Value::get` with a string index: on an object it
/// looks the key up, on anything else it returns `None`.
#[verifier::external_body]
pub(crate) fn json_get<'a>(v: &'a serde_json::Value, key: &str) -> (r: Option<&'a serde_json::Value>)
    ensures
        match rep(*v) {
            JsonRep::Obj { entries } => match r {
                Some(x) => entries.contains_key(key@) && rep(*x) == entries[key@],
                None => !entries.contains_key(key@),
            },
            _ => r is None,
        },
{
    v.get(key)
}

/// Relies on `serde_json::Value::as_str`: returns the held text exactly on a
/// string value.
#[verifier::external_body]
pub(crate) fn json_as_str(v: &serde_json::Value) -> (r: Option<String>)
    ensures
        r is Some <==> rep(*v) is Str,
        r matches Some(s) ==> s@ == rep(*v)->text,
{
    v.as_str().map(|s| s.to_owned())
}

/// Relies on `serde_json::Value::as_i64`: returns the held number exactly
/// when it is an integer that fits in an `i64`, and `None` on anything else,
/// float-stored numbers included.
#[verifier::external_body]
pub(crate) fn json_as_i64(v: &serde_json::Value) -> (r: Option<i64>)
    ensures
        r matches Some(x) ==> rep(*v) == (JsonRep::Int { i: x as int }),
        r is None ==> !(rep(*v) matches JsonRep::Int { i } && i64::MIN <= i <= i64::MAX),
{
    v.as_i64()
}

/// Relies on `serde_json::Value::as_array`: returns the held items exactly on
/// an array value.
#[verifier::external_body]
pub(crate) fn json_as_array<'a>(v: &'a serde_json::Value) -> (r: Option<&'a Vec<serde_json::Value>>)
    ensures
        r is Some <==> rep(*v) is Arr,
        r matches Some(a) ==> a@.map_values(|x: serde_json::Value| rep(x)) == rep(*v)->items,
{
    v.as_array()
}

/// Appends one (key, value) entry: the object the entries then describe is
/// the old one with the key bound to the value.
pub(crate) fn push_entry(
    entries: &mut Vec<(String, serde_json::Value)>,
    key: &str,
    v: serde_json::Value,
)
    ensures
        entries_map(final(entries)@) == entries_map(old(entries)@).insert(key@, rep(v)),
{
    let ghost before = entries@;
    entries.push((key.to_owned(), v));
    proof {
        assert(entries@.drop_last() =~= before);
    }
}

} // verus!
