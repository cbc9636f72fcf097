//! Values of JSON documents, as far as the front end reads them: settings
//! files and the extension data of diagnostics.

use crate::text::str_eq;
use vstd::prelude::*;

verus! {

/// A JSON value: a boolean, a non-negative integer that fits in `u64`, a
/// string, an array, an object of named values in document order, or
/// anything else (null, other numbers).
#[derive(Debug)]
pub enum JsonValue {
    Bool(bool),
    UInt(u64),
    Str(String),
    Array(Vec<JsonValue>),
    Object(Vec<(String, JsonValue)>),
    Other,
}

/// A JSON value as a mathematical value: strings by their characters.
pub enum JsonModel {
    Bool(bool),
    UInt(u64),
    Str(Seq<char>),
    Array(Seq<JsonModel>),
    Object(Seq<(Seq<char>, JsonModel)>),
    Other,
}

pub open spec fn json_model(v: JsonValue) -> JsonModel
    decreases v,
{
    match v {
        JsonValue::Bool(b) => JsonModel::Bool(b),
        JsonValue::UInt(n) => JsonModel::UInt(n),
        JsonValue::Str(s) => JsonModel::Str(s@),
        JsonValue::Array(a) => JsonModel::Array(values_model(a@)),
        JsonValue::Object(o) => JsonModel::Object(entries_model(o@)),
        JsonValue::Other => JsonModel::Other,
    }
}

/// The items of an array, in order, as mathematical values.
pub open spec fn values_model(s: Seq<JsonValue>) -> Seq<JsonModel>
    decreases s,
{
    if s.len() == 0 {
        Seq::empty()
    } else {
        values_model(s.drop_last()).push(json_model(s.last()))
    }
}

/// The entries of an object, in order, as mathematical values.
pub open spec fn entries_model(s: Seq<(String, JsonValue)>) -> Seq<(Seq<char>, JsonModel)>
    decreases s,
{
    if s.len() == 0 {
        Seq::empty()
    } else {
        entries_model(s.drop_last()).push((s.last().0@, json_model(s.last().1)))
    }
}

/// Appends the entry `key: value` to an object's entries.
pub fn push_entry(entries: &mut Vec<(String, JsonValue)>, key: &str, value: JsonValue)
    ensures
        entries_model(final(entries)@) == entries_model(old(entries)@).push((key@, json_model(value))),
{
    let ghost before = entries@;
    entries.push((crate::text::string_of(key), value));
    assert(entries@.drop_last() =~= before);
}

/// The value under `key` in an object: that of the first entry with that name.
pub open spec fn lookup(entries: Seq<(String, JsonValue)>, key: Seq<char>) -> Option<JsonValue>
    decreases entries.len(),
{
    if entries.len() == 0 {
        None
    } else if entries[0].0@ == key {
        Some(entries[0].1)
    } else {
        lookup(entries.drop_first(), key)
    }
}

/// The value under `key` in an object.
pub fn lookup_value<'a>(entries: &'a Vec<(String, JsonValue)>, key: &str) -> (r: Option<&'a JsonValue>)
    ensures
        match r {
            Some(v) => lookup(entries@, key@) == Some(*v),
            None => lookup(entries@, key@) is None,
        },
{
    let mut i: usize = 0;
    assert(entries@.skip(0) =~= entries@);
    while i < entries.len()
        invariant
            i <= entries.len(),
            lookup(entries@.skip(i as int), key@) == lookup(entries@, key@),
        decreases entries.len() - i,
    {
        assert(entries@.skip(i as int)[0] == entries@[i as int]);
        assert(entries@.skip(i as int).drop_first() =~= entries@.skip(i + 1));
        if str_eq(entries[i].0.as_str(), key) {
            return Some(&entries[i].1);
        }
        i += 1;
    }
    None
}

} // verus!
