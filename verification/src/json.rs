//! The JSON documents that the vault reads and writes.
//!
//! Parsing and printing are `serde_json`'s. A document is carried as a
//! `serde_json::Value`, which the verifier cannot look into: everything in this
//! file is a statement about `serde_json` that is believed, not proved.

use vstd::prelude::*;

verus! {

/// A JSON document, as `serde_json` holds it.
#[verifier::external_type_specification]
#[verifier::external_body]
pub struct ExValue(serde_json::Value);

/// The failure that `serde_json` reports when it cannot parse or print.
#[verifier::external_type_specification]
#[verifier::external_body]
pub struct ExJsonError(serde_json::Error);

/// What a document holds, as far as the vault reads it.
pub enum Content {
    /// A JSON string.
    Text(Seq<char>),
    /// A JSON number that is an integer from 0 to `u64::MAX`.
    Uint(u64),
    /// A JSON array, with its elements in order.
    List(Seq<serde_json::Value>),
    /// A JSON object, by member name.
    Record(Map<Seq<char>, serde_json::Value>),
    /// Anything else: `null`, a boolean, a negative or fractional number.
    Other,
}

/// What the document `v` holds.
pub uninterp spec fn content(v: serde_json::Value) -> Content;

/// The document that `serde_json::from_str` reads from `text`, if it reads one.
pub uninterp spec fn parsed(text: Seq<char>) -> Option<serde_json::Value>;

/// The deepest nesting of arrays and objects for which printing and parsing
/// are stated to undo each other. `serde_json` parses 127 levels.
pub const NESTING_LIMIT: u64 = 100;

/// `v` is made of strings, unsigned integers, arrays and objects only, with
/// arrays and objects nested at most `depth` deep.
pub open spec fn plain(v: serde_json::Value, depth: nat) -> bool
    decreases depth,
{
    match content(v) {
        Content::Text(_) => true,
        Content::Uint(_) => true,
        Content::List(items) => depth > 0 && forall|i: int|
            0 <= i < items.len() ==> plain(#[trigger] items[i], (depth - 1) as nat),
        Content::Record(members) => depth > 0 && forall|name: Seq<char>|
            members.contains_key(name) ==> plain(#[trigger] members[name], (depth - 1) as nat),
        Content::Other => false,
    }
}

/// `serde_json::from_str`, reading a `Value`: the document in `text`, or the
/// parser's error when `text` holds none.
#[verifier::external_body]
pub(crate) fn parse(text: &str) -> (r: Result<serde_json::Value, serde_json::Error>)
    ensures
        match r {
            Ok(v) => parsed(text@) == Some(v),
            Err(_) => parsed(text@) is None,
        },
{
    serde_json::from_str::<serde_json::Value>(text)
}

/// `serde_json::to_string` on a `Value`, for a document that is plain and
/// nested no deeper than `NESTING_LIMIT`. Two things are said of it. It
/// succeeds: `serde_json` names two causes of failure, a value that refuses to
/// be written and a member name that is no string, and a `Value` has neither;
/// the text goes to a vector in memory. And parsing the text gives the
/// document back. Of other documents nothing is said.
#[verifier::external_body]
pub(crate) fn print(v: &serde_json::Value) -> (r: Result<String, serde_json::Error>)
    ensures
        plain(*v, NESTING_LIMIT as nat) ==> r is Ok,
        r matches Ok(text) ==> (plain(*v, NESTING_LIMIT as nat) ==> parsed(text@) == Some(*v)),
{
    serde_json::to_string(v)
}

/// `serde_json::Error`'s `to_string`: the message of a failure. Nothing is
/// stated of its wording.
#[verifier::external_body]
pub(crate) fn error_text(e: &serde_json::Error) -> (r: String) {
    e.to_string()
}

/// `Value::as_array`: the elements of an array, and `None` for anything else.
pub assume_specification[ serde_json::Value::as_array ](v: &serde_json::Value) -> (r: Option<
    &Vec<serde_json::Value>,
>)
    ensures
        match r {
            Some(items) => content(*v) == Content::List(items@),
            None => !(content(*v) is List),
        },
;

/// `Value::as_str`: the text of a string, and `None` for anything else.
pub assume_specification[ serde_json::Value::as_str ](v: &serde_json::Value) -> (r: Option<&str>)
    ensures
        match r {
            Some(text) => content(*v) == Content::Text(text@),
            None => !(content(*v) is Text),
        },
;

/// `Value::as_u64`: the number, where the document is an integer that fits
/// `u64`, and `None` for anything else.
pub assume_specification[ serde_json::Value::as_u64 ](v: &serde_json::Value) -> (r: Option<u64>)
    ensures
        match r {
            Some(n) => content(*v) == Content::Uint(n),
            None => !(content(*v) is Uint),
        },
;

/// `Value::is_object`: whether the document is an object.
pub assume_specification[ serde_json::Value::is_object ](v: &serde_json::Value) -> (r: bool)
    ensures
        r == (content(*v) is Record),
;

/// `Value::get` with a member's name: the member of that name where the
/// document is an object that has one, and `None` otherwise.
#[verifier::external_body]
pub(crate) fn member<'a>(v: &'a serde_json::Value, name: &str) -> (r: Option<&'a serde_json::Value>)
    ensures
        match r {
            Some(found) => content(*v) matches Content::Record(members) && members.contains_key(
                name@,
            ) && members[name@] == *found,
            None => !(content(*v) matches Content::Record(members) && members.contains_key(name@)),
        },
{
    v.get(name)
}

/// `Value::String`: the JSON string that holds `text`.
#[verifier::external_body]
pub(crate) fn text_value(text: String) -> (r: serde_json::Value)
    ensures
        content(r) == Content::Text(text@),
{
    serde_json::Value::String(text)
}

/// `Value::from` on a `u64`: the JSON number `n`.
#[verifier::external_body]
pub(crate) fn uint_value(n: u64) -> (r: serde_json::Value)
    ensures
        content(r) == Content::Uint(n),
{
    serde_json::Value::from(n)
}

/// `Value::Array`: the JSON array of `items`, in their order.
#[verifier::external_body]
pub(crate) fn list_value(items: Vec<serde_json::Value>) -> (r: serde_json::Value)
    ensures
        content(r) == Content::List(items@),
{
    serde_json::Value::Array(items)
}

/// The names in `fields` are pairwise different.
pub open spec fn distinct_names(fields: Seq<(String, serde_json::Value)>) -> bool {
    forall|i: int, j: int|
        0 <= i < j < fields.len() ==> (#[trigger] fields[i]).0@ != (#[trigger] fields[j]).0@
}

/// `v` is an object whose members are exactly `fields`.
pub open spec fn members_are(v: serde_json::Value, fields: Seq<(String, serde_json::Value)>) -> bool {
    match content(v) {
        Content::Record(members) => {
            &&& forall|i: int|
                0 <= i < fields.len() ==> members.contains_key((#[trigger] fields[i]).0@)
                    && members[fields[i].0@] == fields[i].1
            &&& forall|name: Seq<char>| #[trigger]
                members.contains_key(name) ==> exists|i: int|
                    0 <= i < fields.len() && (#[trigger] fields[i]).0@ == name
        },
        _ => false,
    }
}

/// `Value::Object` on a `serde_json::Map` collected from `fields`: the JSON
/// object whose members are exactly `fields`. Stated for names that are
/// pairwise different, where no member replaces another.
#[verifier::external_body]
pub(crate) fn record_value(fields: Vec<(String, serde_json::Value)>) -> (r: serde_json::Value)
    requires
        distinct_names(fields@),
    ensures
        members_are(r, fields@),
{
    serde_json::Value::Object(fields.into_iter().collect())
}

} // verus!
