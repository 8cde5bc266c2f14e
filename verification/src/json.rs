//! The boundary to `serde_json`.
//!
//! Everything this library knows about JSON text comes from the items in this
//! file. Their contracts are taken from `serde_json` as it is built with its
//! default features; none of them is proved here.

use serde_json::Value;
use vstd::prelude::*;

verus! {

/// What a JSON value holds, as far as this library reads it.
///
/// Strings, integers that fit `i64`, `null` and objects are kept exactly.
/// Booleans, arrays and all other numbers are `Other`.
pub enum JsonDoc {
    Null,
    Text(Seq<char>),
    Int(i64),
    Object(Map<Seq<char>, JsonDoc>),
    Other,
}

/// `serde_json::Value`, a JSON value. Nothing of its inside is visible
/// here; `json_doc` stands for what it holds.
#[verifier::external_type_specification]
#[verifier::external_body]
pub struct ExValue(serde_json::Value);

/// `serde_json::Error`, why a text could not be read. It is only carried.
#[verifier::external_type_specification]
#[verifier::external_body]
pub struct ExError(serde_json::Error);

/// The content of a `serde_json::Value`.
pub uninterp spec fn json_doc(v: Value) -> JsonDoc;

/// The content of the value that `serde_json::from_str` reads from a text, or
/// `None` where it reports an error.
pub uninterp spec fn json_parse(text: Seq<char>) -> Option<JsonDoc>;

/// The compact text that `serde_json` prints for a value with this content.
pub uninterp spec fn json_render(doc: JsonDoc) -> Seq<char>;

/// The member of an object under a key; `None` for a missing key and for
/// anything that is not an object.
pub open spec fn doc_member(doc: JsonDoc, key: Seq<char>) -> Option<JsonDoc> {
    match doc {
        JsonDoc::Object(members) => if members.contains_key(key) {
            Some(members[key])
        } else {
            None
        },
        _ => None,
    }
}

/// Calls `serde_json::from_str::<Value>`. The whole text must be one JSON
/// value; the contract only names the outcome.
#[verifier::external_body]
pub(crate) fn parse(text: &str) -> (r: Result<Value, serde_json::Error>)
    ensures
        match r {
            Ok(v) => json_parse(text@) == Some(json_doc(v)),
            Err(_) => json_parse(text@) is None,
        },
{
    serde_json::from_str::<Value>(text)
}

/// Calls `Value::get` with a string key: the member of an object under that
/// key, `None` if the key is missing or the value is no object.
#[verifier::external_body]
pub(crate) fn member<'a>(v: &'a Value, key: &str) -> (r: Option<&'a Value>)
    ensures
        match r {
            Some(m) => doc_member(json_doc(*v), key@) == Some(json_doc(*m)),
            None => doc_member(json_doc(*v), key@) is None,
        },
{
    v.get(key)
}

/// `Value::as_str`: the text of a JSON string, `None` for any other value.
pub assume_specification[ Value::as_str ](v: &Value) -> (r: Option<&str>)
    ensures
        match r {
            Some(s) => json_doc(*v) == JsonDoc::Text(s@),
            None => !(json_doc(*v) is Text),
        },
;

/// `Value::as_i64`: the number of a JSON integer that fits `i64`, `None` for
/// any other value.
pub assume_specification[ Value::as_i64 ](v: &Value) -> (r: Option<i64>)
    ensures
        match r {
            Some(n) => json_doc(*v) == JsonDoc::Int(n),
            None => !(json_doc(*v) is Int),
        },
;

/// `Value::is_null`: whether the value is JSON `null`.
pub assume_specification[ Value::is_null ](v: &Value) -> (r: bool)
    ensures
        r == (json_doc(*v) is Null),
;

/// Calls `Value::from` on a `String`, which gives the JSON string with that
/// text.
#[verifier::external_body]
pub(crate) fn text_value(text: String) -> (r: Value)
    ensures
        json_doc(r) == JsonDoc::Text(text@),
{
    Value::from(text)
}

/// Calls `Value::from` on an `i64`, which gives the JSON integer with that
/// number.
#[verifier::external_body]
pub(crate) fn int_value(n: i64) -> (r: Value)
    ensures
        json_doc(r) == JsonDoc::Int(n),
{
    Value::from(n)
}

/// The members that a list of pairs with distinct keys stands for.
pub open spec fn members_of(pairs: Seq<(String, Value)>) -> Map<Seq<char>, JsonDoc>
    decreases pairs.len(),
{
    if pairs.len() == 0 {
        Map::empty()
    } else {
        members_of(pairs.drop_last()).insert(pairs.last().0@, json_doc(pairs.last().1))
    }
}

/// No key occurs twice in a list of pairs.
pub open spec fn distinct_keys(pairs: Seq<(String, Value)>) -> bool {
    forall|i: int, j: int|
        0 <= i < j < pairs.len() ==> (#[trigger] pairs[i]).0@ != (#[trigger] pairs[j]).0@
}

/// Calls `Value::from_iter` on key-value pairs, which collects them into a
/// JSON object. Which of two pairs with the same key would stay is left to
/// the map behind it, so such lists are kept out.
#[verifier::external_body]
pub(crate) fn object_value(pairs: Vec<(String, Value)>) -> (r: Value)
    requires
        distinct_keys(pairs@),
    ensures
        json_doc(r) == JsonDoc::Object(members_of(pairs@)),
{
    Value::from_iter(pairs)
}

/// A string or an integer.
pub open spec fn doc_is_leaf(doc: JsonDoc) -> bool {
    doc is Text || doc is Int
}

/// An object whose members are strings and integers.
pub open spec fn doc_is_record(doc: JsonDoc) -> bool {
    doc matches JsonDoc::Object(members) && forall|k: Seq<char>|
        members.contains_key(k) ==> doc_is_leaf(#[trigger] members[k])
}

/// An object whose members are strings, integers, and objects of strings and
/// integers: the shape of every message of this library.
pub open spec fn doc_is_envelope(doc: JsonDoc) -> bool {
    doc matches JsonDoc::Object(members) && forall|k: Seq<char>|
        members.contains_key(k) ==> doc_is_leaf(#[trigger] members[k]) || doc_is_record(
            members[k],
        )
}

/// Calls `to_string` on a `Value`, which prints it as compact JSON. For an
/// envelope the text depends on the content alone (an object prints its
/// members in the order of their keys), and reading the text back gives the
/// same content: strings are escaped and read back exactly, and `i64`
/// integers are printed in full.
#[verifier::external_body]
pub(crate) fn render(v: &Value) -> (r: String)
    ensures
        doc_is_envelope(json_doc(*v)) ==> r@ == json_render(json_doc(*v)) && json_parse(r@)
            == Some(json_doc(*v)),
{
    v.to_string()
}

} // verus!
