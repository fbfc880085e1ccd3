//! Reading JSON documents. Parsing is left to `serde_json`; what a parsed
//! value holds is described here by a model, and the accessors state what
//! they return over that model.

use vstd::prelude::*;

verus! {

/// `serde_json::Value`, carried through without a look inside.
#[verifier::external_type_specification]
#[verifier::external_body]
pub struct ExValue(serde_json::Value);

/// What a JSON value holds. Of a number only its reading as an unsigned
/// 64-bit integer is kept, where it has one.
pub enum JsonModel {
    Null,
    Bool(bool),
    Number(Option<u64>),
    Text(Seq<char>),
    Array(Seq<JsonModel>),
    Object(Map<Seq<char>, JsonModel>),
}

/// What a parsed value holds.
pub uninterp spec fn json_model(v: serde_json::Value) -> JsonModel;

/// What `serde_json::from_str` makes of a text: nothing where the text is
/// no JSON document, else the document.
pub uninterp spec fn json_parse(text: Seq<char>) -> Option<JsonModel>;

/// The member of an object under `key`; null for a missing member and for
/// whatever is no object.
pub open spec fn member_of(m: JsonModel, key: Seq<char>) -> JsonModel {
    match m {
        JsonModel::Object(members) => if members.dom().contains(key) {
            members[key]
        } else {
            JsonModel::Null
        },
        _ => JsonModel::Null,
    }
}

/// The characters of a JSON string; nothing for whatever is no string.
pub open spec fn text_in(m: JsonModel) -> Option<Seq<char>> {
    match m {
        JsonModel::Text(s) => Some(s),
        _ => None,
    }
}

/// The unsigned reading of a JSON number; nothing for whatever has none.
pub open spec fn number_in(m: JsonModel) -> Option<u64> {
    match m {
        JsonModel::Number(n) => n,
        _ => None,
    }
}

/// The items of a JSON array; nothing for whatever is no array.
pub open spec fn items_in(m: JsonModel) -> Option<Seq<JsonModel>> {
    match m {
        JsonModel::Array(items) => Some(items),
        _ => None,
    }
}

/// Calls `serde_json::from_str` for a `Value` and drops the reason of a
/// failure. Claimed without proof: the result depends on the text alone.
#[verifier::external_body]
pub(crate) fn parse_document(text: &str) -> (r: Option<serde_json::Value>)
    ensures
        match r {
            Some(v) => json_parse(text@) == Some(json_model(v)),
            None => json_parse(text@).is_none(),
        },
{
    serde_json::from_str::<serde_json::Value>(text).ok()
}

/// Indexes a `Value` by a string. Claimed without proof, as documented for
/// `Index`: the member of an object under that key, and null for a missing
/// key or a value that is no object.
#[verifier::external_body]
pub(crate) fn member<'a>(v: &'a serde_json::Value, key: &str) -> (r: &'a serde_json::Value)
    ensures
        json_model(*r) == member_of(json_model(*v), key@),
{
    &v[key]
}

/// Calls `Value::as_array`. Claimed without proof: the items of an array,
/// in order, and nothing for any other value.
#[verifier::external_body]
pub(crate) fn items<'a>(v: &'a serde_json::Value) -> (r: Option<&'a Vec<serde_json::Value>>)
    ensures
        match r {
            Some(list) => items_in(json_model(*v)) == Some(
                Seq::new(list@.len(), |i: int| json_model(list@[i])),
            ),
            None => items_in(json_model(*v)).is_none(),
        },
{
    v.as_array()
}

/// Calls `Value::as_str`. Claimed without proof: the characters of a
/// string, and nothing for any other value.
#[verifier::external_body]
pub(crate) fn text<'a>(v: &'a serde_json::Value) -> (r: Option<&'a str>)
    ensures
        match r {
            Some(s) => text_in(json_model(*v)) == Some(s@),
            None => text_in(json_model(*v)).is_none(),
        },
{
    v.as_str()
}

/// Calls `Value::as_u64`. Claimed without proof: the value of a number that
/// is an integer from 0 to the largest `u64`, and nothing for any other
/// value.
#[verifier::external_body]
pub(crate) fn number(v: &serde_json::Value) -> (r: Option<u64>)
    ensures
        r == number_in(json_model(*v)),
{
    v.as_u64()
}

} // verus!
