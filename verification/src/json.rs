//! JSON documents as trees, read from text by `serde_json`.

use vstd::prelude::*;
use crate::scalar::Scalar;

verus! {

/// A JSON document as a tree.
#[derive(Debug, PartialEq, Eq)]
pub enum Json {
    Null,
    Bool(bool),
    Number(Scalar),
    Text(String),
    Array(Vec<Json>),
    Object(Vec<(String, Json)>),
}

/// The mathematical value of a [`Json`] tree.
pub ghost enum JsonV {
    Null,
    Bool(bool),
    Number(u64),
    Text(Seq<char>),
    Array(Seq<JsonV>),
    Object(Seq<(Seq<char>, JsonV)>),
}

/// The value of a tree: that of each item and entry, in order.
pub open spec fn json_value(tree: Json) -> JsonV
    decreases tree,
{
    match tree {
        Json::Null => JsonV::Null,
        Json::Bool(b) => JsonV::Bool(b),
        Json::Number(n) => JsonV::Number(n.bits),
        Json::Text(s) => JsonV::Text(s@),
        Json::Array(items) => JsonV::Array(
            Seq::new(
                items@.len(),
                |i: int|
                    if 0 <= i < items@.len() {
                        json_value(items@[i])
                    } else {
                        JsonV::Null
                    },
            ),
        ),
        Json::Object(fields) => JsonV::Object(
            Seq::new(
                fields@.len(),
                |i: int|
                    if 0 <= i < fields@.len() {
                        (fields@[i].0@, json_value(fields@[i].1))
                    } else {
                        (Seq::empty(), JsonV::Null)
                    },
            ),
        ),
    }
}

impl DeepView for Json {
    type V = JsonV;

    open spec fn deep_view(&self) -> JsonV {
        json_value(*self)
    }
}

#[verifier::external_type_specification]
#[verifier::external_body]
pub struct ExValue(serde_json::Value);

#[verifier::external_type_specification]
#[verifier::external_body]
pub struct ExJsonError(serde_json::Error);

/// The tree that a JSON text denotes, or `None` where the text is not JSON.
pub uninterp spec fn parsed_json(text: Seq<char>) -> Option<JsonV>;

/// Moves a `serde_json::Value` into a tree, variant by variant. A number is
/// taken as `serde_json::Number::as_f64` gives it, an object's entries in the
/// order in which `serde_json::Map` hands them out.
#[verifier::external_body]
fn tree_of_value(value: serde_json::Value) -> (tree: Json)
{
    match value {
        serde_json::Value::Null => Json::Null,
        serde_json::Value::Bool(b) => Json::Bool(b),
        serde_json::Value::Number(n) => n.as_f64().map_or(Json::Null, |x| Json::Number(Scalar { bits: x.to_bits() })),
        serde_json::Value::String(s) => Json::Text(s),
        serde_json::Value::Array(a) => Json::Array(a.into_iter().map(tree_of_value).collect()),
        serde_json::Value::Object(m) => Json::Object(m.into_iter().map(|(k, v)| (k, tree_of_value(v))).collect()),
    }
}

/// Calls `serde_json::from_str` to read the text as a `serde_json::Value`.
/// The call succeeds exactly on the texts that denote a tree, and then the
/// result is that tree; nothing is claimed of the error.
#[verifier::external_body]
fn parse_tree(text: &str) -> (r: Result<Json, serde_json::Error>)
    ensures
        r is Ok <==> parsed_json(text@) is Some,
        r is Ok ==> parsed_json(text@) == Some(r->Ok_0.deep_view()),
{
    serde_json::from_str::<serde_json::Value>(text).map(tree_of_value)
}

/// Reads `text` as JSON: the tree that the text denotes, or `None` where the
/// text is not JSON.
pub fn parse(text: &str) -> (tree: Option<Json>)
    ensures
        tree.deep_view() == parsed_json(text@),
{
    match parse_tree(text) {
        Ok(tree) => Some(tree),
        Err(_) => None,
    }
}

/// The value under `key` in an object's entries: that of the first entry with
/// this key.
pub open spec fn lookup(fields: Seq<(Seq<char>, JsonV)>, key: Seq<char>) -> Option<JsonV>
    decreases fields.len(),
{
    if fields.len() == 0 {
        None
    } else if fields[0].0 == key {
        Some(fields[0].1)
    } else {
        lookup(fields.skip(1), key)
    }
}

/// An array's value is made of its items' values.
pub proof fn lemma_array_view(items: Vec<Json>)
    ensures
        Json::Array(items).deep_view() == JsonV::Array(items.deep_view()),
{
    let whole = Json::Array(items).deep_view();
    assert(whole is Array);
    assert(items.deep_view().len() == items@.len());
    assert(whole->Array_0.len() == items@.len());
    assert(whole->Array_0.len() == items.deep_view().len());
    assert forall|i: int| 0 <= i < items@.len() implies whole->Array_0[i] == items.deep_view()[i] by {
    }
    assert(whole->Array_0 =~= items.deep_view());
}

/// An object's value is made of its entries' keys and values.
pub proof fn lemma_object_view(fields: Vec<(String, Json)>)
    ensures
        Json::Object(fields).deep_view() == JsonV::Object(fields.deep_view()),
{
    let whole = Json::Object(fields).deep_view();
    assert(whole is Object);
    assert(whole->Object_0.len() == fields.deep_view().len());
    assert forall|i: int| 0 <= i < fields@.len() implies whole->Object_0[i]
        == fields.deep_view()[i] by {
    }
    assert(whole->Object_0 =~= fields.deep_view());
}

/// The value under `key` among an object's entries, if there is one.
pub fn find<'a>(fields: &'a Vec<(String, Json)>, key: &str) -> (found: Option<&'a Json>)
    ensures
        match found {
            Some(value) => lookup(fields.deep_view(), key@) == Some(value.deep_view()),
            None => lookup(fields.deep_view(), key@) is None,
        },
{
    let wanted = key.to_owned();
    let ghost all = fields.deep_view();
    let mut i: usize = 0;
    assert(all.skip(0) =~= all);
    while i < fields.len()
        invariant
            i <= fields.len(),
            all == fields.deep_view(),
            wanted@ == key@,
            lookup(all, key@) == lookup(all.skip(i as int), key@),
        decreases fields.len() - i,
    {
        proof {
            assert(all.skip(i as int)[0] == all[i as int]);
            assert(all.skip(i as int).skip(1) =~= all.skip(i + 1));
        }
        if fields[i].0 == wanted {
            return Some(&fields[i].1);
        }
        i = i + 1;
    }
    None
}

} // verus!
