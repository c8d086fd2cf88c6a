//! A JSON document as a tree of plain values, and how a payload becomes one.

use vstd::prelude::*;

verus! {

/// One JSON value. A number keeps no payload: nothing here reads one.
#[derive(Debug, PartialEq, Eq)]
pub enum Json {
    Null,
    Bool(bool),
    Number,
    Text(String),
    Array(Vec<Json>),
    Object(Vec<(String, Json)>),
}

/// The first member of `fields` whose key is `key`.
pub open spec fn member(fields: Seq<(String, Json)>, key: Seq<char>) -> Option<Json>
    decreases fields.len(),
{
    if fields.len() == 0 {
        None
    } else if fields[0].0@ == key {
        Some(fields[0].1)
    } else {
        member(fields.drop_first(), key)
    }
}

/// Looks a key up among the members of an object.
pub fn find_member<'a>(fields: &'a Vec<(String, Json)>, key: &str) -> (r: Option<&'a Json>)
    ensures
        match r {
            Some(j) => member(fields@, key@) == Some(*j),
            None => member(fields@, key@).is_none(),
        },
{
    let wanted: String = key.to_owned();
    let mut i: usize = 0;
    assert(fields@.subrange(0, fields.len() as int) =~= fields@);
    while i < fields.len()
        invariant
            i <= fields.len(),
            wanted@ == key@,
            member(fields@, key@) == member(fields@.subrange(i as int, fields.len() as int), key@),
        decreases fields.len() - i,
    {
        let ghost rest = fields@.subrange(i as int, fields.len() as int);
        assert(rest[0] == fields@[i as int]);
        assert(rest.drop_first() =~= fields@.subrange(i + 1, fields.len() as int));
        if fields[i].0 == wanted {
            return Some(&fields[i].1);
        }
        i += 1;
    }
    None
}

/// What a payload holds when it is read as one JSON document: the document's
/// tree, or nothing where the payload is no well-formed JSON text.
pub uninterp spec fn document(bytes: Seq<u8>) -> Option<Json>;

/// The tree that a parsed value holds.
pub uninterp spec fn value_tree(v: serde_json::Value) -> Json;

#[verifier::external_type_specification]
#[verifier::external_body]
pub struct ExValue(serde_json::Value);

#[verifier::external_type_specification]
#[verifier::external_body]
pub struct ExJsonError(serde_json::Error);

/// `serde_json::from_slice` at the type `serde_json::Value`. Believed, not
/// proved: the outcome depends on the bytes alone; success hands back a value
/// that holds the document of the payload, and a failure means that the
/// payload holds no document.
#[verifier::external_body]
fn read_value(raw: &[u8]) -> (r: Result<serde_json::Value, serde_json::Error>)
    ensures
        match r {
            Ok(v) => document(raw@) == Some(value_tree(v)),
            Err(_) => document(raw@).is_none(),
        },
{
    serde_json::from_slice::<serde_json::Value>(raw)
}

/// Copies a `serde_json::Value` into a `Json`, variant by variant; the members
/// of an object come in the order in which its map hands them out. Believed,
/// not proved: the copy is the tree that the value holds.
#[verifier::external_body]
fn tree_of(v: &serde_json::Value) -> (r: Json)
    ensures
        r == value_tree(*v),
{
    match v {
        serde_json::Value::Null => Json::Null,
        serde_json::Value::Bool(b) => Json::Bool(*b),
        serde_json::Value::Number(_) => Json::Number,
        serde_json::Value::String(s) => Json::Text(s.clone()),
        serde_json::Value::Array(a) => Json::Array(a.iter().map(tree_of).collect()),
        serde_json::Value::Object(m) => {
            Json::Object(m.iter().map(|(k, x)| (k.clone(), tree_of(x))).collect())
        },
    }
}

/// Reads a payload as one JSON document.
pub fn read_document(raw: &[u8]) -> (r: Option<Json>)
    ensures
        r == document(raw@),
{
    match read_value(raw) {
        Ok(v) => Some(tree_of(&v)),
        Err(_) => None,
    }
}

} // verus!
