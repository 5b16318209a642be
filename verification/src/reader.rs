//! Reading JSON text into [`Json`] documents, by way of `serde_json`.

use vstd::prelude::*;
use crate::json::{
    items_view, lemma_array_view, lemma_object_view, members_view, Json, JsonNumber, JsonView,
};

verus! {

/// `serde_json::Value`, of which the verifier sees no more than
/// [`value_content`] says.
#[verifier::external_type_specification]
#[verifier::external_body]
pub struct ExValue(serde_json::Value);

/// `serde_json::Error`, which is carried along and never looked into.
#[verifier::external_type_specification]
#[verifier::external_body]
pub struct ExJsonError(serde_json::Error);

/// The document that a `serde_json::Value` holds.
pub uninterp spec fn value_content(value: serde_json::Value) -> JsonView;

/// The document that `serde_json::from_slice` reads from `bytes`, or `None`
/// where it reports an error.
pub uninterp spec fn parsed_document(bytes: Seq<u8>) -> Option<JsonView>;

/// One level of a `serde_json::Value`: its kind, and what it holds
/// directly.
enum Node<'a> {
    Null,
    Bool(bool),
    Number,
    Text(&'a str),
    Array(Vec<&'a serde_json::Value>),
    Object(Vec<(&'a str, &'a serde_json::Value)>),
}

impl<'a> Node<'a> {
    /// Whether `doc` is a document with this top level.
    spec fn describes(self, doc: JsonView) -> bool {
        match self {
            Node::Null => doc == JsonView::Null,
            Node::Bool(b) => doc == JsonView::Bool(b),
            Node::Number => doc is Number,
            Node::Text(s) => doc == JsonView::Text(s@),
            Node::Array(items) => doc == JsonView::Array(
                Seq::new(items@.len(), |i: int| value_content(*items@[i])),
            ),
            Node::Object(members) => doc == JsonView::Object(
                Seq::new(members@.len(), |i: int| (members@[i].0@, value_content(*members@[i].1))),
            ),
        }
    }
}

/// Calls `serde_json::from_slice` for a `serde_json::Value`. The contract
/// names what the call yields: the same bytes always read as the same
/// document, or always fail.
#[verifier::external_body]
fn read_value(bytes: &[u8]) -> (r: Result<serde_json::Value, serde_json::Error>)
    ensures
        match r {
            Ok(value) => parsed_document(bytes@) == Some(value_content(value)),
            Err(_) => parsed_document(bytes@) is None,
        },
{
    serde_json::from_slice::<serde_json::Value>(bytes)
}

/// Tells the variants of a `serde_json::Value` apart and hands out what the
/// variant holds, but for a number: the string, the elements of an array in
/// order, the members of an object in the order in which its map yields
/// them.
#[verifier::external_body]
fn unpack<'a>(value: &'a serde_json::Value) -> (node: Node<'a>)
    ensures
        node.describes(value_content(*value)),
{
    match value {
        serde_json::Value::Null => Node::Null,
        serde_json::Value::Bool(b) => Node::Bool(*b),
        serde_json::Value::Number(_) => Node::Number,
        serde_json::Value::String(s) => Node::Text(s.as_str()),
        serde_json::Value::Array(items) => Node::Array(items.iter().collect()),
        serde_json::Value::Object(map) => Node::Object(
            map.iter().map(|(k, v)| (k.as_str(), v)).collect(),
        ),
    }
}

/// Reads the number of a `serde_json::Value` through `as_u64`, `as_i64` and
/// `as_f64`: an integer where the first or the second has one, else the
/// bits of the double that the third has. All three have none for a value
/// that is no number, and the third has one for every number.
#[verifier::external_body]
fn number_of(value: &serde_json::Value) -> (r: Option<JsonNumber>)
    ensures
        r == value_content(*value).number(),
{
    if let Some(u) = value.as_u64() {
        Some(JsonNumber::Unsigned(u))
    } else if let Some(i) = value.as_i64() {
        Some(JsonNumber::Negative(i))
    } else if let Some(x) = value.as_f64() {
        Some(JsonNumber::Real(x.to_bits()))
    } else {
        None
    }
}

/// Calls `serde::de::Error::custom` for a `serde_json::Error` that says
/// `message`.
#[verifier::external_body]
pub(crate) fn decode_fault(message: &str) -> serde_json::Error {
    <serde_json::Error as serde::de::Error>::custom(message)
}

/// Copies a `serde_json::Value` into a [`Json`] document.
fn lift(value: &serde_json::Value) -> (doc: Json)
    ensures
        doc@ == value_content(*value),
    decreases value_content(*value),
{
    match unpack(value) {
        Node::Null => Json::Null,
        Node::Bool(b) => Json::Bool(b),
        Node::Number => Json::Number(number_of(value).unwrap()),
        Node::Text(s) => Json::Text(s.to_owned()),
        Node::Array(items) => {
            let mut out: Vec<Json> = Vec::new();
            let mut i: usize = 0;
            while i < items.len()
                invariant
                    i <= items.len(),
                    out@.len() == i,
                    value_content(*value) == JsonView::Array(
                        Seq::new(items@.len(), |k: int| value_content(*items@[k])),
                    ),
                    forall|k: int| 0 <= k < i ==> (#[trigger] out@[k])@ == value_content(*items@[k]),
                decreases items.len() - i,
            {
                proof {
                    let whole = value_content(*value);
                    assert(whole->Array_0[i as int] == value_content(*items@[i as int]));
                    assert(decreases_to!(whole => whole->Array_0));
                    assert(decreases_to!(whole->Array_0 => whole->Array_0[i as int]));
                }
                let item = lift(items[i]);
                out.push(item);
                i += 1;
            }
            proof {
                lemma_array_view(out);
                assert(items_view(out@) =~= value_content(*value)->Array_0);
            }
            Json::Array(out)
        },
        Node::Object(members) => {
            let mut out: Vec<(String, Json)> = Vec::new();
            let mut i: usize = 0;
            while i < members.len()
                invariant
                    i <= members.len(),
                    out@.len() == i,
                    value_content(*value) == JsonView::Object(
                        Seq::new(
                            members@.len(),
                            |k: int| (members@[k].0@, value_content(*members@[k].1)),
                        ),
                    ),
                    forall|k: int|
                        0 <= k < i ==> (#[trigger] out@[k]).0@ == members@[k].0@ && out@[k].1@
                            == value_content(*members@[k].1),
                decreases members.len() - i,
            {
                proof {
                    let whole = value_content(*value);
                    assert(whole->Object_0[i as int].1 == value_content(*members@[i as int].1));
                    assert(decreases_to!(whole => whole->Object_0));
                    assert(decreases_to!(whole->Object_0 => whole->Object_0[i as int]));
                    assert(decreases_to!(whole->Object_0[i as int] => whole->Object_0[i as int].1));
                }
                let item = lift(members[i].1);
                out.push((members[i].0.to_owned(), item));
                i += 1;
            }
            proof {
                lemma_object_view(out);
                assert(members_view(out@) =~= value_content(*value)->Object_0);
            }
            Json::Object(out)
        },
    }
}

/// Reads a JSON document from `bytes`.
pub fn parse(bytes: &[u8]) -> (r: Result<Json, serde_json::Error>)
    ensures
        match r {
            Ok(doc) => parsed_document(bytes@) == Some(doc@),
            Err(_) => parsed_document(bytes@) is None,
        },
{
    match read_value(bytes) {
        Ok(value) => Ok(lift(&value)),
        Err(e) => Err(e),
    }
}

} // verus!
