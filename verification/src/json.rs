//! JSON documents, read with `serde_json`.
//!
//! A document stays a `serde_json::Value`. What it holds is modelled by
//! [`JsonView`], and the contracts of this module say what the parser and
//! the accessors of `serde_json` return in terms of that model. None of
//! them is proved here: they state what the source of `serde_json` shows.
//! The code that walks a document is verified against them.

use vstd::prelude::*;
use serde_json::Error as JsonError;
use serde_json::Value;

verus! {

/// `serde_json::Value`, a JSON document or a part of one.
#[verifier::external_type_specification]
#[verifier::external_body]
pub struct ExValue(serde_json::Value);

/// `serde_json::Error`, why a text is no JSON document.
#[verifier::external_type_specification]
#[verifier::external_body]
pub struct ExJsonError(JsonError);

/// What a JSON value holds.
pub enum JsonView {
    Null,
    Bool(bool),
    /// A number, as the digits that stand for it.
    Number(Seq<char>),
    Text(Seq<char>),
    Array(Seq<JsonView>),
    /// An object: its members under their keys, each key once.
    Object(Map<Seq<char>, JsonView>),
}

impl JsonView {
    /// The member of an object under `key`; `None` for a value that is no
    /// object or has no such member.
    pub open spec fn member(self, key: Seq<char>) -> Option<JsonView> {
        match self {
            JsonView::Object(members) => if members.contains_key(key) {
                Some(members[key])
            } else {
                None
            },
            _ => None,
        }
    }

    /// The elements of an array; `None` for a value that is no array.
    pub open spec fn elements(self) -> Option<Seq<JsonView>> {
        match self {
            JsonView::Array(items) => Some(items),
            _ => None,
        }
    }
}

/// What a `serde_json::Value` holds.
pub uninterp spec fn json_tree(value: Value) -> JsonView;

/// What the document holds that `serde_json::from_slice` reads from `text`,
/// or `None` where it reports an error.
pub uninterp spec fn json_parsed(text: Seq<u8>) -> Option<JsonView>;

/// The compact JSON text that `Value::to_string` writes for a value that
/// holds `tree`.
pub uninterp spec fn json_text(tree: JsonView) -> Seq<char>;

/// What a sequence of values holds, in order.
pub open spec fn json_trees(values: Seq<Value>) -> Seq<JsonView> {
    values.map_values(|value: Value| json_tree(value))
}

/// Calls `serde_json::from_slice` for a `Value`. It returns an error
/// exactly where [`json_parsed`] names none, and else a value that holds
/// what [`json_parsed`] names.
#[verifier::external_body]
pub(crate) fn parse(text: &[u8]) -> (parsed: Result<Value, JsonError>)
    ensures
        parsed is Ok <==> json_parsed(text@) is Some,
        parsed matches Ok(value) ==> json_parsed(text@) == Some(json_tree(value)),
{
    serde_json::from_slice::<Value>(text)
}

/// Calls `Value::get` with a string key. It returns the member of an
/// object under that key, and `None` for a value that is no object or has
/// no such member.
#[verifier::external_body]
pub(crate) fn member<'a>(value: &'a Value, key: &str) -> (found: Option<&'a Value>)
    ensures
        found is Some <==> json_tree(*value).member(key@) is Some,
        found matches Some(inner) ==> json_tree(*value).member(key@) == Some(json_tree(*inner)),
{
    value.get(key)
}

/// Calls `Value::as_array`. It returns the elements of an array, in their
/// order, and `None` for a value that is no array.
#[verifier::external_body]
pub(crate) fn elements(value: &Value) -> (found: Option<&Vec<Value>>)
    ensures
        found is Some <==> json_tree(*value).elements() is Some,
        found matches Some(list) ==> json_tree(*value).elements() == Some(json_trees(list@)),
{
    value.as_array()
}

/// Calls `Value::to_string`. It returns the text that [`json_text`] names
/// for what the value holds.
#[verifier::external_body]
pub(crate) fn render(value: &Value) -> (text: String)
    ensures
        text@ == json_text(json_tree(*value)),
{
    value.to_string()
}

} // verus!
