//! JSON documents, read and written through `serde_json`.
//!
//! A document is kept as `serde_json::Value`. The proofs see nothing inside
//! such a value; they reason about what it holds, which is a `JsonModel`.

use vstd::prelude::*;

verus! {

/// `serde_json::Value`, taken as it is. The proofs see nothing inside it.
#[verifier::external_type_specification]
#[verifier::external_body]
pub struct ExValue(serde_json::Value);

/// What a JSON number holds.
pub enum JsonNumber {
    /// A whole number that is not negative.
    Natural(u64),
    /// A negative whole number.
    Negative(i64),
    /// Any other number, by the bits of its 64-bit form.
    Fraction(u64),
}

/// What a JSON document holds.
pub enum JsonModel {
    Null,
    Bool(bool),
    Number(JsonNumber),
    Text(Seq<char>),
    Array(Seq<JsonModel>),
    Object(Map<Seq<char>, JsonModel>),
}

/// What a document holds.
pub uninterp spec fn json_model(v: serde_json::Value) -> JsonModel;

/// What `serde_json::from_str` reads from a text, `None` where it reports an
/// error.
pub uninterp spec fn json_parsed(text: Seq<char>) -> Option<JsonModel>;

/// The compact JSON text that `serde_json` writes for a document. The
/// members of an object are written in the order of their keys.
pub uninterp spec fn json_rendered(m: JsonModel) -> Seq<char>;

/// The member under `key` of an object: `None` for what is no object or has
/// no such member.
pub open spec fn member_of(m: JsonModel, key: Seq<char>) -> Option<JsonModel> {
    match m {
        JsonModel::Object(o) => if o.contains_key(key) {
            Some(o[key])
        } else {
            None
        },
        _ => None,
    }
}

/// The content of a JSON boolean, `None` for any other kind of value.
pub open spec fn bool_in(m: JsonModel) -> Option<bool> {
    match m {
        JsonModel::Bool(b) => Some(b),
        _ => None,
    }
}

/// The content of a JSON string, `None` for any other kind of value.
pub open spec fn text_in(m: JsonModel) -> Option<Seq<char>> {
    match m {
        JsonModel::Text(t) => Some(t),
        _ => None,
    }
}

/// The elements of a JSON array, `None` for any other kind of value.
pub open spec fn elements_in(m: JsonModel) -> Option<Seq<JsonModel>> {
    match m {
        JsonModel::Array(es) => Some(es),
        _ => None,
    }
}

/// The object with one member.
pub open spec fn single(key: Seq<char>, value: JsonModel) -> JsonModel {
    JsonModel::Object(Map::<Seq<char>, JsonModel>::empty().insert(key, value))
}

/// Calls `serde_json::from_str` for a `Value`. The contract names the
/// outcome: the same text always reads as a document that holds the same,
/// and fails to read on the same texts.
#[verifier::external_body]
pub(crate) fn parse(text: &str) -> (r: Option<serde_json::Value>)
    ensures
        r.is_some() == json_parsed(text@).is_some(),
        r.is_some() ==> json_model(r.unwrap()) == json_parsed(text@).unwrap(),
{
    match serde_json::from_str::<serde_json::Value>(text) {
        Ok(v) => Some(v),
        Err(_) => None,
    }
}

/// Calls `Value::get` with a string key, which looks the key up in an
/// object's map and returns `None` for every other kind of value.
#[verifier::external_body]
pub(crate) fn member<'a>(v: &'a serde_json::Value, key: &str) -> (r: Option<&'a serde_json::Value>)
    ensures
        r.is_some() == member_of(json_model(*v), key@).is_some(),
        r.is_some() ==> json_model(*r.unwrap()) == member_of(json_model(*v), key@).unwrap(),
{
    v.get(key)
}

/// Calls `Value::as_bool`, which returns what a JSON boolean holds and
/// `None` for every other kind of value.
#[verifier::external_body]
pub(crate) fn as_bool(v: &serde_json::Value) -> (r: Option<bool>)
    ensures
        r == bool_in(json_model(*v)),
{
    v.as_bool()
}

/// Calls `Value::as_str`, which returns the text of a JSON string and
/// `None` for every other kind of value.
#[verifier::external_body]
pub(crate) fn as_text<'a>(v: &'a serde_json::Value) -> (r: Option<&'a str>)
    ensures
        r.is_some() == text_in(json_model(*v)).is_some(),
        r.is_some() ==> r.unwrap()@ == text_in(json_model(*v)).unwrap(),
{
    v.as_str()
}

/// Calls `Value::as_array`, which returns the elements of a JSON array and
/// `None` for every other kind of value. The contract says that the
/// elements hold, one by one, what the array holds.
#[verifier::external_body]
pub(crate) fn as_elements<'a>(v: &'a serde_json::Value) -> (r: Option<&'a Vec<serde_json::Value>>)
    ensures
        r.is_some() == elements_in(json_model(*v)).is_some(),
        r.is_some() ==> r.unwrap()@.len() == elements_in(json_model(*v)).unwrap().len(),
        r.is_some() ==> forall|i: int|
            0 <= i < r.unwrap()@.len() ==> json_model(#[trigger] r.unwrap()@[i]) == elements_in(
                json_model(*v),
            ).unwrap()[i],
{
    v.as_array()
}

/// Makes a JSON string with `Value::from`, which copies the text into
/// `Value::String`.
#[verifier::external_body]
pub(crate) fn text_value(s: &str) -> (r: serde_json::Value)
    ensures
        json_model(r) == JsonModel::Text(s@),
{
    serde_json::Value::from(s)
}

/// Makes a JSON number with `Value::from`, which keeps an unsigned integer
/// as it is.
#[verifier::external_body]
pub(crate) fn number_value(n: u32) -> (r: serde_json::Value)
    ensures
        json_model(r) == JsonModel::Number(JsonNumber::Natural(n as u64)),
{
    serde_json::Value::from(n)
}

/// Makes a JSON boolean with `Value::from`.
#[verifier::external_body]
pub(crate) fn bool_value(b: bool) -> (r: serde_json::Value)
    ensures
        json_model(r) == JsonModel::Bool(b),
{
    serde_json::Value::from(b)
}

/// Makes a JSON object from `Map::new`, which has no members.
#[verifier::external_body]
pub(crate) fn empty_object() -> (r: serde_json::Value)
    ensures
        json_model(r) == JsonModel::Object(Map::<Seq<char>, JsonModel>::empty()),
{
    serde_json::Value::Object(serde_json::Map::new())
}

/// Assigns through `IndexMut` with a string key, which adds the member to
/// an object or replaces the one under that key, and leaves the other
/// members as they are. On a value that is neither an object nor null the
/// outside code panics, hence the `requires`.
#[verifier::external_body]
pub(crate) fn set_member(obj: &mut serde_json::Value, key: &str, val: serde_json::Value)
    requires
        json_model(*old(obj)) is Object,
    ensures
        json_model(*final(obj)) == JsonModel::Object(
            json_model(*old(obj))->Object_0.insert(key@, json_model(val)),
        ),
{
    obj[key] = val;
}

/// Calls `to_string` on a document, which writes it as compact JSON text.
/// The contract names that text: documents that hold the same are written
/// the same way.
#[verifier::external_body]
pub(crate) fn render(v: &serde_json::Value) -> (r: String)
    ensures
        r@ == json_rendered(json_model(*v)),
{
    v.to_string()
}

} // verus!
