//! JSON documents: a mathematical model, and the trusted boundary to
//! `serde_json`, which reads the text.
//!
//! A `serde_json::Value` is opaque to the verifier. Everything that the
//! library states about one goes through [`json_of`], the tree that the value
//! holds. What an item below says of `serde_json` after the word "Believed"
//! is taken from that crate's source and is not proved.

use vstd::prelude::*;

verus! {

/// A JSON document as a mathematical value.
pub ghost enum Json {
    Null,
    Bool(bool),
    /// A number. It holds `Some(n)` where the number is stored as the
    /// non-negative integer `n`, and `None` for every other number (a
    /// negative one, one written with a fraction or an exponent, one beyond
    /// 64 bits).
    Number(Option<u64>),
    Text(Seq<char>),
    Array(Seq<Json>),
    /// An object, by member name. A name stands once: of a name that a text
    /// repeats, the reader keeps the last value.
    Object(Map<Seq<char>, Json>),
}

/// `serde_json::Value`, a JSON document in memory. Nothing inside it is
/// visible here; [`json_of`] names what it holds.
#[verifier::external_type_specification]
#[verifier::external_body]
pub struct ExValue(serde_json::Value);

/// `serde_json::Error`, the reader's reason for refusing a text. It is
/// carried as it is and only ever turned into a message.
#[verifier::external_type_specification]
#[verifier::external_body]
pub struct ExJsonError(serde_json::Error);

/// The tree that a `serde_json::Value` holds.
pub uninterp spec fn json_of(value: serde_json::Value) -> Json;

/// What `serde_json::from_str` makes of a text: the document that the text
/// denotes, or `None` where it refuses the text.
pub uninterp spec fn json_document(text: Seq<char>) -> Option<Json>;

/// Calls `serde_json::from_str` for a `serde_json::Value`.
///
/// Believed: the outcome depends on the text alone. It is `Ok` exactly where
/// [`json_document`] is `Some`, and the value then holds that document.
#[verifier::external_body]
pub(crate) fn parse_value(text: &str) -> (r: Result<serde_json::Value, serde_json::Error>)
    ensures
        match r {
            Ok(value) => json_document(text@) == Some(json_of(value)),
            Err(_) => json_document(text@) is None,
        },
{
    serde_json::from_str(text)
}

/// Calls `to_string` on a `serde_json::Error`, which writes its `Display`
/// form. Nothing is claimed of the text.
#[verifier::external_body]
pub(crate) fn error_text(error: &serde_json::Error) -> (text: String) {
    error.to_string()
}

/// `serde_json::Value::as_array`.
///
/// Believed: `Some` exactly for an array, and then a vector that holds the
/// array's items in their order.
pub assume_specification<'a>[ serde_json::Value::as_array ](value: &'a serde_json::Value) -> (r:
    Option<&'a Vec<serde_json::Value>>)
    ensures
        match json_of(*value) {
            Json::Array(items) => r matches Some(held) && held@.len() == items.len()
                && forall|i: int| 0 <= i < items.len() ==> json_of(#[trigger] held@[i]) == items[i],
            _ => r is None,
        },
;

/// `serde_json::Value::as_u64`.
///
/// Believed: the integer of a number that is stored as a non-negative
/// integer, `None` for every other value.
pub assume_specification[ serde_json::Value::as_u64 ](value: &serde_json::Value) -> (r: Option<u64>)
    ensures
        r == match json_of(*value) {
            Json::Number(n) => n,
            _ => None,
        },
;

/// `serde_json::Value::as_str`.
///
/// Believed: `Some` exactly for a string, and then its characters.
pub assume_specification<'a>[ serde_json::Value::as_str ](value: &'a serde_json::Value) -> (r:
    Option<&'a str>)
    ensures
        match json_of(*value) {
            Json::Text(chars) => r matches Some(held) && held@ == chars,
            _ => r is None,
        },
;

/// Calls `serde_json::Value::get` with a member's name.
///
/// Believed: `Some` exactly where the value is an object that has a member of
/// that name, and then that member's value.
#[verifier::external_body]
pub(crate) fn member<'a>(value: &'a serde_json::Value, name: &str) -> (r: Option<&'a serde_json::Value>)
    ensures
        match json_of(*value) {
            Json::Object(members) if members.contains_key(name@) => r matches Some(held)
                && json_of(*held) == members[name@],
            _ => r is None,
        },
{
    value.get(name)
}

} // verus!
