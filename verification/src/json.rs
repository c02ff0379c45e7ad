//! The JSON documents that this library reads and writes. A JSON value is
//! held as its text; serde_json reads and writes it.

use vstd::prelude::*;

verus! {

/// What a JSON document holds if it is an array of exactly three items of
/// which the first two are strings: those two strings, and the compact text
/// of the third item.
pub uninterp spec fn json_triple(document: Seq<u8>) -> Option<(Seq<char>, Seq<char>, Seq<char>)>;

/// The compact text of the JSON array of two strings and a third item given
/// as JSON text, if that text is a JSON value.
pub uninterp spec fn json_triple_text(first: Seq<char>, second: Seq<char>, third: Seq<char>)
    -> Option<Seq<char>>;

/// Whether a JSON text is a number, and then its value if it is an integer
/// that fits 64 bits with a sign.
pub uninterp spec fn json_number(text: Seq<char>) -> Option<Option<i64>>;

/// The compact text of the JSON value that a text holds, if it holds one.
pub uninterp spec fn json_compact(text: Seq<char>) -> Option<Seq<char>>;

/// `from_slice` of serde_json into two strings and a `Value`, and
/// `to_string` on that value: the parts of an array of three items.
#[verifier::external_body]
pub(crate) fn value_read_triple(document: &[u8]) -> (r: Option<(String, String, String)>)
    ensures
        r is Some <==> json_triple(document@) is Some,
        r is Some ==> (r->Some_0.0@, r->Some_0.1@, r->Some_0.2@) == json_triple(document@)->Some_0,
{
    match serde_json::from_slice::<(String, String, serde_json::Value)>(document) {
        Ok((first, second, third)) => Some((first, second, serde_json::to_string(&third).unwrap())),
        Err(_) => None,
    }
}

/// `from_str` of serde_json into a `Value`, and `to_string` on the array of
/// the two strings and that value.
#[verifier::external_body]
pub(crate) fn value_write_triple(first: &str, second: &str, third: &str) -> (r: Option<String>)
    ensures
        r is Some <==> json_triple_text(first@, second@, third@) is Some,
        r is Some ==> r->Some_0@ == json_triple_text(first@, second@, third@)->Some_0,
{
    match serde_json::from_str::<serde_json::Value>(third) {
        Ok(value) => Some(serde_json::to_string(&(first, second, value)).unwrap()),
        Err(_) => None,
    }
}

/// `from_str` of serde_json into a `Number`, and `Number::as_i64`.
#[verifier::external_body]
pub(crate) fn value_read_number(text: &str) -> (r: Option<Option<i64>>)
    ensures
        r == json_number(text@),
{
    match serde_json::from_str::<serde_json::Number>(text) {
        Ok(number) => Some(number.as_i64()),
        Err(_) => None,
    }
}

/// `from_str` of serde_json into a `Value`, and `to_string` on it.
#[verifier::external_body]
pub(crate) fn value_compact(text: &str) -> (r: Option<String>)
    ensures
        r is Some <==> json_compact(text@) is Some,
        r is Some ==> r->Some_0@ == json_compact(text@)->Some_0,
{
    match serde_json::from_str::<serde_json::Value>(text) {
        Ok(value) => Some(serde_json::to_string(&value).unwrap()),
        Err(_) => None,
    }
}

} // verus!
