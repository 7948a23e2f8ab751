//! The JSON reader and writer under the journal's file format.
//!
//! Reading and writing JSON values is serde_json's work. Each function here
//! hands one such call its bytes and takes plain values back; what the call
//! yields is given a name, so that the contracts of the journal can say
//! exactly which call decides what.

use serde_json::value::RawValue;
use vstd::prelude::*;

verus! {

/// What serde_json reads from `document` as an array of raw values: the text
/// that spells each element, in order. `None` where it reads no such array:
/// `document` is no JSON, is JSON of another kind, or goes on behind the
/// array.
pub uninterp spec fn json_array_items(document: Seq<u8>) -> Option<Seq<Seq<u8>>>;

/// Where the first JSON value of `text` ends: the number of bytes that
/// serde_json has taken when it has read one value from the start of `text`,
/// white space before the value included. `None` where `text` does not begin
/// with a JSON value, or where a number or a word of JSON is followed by
/// something that cannot follow a value.
pub uninterp spec fn json_value_end(text: Seq<u8>) -> Option<nat>;

/// What serde_json reads from `value` as a string: the characters that the
/// JSON string spells, escapes resolved. `None` where it reads no string.
pub uninterp spec fn json_string_value(value: Seq<u8>) -> Option<Seq<char>>;

/// What serde_json reads from `value` as a signed integer of 64 bits. `None`
/// where it reads none: `value` is no number, has a fraction or an exponent,
/// or does not fit.
pub uninterp spec fn json_integer_value(value: Seq<u8>) -> Option<i64>;

/// What serde_json writes for the string `text`: the JSON string that spells
/// it, quotes and escapes included.
pub uninterp spec fn json_string_literal(text: Seq<char>) -> Seq<u8>;

/// Splits a JSON array into the texts of its elements.
///
/// Calls `serde_json::from_slice` for a vector of boxed `RawValue`s and
/// copies the text of each. Trusted: what comes back depends on the bytes
/// alone, and is what `json_array_items` names.
#[verifier::external_body]
pub(crate) fn array_items(document: &[u8]) -> (items: Option<Vec<Vec<u8>>>)
    ensures
        items.deep_view() == json_array_items(document@),
{
    match serde_json::from_slice::<Vec<Box<RawValue>>>(document) {
        Ok(raw) => Some(raw.iter().map(|item| item.get().as_bytes().to_vec()).collect()),
        Err(_) => None,
    }
}

/// Finds the end of the first JSON value of `text`.
///
/// Calls `serde_json::Deserializer::from_slice`, `into_iter` for boxed
/// `RawValue`s, `next` once and `byte_offset`. Trusted: what comes back
/// depends on the bytes alone, and is what `json_value_end` names; a byte
/// offset lies within the bytes that were given.
#[verifier::external_body]
pub(crate) fn value_end(text: &[u8]) -> (end: Option<usize>)
    ensures
        match end {
            Some(length) => json_value_end(text@) == Some(length as nat),
            None => json_value_end(text@) is None,
        },
        end matches Some(length) ==> length <= text@.len(),
{
    let mut stream = serde_json::Deserializer::from_slice(text).into_iter::<Box<RawValue>>();
    match stream.next() {
        Some(Ok(_)) => Some(stream.byte_offset()),
        _ => None,
    }
}

/// Reads a JSON string.
///
/// Calls `serde_json::from_slice` for a `String`. Trusted: what comes back
/// depends on the bytes alone, and is what `json_string_value` names.
#[verifier::external_body]
pub(crate) fn string_value(value: &[u8]) -> (text: Option<String>)
    ensures
        text.deep_view() == json_string_value(value@),
{
    match serde_json::from_slice::<String>(value) {
        Ok(text) => Some(text),
        Err(_) => None,
    }
}

/// Reads a JSON integer.
///
/// Calls `serde_json::from_slice` for an `i64`. Trusted: what comes back
/// depends on the bytes alone, and is what `json_integer_value` names.
#[verifier::external_body]
pub(crate) fn integer_value(value: &[u8]) -> (number: Option<i64>)
    ensures
        number == json_integer_value(value@),
{
    match serde_json::from_slice::<i64>(value) {
        Ok(number) => Some(number),
        Err(_) => None,
    }
}

/// Writes `text` as a JSON string.
///
/// Calls `serde_json::to_vec` on a string slice. That call has no way to
/// fail: every string has a JSON form, and a vector takes every write.
/// Trusted: the bytes depend on the text alone, and are what
/// `json_string_literal` names.
#[verifier::external_body]
pub(crate) fn string_literal(text: &str) -> (literal: Vec<u8>)
    ensures
        literal@ == json_string_literal(text@),
{
    match serde_json::to_vec(text) {
        Ok(literal) => literal,
        Err(_) => Vec::new(),
    }
}

} // verus!
