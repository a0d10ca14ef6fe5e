//! Reading strings out of a JSON document, through `serde_json`.
//!
//! The parser and the document type are `serde_json`'s own, and nothing here
//! is proved of them. What a call returns is given a name, and the contracts
//! of this module say which calls are made on what: they do not say what JSON
//! is.

use vstd::prelude::*;
use vstd::string::*;

verus! {

/// `serde_json::Value`, a parsed JSON document. Its inside is not visible to
/// the verifier; documents are told apart only by what the functions below
/// read from them.
#[verifier::external_type_specification]
#[verifier::external_body]
pub struct ExValue(serde_json::Value);

/// `serde_json::Error`, why a text is no JSON document.
#[verifier::external_type_specification]
#[verifier::external_body]
pub struct ExError(serde_json::Error);

/// The document `serde_json::from_slice` reads from `body`, `None` where it
/// reports an error.
pub uninterp spec fn parsed(body: Seq<u8>) -> Option<serde_json::Value>;

/// What indexing `value` with the string `key` yields: the member of that name
/// where `value` is an object that has one, and JSON null otherwise.
pub uninterp spec fn member(value: serde_json::Value, key: Seq<char>) -> serde_json::Value;

/// What indexing `value` with the number `index` yields: the element at that
/// position where `value` is an array that long, and JSON null otherwise.
pub uninterp spec fn element(value: serde_json::Value, index: nat) -> serde_json::Value;

/// The string `value` holds, `None` where it is not a JSON string.
pub uninterp spec fn string_in(value: serde_json::Value) -> Option<Seq<char>>;

/// Calls `serde_json::from_slice` for a `serde_json::Value`. Trusted, not
/// proved: the outcome depends on the bytes alone, so it is `parsed` of them,
/// `Ok` with that document and `Err` where there is none.
#[verifier::external_body]
fn parse(body: &[u8]) -> (r: Result<serde_json::Value, serde_json::Error>)
    ensures
        match r {
            Ok(value) => parsed(body@) == Some(value),
            Err(_) => parsed(body@) is None,
        },
{
    serde_json::from_slice::<serde_json::Value>(body)
}

/// Indexes a `serde_json::Value` with a string, `value[key]`. Trusted, not
/// proved: the result is `member` of the two. Indexing a shared reference
/// yields null where there is no such member; it does not panic.
#[verifier::external_body]
fn get_member<'a>(value: &'a serde_json::Value, key: &str) -> (r: &'a serde_json::Value)
    ensures
        *r == member(*value, key@),
{
    &value[key]
}

/// Indexes a `serde_json::Value` with a number, `value[index]`. Trusted, not
/// proved: the result is `element` of the two. Indexing a shared reference
/// yields null where there is no such element; it does not panic.
#[verifier::external_body]
fn get_element<'a>(value: &'a serde_json::Value, index: usize) -> (r: &'a serde_json::Value)
    ensures
        *r == element(*value, index as nat),
{
    &value[index]
}

/// Calls `serde_json::Value::as_str`. Trusted, not proved: the result is
/// `string_in` of the value.
#[verifier::external_body]
fn get_string<'a>(value: &'a serde_json::Value) -> (r: Option<&'a str>)
    ensures
        match r {
            Some(s) => string_in(*value) == Some(s@),
            None => string_in(*value) is None,
        },
{
    value.as_str()
}

/// The string at `error.message` in the document that `body` holds.
pub open spec fn error_message_in(body: Seq<u8>) -> Option<Seq<char>> {
    match parsed(body) {
        Some(document) => string_in(member(member(document, "error"@), "message"@)),
        None => None,
    }
}

/// The string at `choices[0].text` in the document that `body` holds.
pub open spec fn completion_text_in(body: Seq<u8>) -> Option<Seq<char>> {
    match parsed(body) {
        Some(document) => string_in(
            member(element(member(document, "choices"@), 0), "text"@),
        ),
        None => None,
    }
}

/// Reads the error message of a response body: the string at `error.message`,
/// `None` where the body is no JSON document or holds no string there.
pub fn error_message(body: &[u8]) -> (r: Option<String>)
    ensures
        r.deep_view() == error_message_in(body@),
{
    match parse(body) {
        Ok(document) => {
            match get_string(get_member(get_member(&document, "error"), "message")) {
                Some(message) => Some(String::from_str(message)),
                None => None,
            }
        },
        Err(_) => None,
    }
}

/// Reads the generated text of a response body: the string at
/// `choices[0].text`, `None` where the body is no JSON document or holds no
/// string there.
pub fn completion_text(body: &[u8]) -> (r: Option<String>)
    ensures
        r.deep_view() == completion_text_in(body@),
{
    match parse(body) {
        Ok(document) => {
            let choices = get_member(&document, "choices");
            let first = get_element(choices, 0);
            match get_string(get_member(first, "text")) {
                Some(text) => Some(String::from_str(text)),
                None => None,
            }
        },
        Err(_) => None,
    }
}

} // verus!
