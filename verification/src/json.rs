//! Reading JSON documents with `serde_json`.
//!
//! A parsed document is a `serde_json::Value`, which is opaque here: what it
//! holds is named by the specification functions below, and read through the
//! functions that follow them.

use vstd::prelude::*;

verus! {

/// `serde_json::Value`, declared so that it can stand in signatures. Nothing
/// is known of what a value holds but what the functions below read from it.
#[verifier::external_type_specification]
#[verifier::external_body]
pub struct ExJsonValue(serde_json::Value);

/// The document that `text` is the JSON notation of, if it is one.
pub uninterp spec fn json_parsed(text: Seq<char>) -> Option<serde_json::Value>;

/// The member `key` of a JSON object; nothing for a value that is no object or lacks the member.
pub uninterp spec fn json_member(value: serde_json::Value, key: Seq<char>) -> Option<
    serde_json::Value,
>;

/// The number that a JSON value is, when it is an integer that fits `i64`.
pub uninterp spec fn json_integer(value: serde_json::Value) -> Option<i64>;

/// The text that a JSON value is, when it is a string.
pub uninterp spec fn json_text(value: serde_json::Value) -> Option<Seq<char>>;

/// The truth value that a JSON value is, when it is a boolean.
pub uninterp spec fn json_flag(value: serde_json::Value) -> Option<bool>;

/// The items of a JSON value, when it is an array.
pub uninterp spec fn json_items(value: serde_json::Value) -> Option<Seq<serde_json::Value>>;

/// The value that the JSON pointer `path` leads to from `value`, if it leads anywhere.
pub uninterp spec fn json_pointer(value: serde_json::Value, path: Seq<char>) -> Option<
    serde_json::Value,
>;

/// Parses `text` with `serde_json::from_str`; a text that is no JSON document gives nothing.
#[verifier::external_body]
pub(crate) fn parse(text: &str) -> (r: Option<serde_json::Value>)
    ensures
        r == json_parsed(text@),
{
    serde_json::from_str::<serde_json::Value>(text).ok()
}

/// The member `key` of `value`, by `serde_json::Value::get` with a string index.
#[verifier::external_body]
pub(crate) fn member<'a>(value: &'a serde_json::Value, key: &str) -> (r: Option<
    &'a serde_json::Value,
>)
    ensures
        match r {
            Some(v) => json_member(*value, key@) == Some(*v),
            None => json_member(*value, key@) is None,
        },
{
    value.get(key)
}

/// The integer that `value` is, by `serde_json::Value::as_i64`.
#[verifier::external_body]
pub(crate) fn as_integer(value: &serde_json::Value) -> (r: Option<i64>)
    ensures
        r == json_integer(*value),
{
    value.as_i64()
}

/// The string that `value` is, by `serde_json::Value::as_str`.
#[verifier::external_body]
pub(crate) fn as_text(value: &serde_json::Value) -> (r: Option<String>)
    ensures
        match r {
            Some(s) => json_text(*value) == Some(s@),
            None => json_text(*value) is None,
        },
{
    value.as_str().map(String::from)
}

/// The boolean that `value` is, by `serde_json::Value::as_bool`.
#[verifier::external_body]
pub(crate) fn as_flag(value: &serde_json::Value) -> (r: Option<bool>)
    ensures
        r == json_flag(*value),
{
    value.as_bool()
}

/// The items of the array that `value` is, by `serde_json::Value::as_array`.
#[verifier::external_body]
pub(crate) fn as_items<'a>(value: &'a serde_json::Value) -> (r: Option<&'a Vec<serde_json::Value>>)
    ensures
        match r {
            Some(v) => json_items(*value) == Some(v@),
            None => json_items(*value) is None,
        },
{
    value.as_array()
}

/// The value that the JSON pointer `path` leads to from `value`, by
/// `serde_json::Value::pointer`.
#[verifier::external_body]
pub(crate) fn pointer<'a>(value: &'a serde_json::Value, path: &str) -> (r: Option<
    &'a serde_json::Value,
>)
    ensures
        match r {
            Some(v) => json_pointer(*value, path@) == Some(*v),
            None => json_pointer(*value, path@) is None,
        },
{
    value.pointer(path)
}

/// The text of the member `key` of `value`.
pub open spec fn text_at(value: serde_json::Value, key: Seq<char>) -> Option<Seq<char>> {
    match json_member(value, key) {
        Some(v) => json_text(v),
        None => None,
    }
}

/// The integer of the member `key` of `value`.
pub open spec fn integer_at(value: serde_json::Value, key: Seq<char>) -> Option<i64> {
    match json_member(value, key) {
        Some(v) => json_integer(v),
        None => None,
    }
}

/// The truth value of the member `key` of `value`.
pub open spec fn flag_at(value: serde_json::Value, key: Seq<char>) -> Option<bool> {
    match json_member(value, key) {
        Some(v) => json_flag(v),
        None => None,
    }
}

/// The items of the member `key` of `value`.
pub open spec fn items_at(value: serde_json::Value, key: Seq<char>) -> Option<
    Seq<serde_json::Value>,
> {
    match json_member(value, key) {
        Some(v) => json_items(v),
        None => None,
    }
}

/// The text that the pointer `path` leads to.
pub open spec fn text_by_pointer(value: serde_json::Value, path: Seq<char>) -> Option<Seq<char>> {
    match json_pointer(value, path) {
        Some(v) => json_text(v),
        None => None,
    }
}

/// The integer that the pointer `path` leads to.
pub open spec fn integer_by_pointer(value: serde_json::Value, path: Seq<char>) -> Option<i64> {
    match json_pointer(value, path) {
        Some(v) => json_integer(v),
        None => None,
    }
}

/// The items that the pointer `path` leads to.
pub open spec fn items_by_pointer(value: serde_json::Value, path: Seq<char>) -> Option<
    Seq<serde_json::Value>,
> {
    match json_pointer(value, path) {
        Some(v) => json_items(v),
        None => None,
    }
}

/// The text of the member `key` of `value`, when it has such a member and it is a string.
pub fn read_text(value: &serde_json::Value, key: &str) -> (r: Option<String>)
    ensures
        crate::text::text_of(r) == text_at(*value, key@),
{
    match member(value, key) {
        Some(v) => as_text(v),
        None => None,
    }
}

/// The integer of the member `key` of `value`.
pub fn read_integer(value: &serde_json::Value, key: &str) -> (r: Option<i64>)
    ensures
        r == integer_at(*value, key@),
{
    match member(value, key) {
        Some(v) => as_integer(v),
        None => None,
    }
}

/// The truth value of the member `key` of `value`.
pub fn read_flag(value: &serde_json::Value, key: &str) -> (r: Option<bool>)
    ensures
        r == flag_at(*value, key@),
{
    match member(value, key) {
        Some(v) => as_flag(v),
        None => None,
    }
}

/// The items of the member `key` of `value`.
pub fn read_items<'a>(value: &'a serde_json::Value, key: &str) -> (r: Option<
    &'a Vec<serde_json::Value>,
>)
    ensures
        match r {
            Some(v) => items_at(*value, key@) == Some(v@),
            None => items_at(*value, key@) is None,
        },
{
    match member(value, key) {
        Some(v) => as_items(v),
        None => None,
    }
}

/// The text that the pointer `path` leads to.
pub fn read_text_by_pointer(value: &serde_json::Value, path: &str) -> (r: Option<String>)
    ensures
        crate::text::text_of(r) == text_by_pointer(*value, path@),
{
    match pointer(value, path) {
        Some(v) => as_text(v),
        None => None,
    }
}

/// The integer that the pointer `path` leads to.
pub fn read_integer_by_pointer(value: &serde_json::Value, path: &str) -> (r: Option<i64>)
    ensures
        r == integer_by_pointer(*value, path@),
{
    match pointer(value, path) {
        Some(v) => as_integer(v),
        None => None,
    }
}

/// The items that the pointer `path` leads to.
pub fn read_items_by_pointer<'a>(value: &'a serde_json::Value, path: &str) -> (r: Option<
    &'a Vec<serde_json::Value>,
>)
    ensures
        match r {
            Some(v) => items_by_pointer(*value, path@) == Some(v@),
            None => items_by_pointer(*value, path@) is None,
        },
{
    match pointer(value, path) {
        Some(v) => as_items(v),
        None => None,
    }
}

/// The number stored under `code` at the top of the JSON document `text`.
pub open spec fn application_code(text: Seq<char>) -> Option<i64> {
    match json_parsed(text) {
        Some(doc) => match json_member(doc, "code"@) {
            Some(code) => json_integer(code),
            None => None,
        },
        None => None,
    }
}

/// The application code that a response body carries: the integer stored
/// under `code` at the top of the body, when the body is a JSON object that
/// has one.
pub fn read_application_code(body: &str) -> (r: Option<i64>)
    ensures
        r == application_code(body@),
{
    match parse(body) {
        Some(doc) => match member(&doc, "code") {
            Some(code) => as_integer(code),
            None => None,
        },
        None => None,
    }
}

} // verus!
