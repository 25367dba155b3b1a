//! The few readings of JSON documents that the library's decisions depend on,
//! made by `serde_json`.
use vstd::prelude::*;

verus! {

/// What `serde_json::from_slice::<Value>` reports for `bytes`: `None` when they
/// hold a JSON document, else the error's message.
pub uninterp spec fn json_error_of(bytes: Seq<u8>) -> Option<Seq<char>>;

/// The string at `key` of the top-level object of `bytes`, when there is one.
pub uninterp spec fn json_str_at(bytes: Seq<u8>, key: Seq<char>) -> Option<Seq<char>>;

/// The JSON text of the value at `key` of the first element of the top-level
/// array of `bytes`, when there is one.
pub uninterp spec fn json_first_text_at(bytes: Seq<u8>, key: Seq<char>) -> Option<Seq<char>>;

/// The unsigned integer at `key` of the top-level object of `bytes`, when there is one.
pub uninterp spec fn json_u64_at(bytes: Seq<u8>, key: Seq<char>) -> Option<u64>;

/// The boolean at `key` of the top-level object of `bytes`, when there is one.
pub uninterp spec fn json_bool_at(bytes: Seq<u8>, key: Seq<char>) -> Option<bool>;

/// How `serde_json` writes the character `c` inside a string literal: `"`
/// and `\` escaped by a backslash, the control characters backspace, form
/// feed, line feed, carriage return and tab by their short escapes, the other
/// characters below U+0020 as `\u00` and two lower-case hexadecimal digits,
/// and every other character as it is.
pub open spec fn json_escaped(c: char) -> Seq<char> {
    let v = c as u32;
    if c == '"' {
        seq!['\\', '"']
    } else if c == '\\' {
        seq!['\\', '\\']
    } else if v == 8 {
        seq!['\\', 'b']
    } else if v == 12 {
        seq!['\\', 'f']
    } else if v == 10 {
        seq!['\\', 'n']
    } else if v == 13 {
        seq!['\\', 'r']
    } else if v == 9 {
        seq!['\\', 't']
    } else if v < 32 {
        seq![
            '\\',
            'u',
            '0',
            '0',
            crate::digest::hex_char((v / 16) as int),
            crate::digest::hex_char((v % 16) as int),
        ]
    } else {
        seq![c]
    }
}

/// The characters of `s`, each written as `json_escaped` writes it.
pub open spec fn json_escaped_text(s: Seq<char>) -> Seq<char>
    decreases s.len(),
{
    if s.len() == 0 {
        Seq::empty()
    } else {
        json_escaped_text(s.drop_last()) + json_escaped(s.last())
    }
}

/// The JSON string literal `serde_json::to_string` writes for `s`: its
/// escaped characters between double quotes.
pub open spec fn json_quote_of(s: Seq<char>) -> Seq<char> {
    seq!['"'] + json_escaped_text(s) + seq!['"']
}

/// What `serde_json::from_str::<Vec<serde_json::Value>>` reports for `text`:
/// `None` when it holds a JSON array, else the error's message.
pub uninterp spec fn json_array_error_of(text: Seq<char>) -> Option<Seq<char>>;

/// `serde_json::from_str::<Vec<serde_json::Value>>`: whether `text` holds a
/// JSON array, and the error's message when it does not. Trusted: the result
/// is `json_array_error_of(text)`.
#[verifier::external_body]
pub(crate) fn json_array_check(text: &str) -> (r: Option<String>)
    ensures
        match r {
            None => json_array_error_of(text@) is None,
            Some(m) => json_array_error_of(text@) == Some(m@),
        },
{
    match serde_json::from_str::<Vec<serde_json::Value>>(text) {
        Ok(_) => None,
        Err(e) => Some(e.to_string()),
    }
}

/// `serde_json::from_slice::<serde_json::Value>`: whether `bytes` parse, and
/// the error's message when they do not. Trusted: the result is `json_error_of(bytes)`.
#[verifier::external_body]
pub(crate) fn json_check(bytes: &[u8]) -> (r: Option<String>)
    ensures
        match r {
            None => json_error_of(bytes@) is None,
            Some(m) => json_error_of(bytes@) == Some(m@),
        },
{
    match serde_json::from_slice::<serde_json::Value>(bytes) {
        Ok(_) => None,
        Err(e) => Some(e.to_string()),
    }
}

/// `serde_json::from_slice` then `Value::get(key)` and `Value::as_str`.
/// Trusted: the result is `json_str_at(bytes, key)`.
#[verifier::external_body]
pub(crate) fn json_str_field(bytes: &[u8], key: &str) -> (r: Option<String>)
    ensures
        match r {
            None => json_str_at(bytes@, key@) is None,
            Some(s) => json_str_at(bytes@, key@) == Some(s@),
        },
{
    serde_json::from_slice::<serde_json::Value>(bytes).ok().and_then(
        |v| v.get(key).and_then(|x| x.as_str()).map(|x| x.to_string()),
    )
}

/// `serde_json::from_slice`, `Value::as_array`, the first element, `get(key)`
/// and `Value::to_string`. Trusted: the result is `json_first_text_at(bytes, key)`.
#[verifier::external_body]
pub(crate) fn json_first_field_text(bytes: &[u8], key: &str) -> (r: Option<String>)
    ensures
        match r {
            None => json_first_text_at(bytes@, key@) is None,
            Some(s) => json_first_text_at(bytes@, key@) == Some(s@),
        },
{
    serde_json::from_slice::<serde_json::Value>(bytes).ok().and_then(
        |v| v.as_array().and_then(|a| a.first()).and_then(|x| x.get(key)).map(|x| x.to_string()),
    )
}

/// `serde_json::from_slice`, `Value::get(key)` and `Value::as_u64`.
/// Trusted: the result is `json_u64_at(bytes, key)`.
#[verifier::external_body]
pub(crate) fn json_u64_field(bytes: &[u8], key: &str) -> (r: Option<u64>)
    ensures
        r == json_u64_at(bytes@, key@),
{
    serde_json::from_slice::<serde_json::Value>(bytes).ok().and_then(
        |v| v.get(key).and_then(|x| x.as_u64()),
    )
}

/// `serde_json::from_slice`, `Value::get(key)` and `Value::as_bool`.
/// Trusted: the result is `json_bool_at(bytes, key)`.
#[verifier::external_body]
pub(crate) fn json_bool_field(bytes: &[u8], key: &str) -> (r: Option<bool>)
    ensures
        r == json_bool_at(bytes@, key@),
{
    serde_json::from_slice::<serde_json::Value>(bytes).ok().and_then(
        |v| v.get(key).and_then(|x| x.as_bool()),
    )
}

/// `serde_json::to_string(s)`: `s` as a JSON string literal (the crate's
/// `format_escaped_str` with its `ESCAPE` table). Trusted: the result is
/// `json_quote_of(s)`; serialising a `str` cannot fail.
#[verifier::external_body]
pub(crate) fn json_quote(s: &str) -> (r: String)
    ensures
        r@ == json_quote_of(s@),
{
    serde_json::to_string(s).unwrap_or_default()
}

} // verus!
