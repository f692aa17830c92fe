//! Trusted boundary around the JSON reader and writer used for the
//! extraction tool's metadata output and the persisted configuration
//! document.
//!
//! Each accessor goes from the raw document text and a key to a plain
//! value. What it returns depends on its arguments alone, so the result
//! gets a name — an uninterpreted function of the text — and the
//! accessor's contract says the result is that name's value. Every
//! decision taken on a document is then made by verified functions whose
//! own contracts speak of the same names.

use vstd::prelude::*;
use crate::strutil::opt_view;

verus! {

/// Whether the text parses as one JSON document.
pub uninterp spec fn json_doc_valid(s: Seq<char>) -> bool;

/// The string under `key` of the document `s`: present exactly when `s`
/// parses as a JSON object holding a string there.
pub uninterp spec fn string_field_of(s: Seq<char>, key: Seq<char>) -> Option<Seq<char>>;

/// The length of the array under `key` of the document `s`: present
/// exactly when `s` parses as a JSON object holding an array there.
pub uninterp spec fn array_len_field_of(s: Seq<char>, key: Seq<char>) -> Option<usize>;

/// The integer under `key` of the document `s`: present exactly when `s`
/// parses as a JSON object holding a number representable as u64 there.
pub uninterp spec fn u64_field_of(s: Seq<char>, key: Seq<char>) -> Option<u64>;

/// Relies on serde_json::from_str: it returns `Ok` exactly on text that
/// parses as one JSON document, and the verdict depends on the text alone.
#[verifier::external_body]
pub fn json_doc_parses(s: &str) -> (r: bool)
    ensures
        r == json_doc_valid(s@),
{
    serde_json::from_str::<serde_json::Value>(s).is_ok()
}

/// Relies on serde_json::from_str, Value::get and Value::as_str: the
/// string under the key when the text is a JSON object with one there,
/// `None` otherwise; the result depends on the text and key alone.
#[verifier::external_body]
pub fn read_string_field(s: &str, key: &str) -> (r: Option<String>)
    ensures
        opt_view(r) == string_field_of(s@, key@),
{
    let doc = match serde_json::from_str::<serde_json::Value>(s) {
        Ok(d) => d,
        Err(_) => return None,
    };
    match doc.get(key) {
        Some(v) => match v.as_str() {
            Some(t) => Some(t.to_owned()),
            None => None,
        },
        None => None,
    }
}

/// Relies on serde_json::from_str, Value::get and Value::as_array: the
/// length of the array under the key when the text is a JSON object with
/// one there, `None` otherwise; the result depends on the text and key
/// alone.
#[verifier::external_body]
pub fn read_array_len_field(s: &str, key: &str) -> (r: Option<usize>)
    ensures
        r == array_len_field_of(s@, key@),
{
    let doc = match serde_json::from_str::<serde_json::Value>(s) {
        Ok(d) => d,
        Err(_) => return None,
    };
    match doc.get(key) {
        Some(v) => match v.as_array() {
            Some(a) => Some(a.len()),
            None => None,
        },
        None => None,
    }
}

/// Relies on serde_json::from_str, Value::get and Value::as_u64: the
/// number under the key when the text is a JSON object with one there
/// that fits in u64, `None` otherwise; the result depends on the text and
/// key alone.
#[verifier::external_body]
pub fn read_u64_field(s: &str, key: &str) -> (r: Option<u64>)
    ensures
        r == u64_field_of(s@, key@),
{
    let doc = match serde_json::from_str::<serde_json::Value>(s) {
        Ok(d) => d,
        Err(_) => return None,
    };
    match doc.get(key) {
        Some(v) => v.as_u64(),
        None => None,
    }
}

/// Relies on serde_json::to_string_pretty and Display for Value (and, for
/// the read-back claim, on the parser reading what the serializer wrote):
/// rendering a one-field object of string key and string value gives a
/// document whose field under that key reads back as that value.
/// to_string_pretty fails only for non-string map keys or a failing
/// Serialize impl, neither of which a one-field string-to-string Value
/// object has; the Display fallback cannot fail.
#[verifier::external_body]
pub fn render_string_field(key: &str, value: &str) -> (r: String)
    ensures
        string_field_of(r@, key@) == Some(value@),
{
    let mut doc = serde_json::Map::new();
    doc.insert(key.to_owned(), serde_json::Value::String(value.to_owned()));
    let doc = serde_json::Value::Object(doc);
    match serde_json::to_string_pretty(&doc) {
        Ok(text) => text,
        Err(_) => doc.to_string(),
    }
}

} // verus!
