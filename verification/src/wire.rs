//! What crosses the wire to the management controller, as far as other
//! crates produce or read it: base64 text, JSON text, HTTP status lines.
//!
//! Nothing in this module is proved. Each function below makes one call into
//! `base64`, `serde_json` or `reqwest`; its contract gives the result a name,
//! so that callers can say exactly what they build from it.

use vstd::prelude::*;

verus! {

#[verifier::external_type_specification]
#[verifier::external_body]
pub struct ExJsonValue(serde_json::Value);

/// The standard, padded base64 encoding of `bytes`.
pub uninterp spec fn base64_standard(bytes: Seq<u8>) -> Seq<char>;

/// How an HTTP status code between 100 and 999 prints: the number, a space,
/// and the reason phrase that is customary for it.
pub uninterp spec fn http_status_text(code: u16) -> Seq<char>;

/// The compact JSON text of an object with the single member `key`, whose
/// value is the string `value`.
pub uninterp spec fn json_object_text(key: Seq<char>, value: Seq<char>) -> Seq<char>;

/// What parsing `text` as JSON gives: the document, or the parser's message.
pub uninterp spec fn json_parsed(text: Seq<char>) -> Result<serde_json::Value, Seq<char>>;

/// The string that `document` holds under `key`: `None` unless the document
/// is an object that has the member and the member is a string.
pub uninterp spec fn json_text_member(document: serde_json::Value, key: Seq<char>) -> Option<Seq<char>>;

/// An outcome of parsing as contracts see it.
pub open spec fn parse_seen(parsed: Result<serde_json::Value, String>) -> Result<
    serde_json::Value,
    Seq<char>,
> {
    match parsed {
        Ok(document) => Ok(document),
        Err(message) => Err(message@),
    }
}

/// Calls `Engine::encode` on `base64::engine::general_purpose::STANDARD`.
/// The call panics when the length of the output overflows `usize`, which
/// the precondition rules out.
#[verifier::external_body]
pub(crate) fn encode_base64(bytes: &[u8]) -> (encoded: String)
    requires
        4 * ((bytes@.len() + 2) / 3) <= usize::MAX,
    ensures
        encoded@ == base64_standard(bytes@),
{
    base64::Engine::encode(&base64::engine::general_purpose::STANDARD, bytes)
}

/// The character for a decimal digit.
pub open spec fn digit(d: int) -> char {
    if d == 0 {
        '0'
    } else if d == 1 {
        '1'
    } else if d == 2 {
        '2'
    } else if d == 3 {
        '3'
    } else if d == 4 {
        '4'
    } else if d == 5 {
        '5'
    } else if d == 6 {
        '6'
    } else if d == 7 {
        '7'
    } else if d == 8 {
        '8'
    } else {
        '9'
    }
}

/// The three decimal digits of a status code between 100 and 999.
pub open spec fn status_digits(code: u16) -> Seq<char> {
    seq![digit(code as int / 100), digit((code as int / 10) % 10), digit(code as int % 10)]
}

/// `text` begins with the three digits of `code` and a space.
pub open spec fn begins_with_status(text: Seq<char>, code: u16) -> bool {
    &&& text.len() >= 4
    &&& text.subrange(0, 3) == status_digits(code)
    &&& text[3] == ' '
}

/// Prints a status code the way `reqwest::StatusCode` displays itself: the
/// number in decimal, a space, and the customary reason phrase.
/// `StatusCode::from_u16` accepts exactly the codes from 100 to 999, which
/// have three digits.
#[verifier::external_body]
pub(crate) fn status_text(code: u16) -> (text: String)
    requires
        100 <= code <= 999,
    ensures
        text@ == http_status_text(code),
        begins_with_status(text@, code),
{
    match reqwest::StatusCode::from_u16(code) {
        Ok(status) => status.to_string(),
        Err(_) => String::new(),
    }
}

/// Builds a `serde_json::Value` object with one string member and prints it
/// through the value's `Display`, which writes compact JSON.
#[verifier::external_body]
pub(crate) fn json_object(key: &str, value: &str) -> (text: String)
    ensures
        text@ == json_object_text(key@, value@),
{
    let mut members = serde_json::Map::new();
    members.insert(key.to_string(), serde_json::Value::String(value.to_string()));
    serde_json::Value::Object(members).to_string()
}

/// Calls `serde_json::from_str` for a `serde_json::Value`; a failure is
/// handed on as the text of the parser's error.
#[verifier::external_body]
pub(crate) fn parse_json(text: &str) -> (parsed: Result<serde_json::Value, String>)
    ensures
        json_parsed(text@) == parse_seen(parsed),
{
    serde_json::from_str::<serde_json::Value>(text).map_err(|e| e.to_string())
}

/// Indexes a `serde_json::Value` by `key` and reads the member with
/// `Value::as_str`. Indexing never fails: what is missing reads as null.
#[verifier::external_body]
pub(crate) fn text_member(document: &serde_json::Value, key: &str) -> (member: Option<String>)
    ensures
        member matches Some(text) ==> json_text_member(*document, key@) == Some(text@),
        member is None ==> json_text_member(*document, key@) is None,
{
    document[key].as_str().map(|text| text.to_string())
}

} // verus!
