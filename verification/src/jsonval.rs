//! Bridge to `serde_json::Value`, the structured payload type of the local
//! RPC peer and of the scraped build data. The value itself is opaque to
//! the verifier; this module declares the type, and names the outcomes of
//! parsing a document and of reading one member out of a document's text —
//! all functions of the text alone, so their results may be named and the
//! contracts above them made exact.

use vstd::prelude::*;

verus! {

#[verifier::external_type_specification]
#[verifier::external_body]
pub struct ExValue(serde_json::Value);

/// Whether a character sequence is a well-formed JSON document, in the sense
/// that `serde_json::from_str::<Value>` accepts it. Parsing is a function of
/// the text alone, so the outcome may be given a name.
pub uninterp spec fn wf_json(s: Seq<char>) -> bool;

/// Relies on `serde_json::from_str::<Value>`: succeeds exactly on well-formed
/// JSON text, and an empty document is never well-formed (the parser reports
/// an end-of-input error there).
#[verifier::external_body]
pub fn parse_json(s: &str) -> (r: Option<serde_json::Value>)
    ensures
        r is Some <==> wf_json(s@),
        s@.len() == 0 ==> r is None,
{
    serde_json::from_str::<serde_json::Value>(s).ok()
}

/// Whether the document parses to an object that has the member. A function
/// of the two texts alone, so the outcome may be given a name.
pub uninterp spec fn member_present_of(doc: Seq<char>, key: Seq<char>) -> bool;

/// Relies on `serde_json::from_str::<Value>`, `serde_json::Value::get` and
/// `serde_json::Value::clone`: the member's value, owned; `None` when the
/// document does not parse or has no such member.
#[verifier::external_body]
pub fn read_member_value(doc: &str, key: &str) -> (r: Option<serde_json::Value>)
    ensures
        r is Some <==> member_present_of(doc@, key@),
{
    Some(serde_json::from_str::<serde_json::Value>(doc).ok()?.get(key)?.clone())
}

/// The string content of a document's member, when the document parses and
/// the member is a string. A function of the two texts alone.
pub uninterp spec fn member_str_of(doc: Seq<char>, key: Seq<char>) -> Option<Seq<char>>;

/// Relies on `serde_json::from_str::<Value>`, `serde_json::Value::get` and
/// `serde_json::Value::as_str`: the member's string content, owned.
#[verifier::external_body]
pub fn read_member_str(doc: &str, key: &str) -> (r: Option<String>)
    ensures
        r.deep_view() == member_str_of(doc@, key@),
{
    Some(serde_json::from_str::<serde_json::Value>(doc).ok()?.get(key)?.as_str()?.to_owned())
}

/// The integer content of a document's member, when the document parses and
/// the member is an integer in the signed 64-bit range. A function of the
/// two texts alone.
pub uninterp spec fn member_i64_of(doc: Seq<char>, key: Seq<char>) -> Option<i64>;

/// Relies on `serde_json::from_str::<Value>`, `serde_json::Value::get` and
/// `serde_json::Value::as_i64`: the member's integer content.
#[verifier::external_body]
pub fn read_member_i64(doc: &str, key: &str) -> (r: Option<i64>)
    ensures
        r == member_i64_of(doc@, key@),
{
    serde_json::from_str::<serde_json::Value>(doc).ok()?.get(key)?.as_i64()
}

/// The integer elements of a document's array member, when the document
/// parses, the member is an array and every element is an integer in the
/// signed 64-bit range. A function of the two texts alone.
pub uninterp spec fn member_i64s_of(doc: Seq<char>, key: Seq<char>) -> Option<Seq<i64>>;

/// Relies on `serde_json::from_str::<Value>`, `serde_json::Value::get`,
/// `serde_json::Value::as_array` and `serde_json::Value::as_i64`: the
/// member's integer elements, in order.
#[verifier::external_body]
pub fn read_member_i64s(doc: &str, key: &str) -> (r: Option<Vec<i64>>)
    ensures
        r.deep_view() == member_i64s_of(doc@, key@),
{
    let value = serde_json::from_str::<serde_json::Value>(doc).ok()?;
    let items = value.get(key)?.as_array()?;
    let mut out: Vec<i64> = Vec::with_capacity(items.len());
    for item in items {
        out.push(item.as_i64()?);
    }
    Some(out)
}

/// The member's value re-serialized as JSON text, when the document parses
/// and the member is present. A function of the two texts alone.
pub uninterp spec fn member_text_of(doc: Seq<char>, key: Seq<char>) -> Option<Seq<char>>;

/// Relies on `serde_json::from_str::<Value>`, `serde_json::Value::get` and
/// `serde_json::to_string`: the member's value written back out as JSON
/// text (serializing a `Value` cannot fail).
#[verifier::external_body]
pub fn read_member_text(doc: &str, key: &str) -> (r: Option<String>)
    ensures
        r.deep_view() == member_text_of(doc@, key@),
{
    let value = serde_json::from_str::<serde_json::Value>(doc).ok()?;
    serde_json::to_string(value.get(key)?).ok()
}

/// Relies on `serde_json::Value::Null` being the unit variant that the local
/// RPC peer's empty responses are mapped to.
#[verifier::external_body]
pub fn json_null() -> (r: serde_json::Value) {
    serde_json::Value::Null
}

} // verus!
