//! JSON documents, read by `serde_json`.
//!
//! The parser and its document type stay those of `serde_json`. What a document holds is
//! modelled by [`Json`]; the few calls into `serde_json` that the crate makes are stated
//! over that model, and everything that walks a document is verified against them.

use vstd::prelude::*;

verus! {

/// `serde_json::Value`, a parsed document. Nothing of its inside is known here but what
/// [`json_of`] says.
#[verifier::external_type_specification]
#[verifier::external_body]
pub struct ExJsonValue(serde_json::Value);

/// `serde_json::Error`, the parser's error. It is only ever told apart from success.
#[verifier::external_type_specification]
#[verifier::external_body]
pub struct ExJsonError(serde_json::Error);

/// What a JSON document holds. Numbers are not told apart: nothing here reads one.
pub enum Json {
    Null,
    Bool(bool),
    Number,
    Text(Seq<char>),
    List(Seq<Json>),
    Object(Map<Seq<char>, Json>),
}

/// What a document of `serde_json` holds.
pub uninterp spec fn json_of(value: serde_json::Value) -> Json;

/// What `serde_json::from_str` reads out of a text: the document, or nothing where the
/// text is no JSON.
pub uninterp spec fn json_in_text(text: Seq<char>) -> Option<Json>;

/// What `serde_json::from_slice` reads out of bytes: the document, or nothing where the
/// bytes are no JSON.
pub uninterp spec fn json_in_bytes(bytes: Seq<u8>) -> Option<Json>;

impl Json {
    /// The member `key` of an object; `Null` where there is none, or no object.
    pub open spec fn member(self, key: Seq<char>) -> Json {
        match self {
            Json::Object(fields) => if fields.dom().contains(key) {
                fields[key]
            } else {
                Json::Null
            },
            _ => Json::Null,
        }
    }

    /// The element at `index` of a list; `Null` where there is none, or no list.
    pub open spec fn element(self, index: int) -> Json {
        match self {
            Json::List(items) => if 0 <= index < items.len() {
                items[index]
            } else {
                Json::Null
            },
            _ => Json::Null,
        }
    }

    /// The characters of a text; nothing for any other value.
    pub open spec fn text(self) -> Option<Seq<char>> {
        match self {
            Json::Text(s) => Some(s),
            _ => None,
        }
    }

    /// The elements of a list; nothing for any other value.
    pub open spec fn items(self) -> Option<Seq<Json>> {
        match self {
            Json::List(items) => Some(items),
            _ => None,
        }
    }
}

/// What each of a run of documents holds.
pub open spec fn jsons_of(values: Seq<serde_json::Value>) -> Seq<Json> {
    values.map_values(|v: serde_json::Value| json_of(v))
}

/// `serde_json::from_str` for a whole document: it either reads the text as JSON or
/// returns its error, and which of the two depends on the text alone.
#[verifier::external_body]
pub(crate) fn parse_text(text: &str) -> (parsed: Result<serde_json::Value, serde_json::Error>)
    ensures
        match parsed {
            Ok(value) => json_in_text(text@) == Some(json_of(value)),
            Err(_) => json_in_text(text@) is None,
        },
{
    serde_json::from_str(text)
}

/// `serde_json::from_slice` for a whole document: it either reads the bytes as JSON or
/// returns its error, and which of the two depends on the bytes alone.
#[verifier::external_body]
pub(crate) fn parse_bytes(bytes: &[u8]) -> (parsed: Result<
    serde_json::Value,
    serde_json::Error,
>)
    ensures
        match parsed {
            Ok(value) => json_in_bytes(bytes@) == Some(json_of(value)),
            Err(_) => json_in_bytes(bytes@) is None,
        },
{
    serde_json::from_slice(bytes)
}

/// Indexing a document by a text, `value[key]`: the member of that name if the document
/// is an object that has one, the null document otherwise.
#[verifier::external_body]
pub(crate) fn member<'a>(value: &'a serde_json::Value, key: &str) -> (found:
    &'a serde_json::Value)
    ensures
        json_of(*found) == json_of(*value).member(key@),
{
    &value[key]
}

/// Indexing a document by a number, `value[index]`: the element at that place if the
/// document is a list that long, the null document otherwise.
#[verifier::external_body]
pub(crate) fn element<'a>(value: &'a serde_json::Value, index: usize) -> (found:
    &'a serde_json::Value)
    ensures
        json_of(*found) == json_of(*value).element(index as int),
{
    &value[index]
}

/// `Value::as_str`: the text if the document is one, nothing otherwise.
#[verifier::external_body]
pub(crate) fn text_of<'a>(value: &'a serde_json::Value) -> (text: Option<&'a str>)
    ensures
        match text {
            Some(s) => json_of(*value).text() == Some(s@),
            None => json_of(*value).text() is None,
        },
{
    value.as_str()
}

/// `Value::as_array`: the elements if the document is a list, nothing otherwise.
#[verifier::external_body]
pub(crate) fn items_of<'a>(value: &'a serde_json::Value) -> (items: Option<
    &'a Vec<serde_json::Value>,
>)
    ensures
        match items {
            Some(list) => json_of(*value).items() == Some(jsons_of(list@)),
            None => json_of(*value).items() is None,
        },
{
    value.as_array()
}

} // verus!
