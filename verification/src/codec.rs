//! JSON text: the bytes of a document, and the document of some bytes.
//!
//! Both directions are the work of `serde_json`. This module names what it
//! returns and hands its errors on.

use crate::json::{Entry, Json, JsonValue};
use vstd::prelude::*;

verus! {

/// `serde_json::Error`: why `serde_json` refused a text or a value. It is
/// handed on as it is.
#[verifier::external_type_specification]
#[verifier::external_body]
pub struct ExJsonError(serde_json::Error);

/// `serde_json::Value`: a document as `serde_json` holds it. It stands only
/// between a document and its text.
#[verifier::external_type_specification]
#[verifier::external_body]
pub struct ExJsonTree(serde_json::Value);

/// The JSON text that `serde_json` writes for a document, where it writes
/// one.
pub uninterp spec fn json_text(doc: JsonValue) -> Option<Seq<u8>>;

/// The document that `serde_json` reads out of a text, where it accepts the
/// text.
pub uninterp spec fn json_document(text: Seq<u8>) -> Option<JsonValue>;

/// `serde_json::Value` for a document, node for node. The literal of a number
/// goes through `serde_json::from_str`, which refuses what is no JSON number.
#[verifier::external_body]
fn lower(doc: &Json) -> Result<serde_json::Value, serde_json::Error> {
    Ok(match doc {
        Json::Null => serde_json::Value::Null,
        Json::Bool(b) => serde_json::Value::Bool(*b),
        Json::Number(literal) => serde_json::Value::Number(serde_json::from_str(literal)?),
        Json::Str(s) => serde_json::Value::String(s.clone()),
        Json::Array(items) => serde_json::Value::Array(
            items.iter().map(lower).collect::<Result<_, _>>()?),
        Json::Object(entries) => serde_json::Value::Object(
            entries.iter().map(|e| Ok((e.key.clone(), lower(&e.value)?))).collect::<Result<_, _>>()?),
    })
}

/// The document for a `serde_json::Value`, node for node. The literal of a
/// number is what `serde_json::Number::to_string` gives.
#[verifier::external_body]
fn lift(value: serde_json::Value) -> Json {
    match value {
        serde_json::Value::Null => Json::Null,
        serde_json::Value::Bool(b) => Json::Bool(b),
        serde_json::Value::Number(n) => Json::Number(n.to_string()),
        serde_json::Value::String(s) => Json::Str(s),
        serde_json::Value::Array(items) => Json::Array(items.into_iter().map(lift).collect()),
        serde_json::Value::Object(map) => Json::Object(
            map.into_iter().map(|(key, v)| Entry { key, value: lift(v) }).collect()),
    }
}

/// `serde_json::to_vec` on the document as a `serde_json::Value`: the compact
/// JSON text of the document. Claims only that the outcome is a function of
/// the document's value.
#[verifier::external_body]
fn to_text(doc: &Json) -> (r: Result<Vec<u8>, serde_json::Error>)
    ensures
        match r {
            Ok(text) => json_text(doc@) == Some(text@),
            Err(_) => json_text(doc@) is None,
        },
{
    serde_json::to_vec(&lower(doc)?)
}

/// `serde_json::from_slice` at type `serde_json::Value`: the document that a
/// JSON text denotes. Claims only that the outcome is a function of the
/// bytes.
#[verifier::external_body]
fn from_text(text: &[u8]) -> (r: Result<Json, serde_json::Error>)
    ensures
        match r {
            Ok(doc) => json_document(text@) == Some(doc@),
            Err(_) => json_document(text@) is None,
        },
{
    serde_json::from_slice::<serde_json::Value>(text).map(lift)
}

/// Why a request could not be put together.
#[derive(Debug)]
#[allow(inconsistent_fields)]
pub enum EncodeError {
    /// The body could not be written as JSON text.
    Body { source: serde_json::Error },
    /// The path is no request target.
    Target { source: http::Error },
}

/// An [`EncodeError`] without its cause.
pub enum EncodeFault {
    Body,
    Target,
}

impl View for EncodeError {
    type V = EncodeFault;

    open spec fn view(&self) -> EncodeFault {
        match self {
            EncodeError::Body { .. } => EncodeFault::Body,
            EncodeError::Target { .. } => EncodeFault::Target,
        }
    }
}

/// Why some bytes could not be read as a value.
#[derive(Debug)]
pub enum DecodeError {
    /// The bytes are no JSON text.
    Syntax { source: serde_json::Error },
    /// The bytes are JSON text, but not of the shape of the value asked for.
    Shape,
}

/// A [`DecodeError`] without its cause.
pub enum DecodeFault {
    Syntax,
    Shape,
}

impl View for DecodeError {
    type V = DecodeFault;

    open spec fn view(&self) -> DecodeFault {
        match self {
            DecodeError::Syntax { .. } => DecodeFault::Syntax,
            DecodeError::Shape => DecodeFault::Shape,
        }
    }
}

/// A value that has a JSON document.
pub trait ToJson {
    /// The document of the value.
    spec fn json(&self) -> JsonValue;

    /// The document of the value.
    fn to_json(&self) -> (doc: Json)
        ensures
            doc@ == self.json(),
    ;
}

/// A value that can be read out of a JSON document.
pub trait FromJson: Sized {
    /// The mathematical value of a value of this type.
    type Model;

    /// The mathematical value of this value.
    spec fn model(&self) -> Self::Model;

    /// The value that a document holds, where it has the shape of one.
    spec fn decoded(doc: JsonValue) -> Option<Self::Model>;

    /// The value that a document holds.
    fn from_json(doc: &Json) -> (r: Result<Self, DecodeError>)
        ensures
            match r {
                Ok(value) => Self::decoded(doc@) == Some(value.model()),
                Err(e) => Self::decoded(doc@) is None && e@ is Shape,
            },
    ;
}

/// The value that a JSON text holds: that of the document it denotes.
pub open spec fn decoded_text<R: FromJson>(text: Seq<u8>) -> Result<R::Model, DecodeFault> {
    match json_document(text) {
        None => Err(DecodeFault::Syntax),
        Some(doc) => match R::decoded(doc) {
            None => Err(DecodeFault::Shape),
            Some(value) => Ok(value),
        },
    }
}

/// The outcome of reading a value, without the cause of a failure.
pub open spec fn read_view<R: FromJson>(r: Result<R, DecodeError>) -> Result<
    R::Model,
    DecodeFault,
> {
    match r {
        Ok(value) => Ok(value.model()),
        Err(e) => Err(e@),
    }
}

/// Reads a value out of a JSON text.
pub fn from_slice<R: FromJson>(text: &[u8]) -> (r: Result<R, DecodeError>)
    ensures
        read_view(r) == decoded_text::<R>(text@),
{
    match Json::parse(text) {
        Ok(doc) => R::from_json(&doc),
        Err(e) => Err(e),
    }
}

/// The JSON text of a value, where its document can be written.
pub fn to_vec<T: ToJson>(value: &T) -> (r: Result<Vec<u8>, EncodeError>)
    ensures
        match r {
            Ok(text) => json_text(value.json()) == Some(text@),
            Err(e) => json_text(value.json()) is None && e@ is Body,
        },
{
    value.to_json().render()
}

impl Json {
    /// The compact JSON text of the document.
    pub fn render(&self) -> (r: Result<Vec<u8>, EncodeError>)
        ensures
            match r {
                Ok(text) => json_text(self@) == Some(text@),
                Err(e) => json_text(self@) is None && e@ is Body,
            },
    {
        match to_text(self) {
            Ok(text) => Ok(text),
            Err(source) => Err(EncodeError::Body { source }),
        }
    }

    /// The document that a JSON text denotes.
    pub fn parse(text: &[u8]) -> (r: Result<Json, DecodeError>)
        ensures
            match r {
                Ok(doc) => json_document(text@) == Some(doc@),
                Err(e) => json_document(text@) is None && e@ is Syntax,
            },
    {
        match from_text(text) {
            Ok(doc) => Ok(doc),
            Err(source) => Err(DecodeError::Syntax { source }),
        }
    }
}

} // verus!
