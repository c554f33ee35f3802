//! Deleting a template.

use crate::api::templates::{
    id_document, id_json, template_endpoint, template_path, TemplateIdOrAlias,
};
use crate::client::Endpoint;
use crate::codec::{DecodeError, FromJson, ToJson};
use crate::fields::{i64_at, read_i64, read_text, text_at};
use crate::json::{Json, JsonValue};
use crate::wire::Method;
use std::borrow::Cow;
use vstd::prelude::*;

verus! {

/// The template to delete.
#[derive(Debug, Clone, PartialEq)]
pub struct DeleteTemplateRequest {
    pub id: TemplateIdOrAlias,
}

impl DeleteTemplateRequest {
    /// The request to delete this template.
    pub fn new(id: TemplateIdOrAlias) -> (request: Self)
        ensures
            request == (DeleteTemplateRequest { id }),
    {
        DeleteTemplateRequest {
            id,
        }
    }
}

impl ToJson for DeleteTemplateRequest {
    open spec fn json(&self) -> JsonValue {
        id_json(&self.id)
    }

    fn to_json(&self) -> (doc: Json) {
        id_document(&self.id)
    }
}

/// The service's answer to a template deleted: code 0 where it was.
#[derive(Debug, Clone, PartialEq, Default)]
pub struct DeleteTemplateResponse {
    pub error_code: i64,
    pub message: String,
}

/// The mathematical value of a [`DeleteTemplateResponse`].
pub struct DeleteTemplateResponseView {
    pub error_code: i64,
    pub message: Seq<char>,
}

impl View for DeleteTemplateResponse {
    type V = DeleteTemplateResponseView;

    open spec fn view(&self) -> DeleteTemplateResponseView {
        DeleteTemplateResponseView { error_code: self.error_code, message: self.message@ }
    }
}

impl FromJson for DeleteTemplateResponse {
    type Model = DeleteTemplateResponseView;

    open spec fn model(&self) -> DeleteTemplateResponseView {
        self@
    }

    open spec fn decoded(doc: JsonValue) -> Option<DeleteTemplateResponseView> {
        match (i64_at(doc, "ErrorCode"@), text_at(doc, "Message"@)) {
            (Some(error_code), Some(message)) => Some(
                DeleteTemplateResponseView { error_code, message },
            ),
            _ => None,
        }
    }

    fn from_json(doc: &Json) -> (r: Result<Self, DecodeError>) {
        let error_code = read_i64(doc, "ErrorCode")?;
        let message = read_text(doc, "Message")?;
        Ok(DeleteTemplateResponse { error_code, message })
    }
}

impl Endpoint for DeleteTemplateRequest {
    type Request = DeleteTemplateRequest;

    type Response = DeleteTemplateResponse;

    open spec fn path(&self) -> Seq<char> {
        template_path(&self.id)
    }

    open spec fn verb(&self) -> Method {
        Method::Delete
    }

    open spec fn payload(&self) -> JsonValue {
        self.json()
    }

    fn endpoint(&self) -> (path: Cow<'static, str>) {
        Cow::Owned(template_endpoint(&self.id))
    }

    fn body(&self) -> (body: &Self::Request) {
        self
    }

    fn method(&self) -> (method: Method) {
        Method::Delete
    }
}

} // verus!
