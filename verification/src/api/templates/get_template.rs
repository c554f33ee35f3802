//! Looking a template up.

use crate::api::templates::{
    id_document, id_json, template_endpoint, template_path, TemplateIdOrAlias, TemplateType,
};
use crate::api::{Body, BodyView};
use crate::client::Endpoint;
use crate::codec::{DecodeError, FromJson, ToJson};
use crate::fields::{
    flag_at, isize_at, opt_text_at, read, read_flag, read_isize, read_opt_text, read_text,
    text_at, value_at,
};
use crate::json::{Json, JsonValue};
use crate::text::text_view;
use crate::wire::Method;
use std::borrow::Cow;
use vstd::prelude::*;

verus! {

/// The template to look up.
#[derive(Debug, Clone, PartialEq)]
pub struct GetTemplateRequest {
    pub id: TemplateIdOrAlias,
}

impl GetTemplateRequest {
    /// The request for this template.
    pub fn new(id: TemplateIdOrAlias) -> (request: Self)
        ensures
            request == (GetTemplateRequest { id }),
    {
        GetTemplateRequest {
            id,
        }
    }
}

impl ToJson for GetTemplateRequest {
    open spec fn json(&self) -> JsonValue {
        id_json(&self.id)
    }

    fn to_json(&self) -> (doc: Json) {
        id_document(&self.id)
    }
}

/// A template as the service has it.
#[derive(Debug, Clone, PartialEq, Default)]
pub struct GetTemplateResponse {
    pub template_id: isize,
    pub name: String,
    pub subject: String,
    pub body: Body,
    /// The server that the template belongs to.
    pub associated_server_id: isize,
    pub active: bool,
    pub alias: Option<String>,
    pub template_type: TemplateType,
    pub layout_template: Option<String>,
}

/// The mathematical value of a [`GetTemplateResponse`].
pub struct GetTemplateResponseView {
    pub template_id: isize,
    pub name: Seq<char>,
    pub subject: Seq<char>,
    pub body: BodyView,
    pub associated_server_id: isize,
    pub active: bool,
    pub alias: Option<Seq<char>>,
    pub template_type: TemplateType,
    pub layout_template: Option<Seq<char>>,
}

impl View for GetTemplateResponse {
    type V = GetTemplateResponseView;

    open spec fn view(&self) -> GetTemplateResponseView {
        GetTemplateResponseView {
            template_id: self.template_id,
            name: self.name@,
            subject: self.subject@,
            body: self.body@,
            associated_server_id: self.associated_server_id,
            active: self.active,
            alias: text_view(self.alias),
            template_type: self.template_type,
            layout_template: text_view(self.layout_template),
        }
    }
}

impl FromJson for GetTemplateResponse {
    type Model = GetTemplateResponseView;

    open spec fn model(&self) -> GetTemplateResponseView {
        self@
    }

    /// The body stands among the members of the same object as the other
    /// fields.
    open spec fn decoded(doc: JsonValue) -> Option<GetTemplateResponseView> {
        match (
            isize_at(doc, "TemplateId"@),
            text_at(doc, "Name"@),
            text_at(doc, "Subject"@),
            Body::among(doc),
            isize_at(doc, "AssociatedServerId"@),
            flag_at(doc, "Active"@),
            opt_text_at(doc, "Alias"@),
            value_at::<TemplateType>(doc, "TemplateType"@),
            opt_text_at(doc, "LayoutTemplate"@),
        ) {
            (
                Some(template_id),
                Some(name),
                Some(subject),
                Some(body),
                Some(associated_server_id),
                Some(active),
                Some(alias),
                Some(template_type),
                Some(layout_template),
            ) => Some(
                GetTemplateResponseView {
                    template_id,
                    name,
                    subject,
                    body,
                    associated_server_id,
                    active,
                    alias,
                    template_type,
                    layout_template,
                },
            ),
            _ => None,
        }
    }

    fn from_json(doc: &Json) -> (r: Result<Self, DecodeError>) {
        let template_id = read_isize(doc, "TemplateId")?;
        let name = read_text(doc, "Name")?;
        let subject = read_text(doc, "Subject")?;
        let body = Body::from_json(doc)?;
        let associated_server_id = read_isize(doc, "AssociatedServerId")?;
        let active = read_flag(doc, "Active")?;
        let alias = read_opt_text(doc, "Alias")?;
        let template_type = read::<TemplateType>(doc, "TemplateType")?;
        let layout_template = read_opt_text(doc, "LayoutTemplate")?;
        Ok(
            GetTemplateResponse {
                template_id,
                name,
                subject,
                body,
                associated_server_id,
                active,
                alias,
                template_type,
                layout_template,
            },
        )
    }
}

impl Endpoint for GetTemplateRequest {
    type Request = GetTemplateRequest;

    type Response = GetTemplateResponse;

    open spec fn path(&self) -> Seq<char> {
        template_path(&self.id)
    }

    open spec fn verb(&self) -> Method {
        Method::Get
    }

    open spec fn payload(&self) -> JsonValue {
        self.json()
    }

    fn endpoint(&self) -> (path: Cow<'static, str>) {
        Cow::Owned(template_endpoint(&self.id))
    }

    fn body(&self) -> (body: &Self::Request) {
        self
    }

    fn method(&self) -> (method: Method) {
        Method::Get
    }
}

} // verus!
