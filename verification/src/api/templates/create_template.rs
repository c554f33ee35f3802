//! Making a template.

use crate::api::templates::TemplateType;
use crate::api::Body;
use crate::client::Endpoint;
use crate::codec::{DecodeError, FromJson, ToJson};
use crate::fields::{
    flag_at, isize_at, maybe, object, one, opt_text_at, put_opt, put_opt_text, put_text,
    put_text_or_null, read, read_flag, read_isize, read_opt_text, read_text, text_at, text_json,
    value_at, value_json,
};
use crate::json::{entries_view, Entry, Json, JsonValue};
use crate::text::text_view;
use std::borrow::Cow;
use crate::wire::Method;
use vstd::prelude::*;

verus! {

/// A template to make.
#[derive(Debug, Clone, PartialEq, Default)]
pub struct CreateTemplateRequest {
    pub name: String,
    /// A name of the caller's choosing to find the template by.
    pub alias: Option<String>,
    pub body: Body,
    /// The subject of messages made from the template.
    pub subject: Option<String>,
    pub template_type: Option<TemplateType>,
    /// The alias of the layout to use.
    pub layout_template: Option<String>,
}

impl CreateTemplateRequest {
    /// A template of this name and body and nothing more.
    pub fn new(name: String, body: Body) -> (request: Self)
        ensures
            request == (CreateTemplateRequest {
                name,
                alias: None,
                body,
                subject: None,
                template_type: None,
                layout_template: None,
            }),
    {
        CreateTemplateRequest {
            name,
            alias: None,
            body,
            subject: None,
            template_type: None,
            layout_template: None,
        }
    }

    /// The same with this alias.
    pub fn with_alias(self, alias: String) -> (request: Self)
        ensures
            request == (CreateTemplateRequest { alias: Some(alias), ..self }),
    {
        CreateTemplateRequest { alias: Some(alias), ..self }
    }

    /// The same with this subject.
    pub fn with_subject(self, subject: String) -> (request: Self)
        ensures
            request == (CreateTemplateRequest { subject: Some(subject), ..self }),
    {
        CreateTemplateRequest { subject: Some(subject), ..self }
    }

    /// The same of this kind.
    pub fn with_template_type(self, template_type: TemplateType) -> (request: Self)
        ensures
            request == (CreateTemplateRequest { template_type: Some(template_type), ..self }),
    {
        CreateTemplateRequest { template_type: Some(template_type), ..self }
    }

    /// The same in the layout of this alias.
    pub fn with_layout_template(self, layout_template: String) -> (request: Self)
        ensures
            request == (CreateTemplateRequest { layout_template: Some(layout_template), ..self }),
    {
        CreateTemplateRequest { layout_template: Some(layout_template), ..self }
    }
}

impl ToJson for CreateTemplateRequest {
    /// One flat object. `Alias` is always there, `null` where the template
    /// has none; the last three members only where they are present.
    open spec fn json(&self) -> JsonValue {
        JsonValue::Object(
            one("Name"@, JsonValue::Str(self.name@)) + one(
                "Alias"@,
                match text_view(self.alias) {
                    Some(s) => JsonValue::Str(s),
                    None => JsonValue::Null,
                },
            ) + self.body.members() + maybe("Subject"@, text_json(text_view(self.subject)))
                + maybe("TemplateType"@, value_json(self.template_type)) + maybe(
                "LayoutTemplate"@,
                text_json(text_view(self.layout_template)),
            ),
        )
    }

    fn to_json(&self) -> (doc: Json) {
        let mut entries: Vec<Entry> = Vec::new();
        put_text(&mut entries, "Name", &self.name);
        put_text_or_null(&mut entries, "Alias", &self.alias);
        self.body.put_members(&mut entries);
        put_opt_text(&mut entries, "Subject", &self.subject);
        put_opt(&mut entries, "TemplateType", &self.template_type);
        put_opt_text(&mut entries, "LayoutTemplate", &self.layout_template);
        assert(entries_view(entries@) =~= self.json()->Object_0);
        object(entries)
    }
}

/// The service's answer to a template made.
#[derive(Debug, Clone, PartialEq, Default)]
pub struct CreateTemplateResponse {
    pub template_id: isize,
    pub name: String,
    /// Whether messages can be sent with the template.
    pub active: bool,
    pub alias: Option<String>,
    pub template_type: TemplateType,
    pub layout_template: Option<String>,
}

/// The mathematical value of a [`CreateTemplateResponse`].
pub struct CreateTemplateResponseView {
    pub template_id: isize,
    pub name: Seq<char>,
    pub active: bool,
    pub alias: Option<Seq<char>>,
    pub template_type: TemplateType,
    pub layout_template: Option<Seq<char>>,
}

impl View for CreateTemplateResponse {
    type V = CreateTemplateResponseView;

    open spec fn view(&self) -> CreateTemplateResponseView {
        CreateTemplateResponseView {
            template_id: self.template_id,
            name: self.name@,
            active: self.active,
            alias: text_view(self.alias),
            template_type: self.template_type,
            layout_template: text_view(self.layout_template),
        }
    }
}

impl FromJson for CreateTemplateResponse {
    type Model = CreateTemplateResponseView;

    open spec fn model(&self) -> CreateTemplateResponseView {
        self@
    }

    open spec fn decoded(doc: JsonValue) -> Option<CreateTemplateResponseView> {
        match (
            isize_at(doc, "TemplateId"@),
            text_at(doc, "Name"@),
            flag_at(doc, "Active"@),
            opt_text_at(doc, "Alias"@),
            value_at::<TemplateType>(doc, "TemplateType"@),
            opt_text_at(doc, "LayoutTemplate"@),
        ) {
            (
                Some(template_id),
                Some(name),
                Some(active),
                Some(alias),
                Some(template_type),
                Some(layout_template),
            ) => Some(
                CreateTemplateResponseView {
                    template_id,
                    name,
                    active,
                    alias,
                    template_type,
                    layout_template,
                },
            ),
            _ => None,
        }
    }

    fn from_json(doc: &Json) -> (r: Result<Self, DecodeError>) {
        let template_id = read_isize(doc, "TemplateId")?;
        let name = read_text(doc, "Name")?;
        let active = read_flag(doc, "Active")?;
        let alias = read_opt_text(doc, "Alias")?;
        let template_type = read::<TemplateType>(doc, "TemplateType")?;
        let layout_template = read_opt_text(doc, "LayoutTemplate")?;
        Ok(
            CreateTemplateResponse {
                template_id,
                name,
                active,
                alias,
                template_type,
                layout_template,
            },
        )
    }
}

impl Endpoint for CreateTemplateRequest {
    type Request = CreateTemplateRequest;

    type Response = CreateTemplateResponse;

    open spec fn path(&self) -> Seq<char> {
        "/templates"@
    }

    open spec fn payload(&self) -> JsonValue {
        self.json()
    }

    fn endpoint(&self) -> (path: Cow<'static, str>) {
        Cow::Borrowed("/templates")
    }

    fn body(&self) -> (body: &Self::Request) {
        self
    }

    fn method(&self) -> (method: Method) {
        Method::Post
    }
}

} // verus!
