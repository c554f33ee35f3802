//! Changing a template.

use crate::api::templates::{template_endpoint, template_path, TemplateIdOrAlias};
use crate::api::Body;
use crate::client::Endpoint;
use crate::codec::{DecodeError, FromJson, ToJson};
use crate::fields::{
    flag_at, isize_at, maybe, object, one, opt_text_at, put_opt_text, put_text, put_text_or_null,
    read_flag, read_isize, read_opt_text, read_text, text_at, text_json,
};
use crate::json::{entries_view, Entry, Json, JsonValue};
use crate::text::text_view;
use crate::wire::Method;
use std::borrow::Cow;
use vstd::prelude::*;

verus! {

/// A template to change and what to change it to.
#[derive(Debug, Clone, PartialEq)]
pub struct EditTemplateRequest {
    /// The template to change. It is part of the path only, not of the body.
    pub id: TemplateIdOrAlias,
    pub name: String,
    /// The alias that the template is to have from now on.
    pub alias: Option<String>,
    pub body: Body,
    pub subject: Option<String>,
    pub layout_template: Option<String>,
}

impl EditTemplateRequest {
    /// The change of a template to this name and body.
    pub fn new(id: TemplateIdOrAlias, name: String, body: Body) -> (request: Self)
        ensures
            request == (EditTemplateRequest {
                id,
                name,
                alias: None,
                body,
                subject: None,
                layout_template: None,
            }),
    {
        EditTemplateRequest {
            id,
            name,
            alias: None,
            body,
            subject: None,
            layout_template: None,
        }
    }

    /// The same with this new alias.
    pub fn with_alias(self, alias: String) -> (request: Self)
        ensures
            request == (EditTemplateRequest { alias: Some(alias), ..self }),
    {
        EditTemplateRequest { alias: Some(alias), ..self }
    }

    /// The same with this subject.
    pub fn with_subject(self, subject: String) -> (request: Self)
        ensures
            request == (EditTemplateRequest { subject: Some(subject), ..self }),
    {
        EditTemplateRequest { subject: Some(subject), ..self }
    }

    /// The same in the layout of this alias.
    pub fn with_layout_template(self, layout_template: String) -> (request: Self)
        ensures
            request == (EditTemplateRequest { layout_template: Some(layout_template), ..self }),
    {
        EditTemplateRequest { layout_template: Some(layout_template), ..self }
    }
}

impl ToJson for EditTemplateRequest {
    /// One flat object, without the template's `id`. `Alias` is always there,
    /// `null` where there is none; the last two members only where they are
    /// present.
    open spec fn json(&self) -> JsonValue {
        JsonValue::Object(
            one("Name"@, JsonValue::Str(self.name@)) + one(
                "Alias"@,
                match text_view(self.alias) {
                    Some(s) => JsonValue::Str(s),
                    None => JsonValue::Null,
                },
            ) + self.body.members() + maybe("Subject"@, text_json(text_view(self.subject)))
                + maybe("LayoutTemplate"@, text_json(text_view(self.layout_template))),
        )
    }

    fn to_json(&self) -> (doc: Json) {
        let mut entries: Vec<Entry> = Vec::new();
        put_text(&mut entries, "Name", &self.name);
        put_text_or_null(&mut entries, "Alias", &self.alias);
        self.body.put_members(&mut entries);
        put_opt_text(&mut entries, "Subject", &self.subject);
        put_opt_text(&mut entries, "LayoutTemplate", &self.layout_template);
        assert(entries_view(entries@) =~= self.json()->Object_0);
        object(entries)
    }
}

/// The service's answer to a template changed.
#[derive(Debug, Clone, PartialEq, Default)]
pub struct EditTemplateResponse {
    pub template_id: isize,
    pub name: String,
    pub active: bool,
    pub alias: Option<String>,
}

/// The mathematical value of an [`EditTemplateResponse`].
pub struct EditTemplateResponseView {
    pub template_id: isize,
    pub name: Seq<char>,
    pub active: bool,
    pub alias: Option<Seq<char>>,
}

impl View for EditTemplateResponse {
    type V = EditTemplateResponseView;

    open spec fn view(&self) -> EditTemplateResponseView {
        EditTemplateResponseView {
            template_id: self.template_id,
            name: self.name@,
            active: self.active,
            alias: text_view(self.alias),
        }
    }
}

impl FromJson for EditTemplateResponse {
    type Model = EditTemplateResponseView;

    open spec fn model(&self) -> EditTemplateResponseView {
        self@
    }

    open spec fn decoded(doc: JsonValue) -> Option<EditTemplateResponseView> {
        match (
            isize_at(doc, "TemplateId"@),
            text_at(doc, "Name"@),
            flag_at(doc, "Active"@),
            opt_text_at(doc, "Alias"@),
        ) {
            (Some(template_id), Some(name), Some(active), Some(alias)) => Some(
                EditTemplateResponseView { template_id, name, active, alias },
            ),
            _ => None,
        }
    }

    fn from_json(doc: &Json) -> (r: Result<Self, DecodeError>) {
        let template_id = read_isize(doc, "TemplateId")?;
        let name = read_text(doc, "Name")?;
        let active = read_flag(doc, "Active")?;
        let alias = read_opt_text(doc, "Alias")?;
        Ok(EditTemplateResponse { template_id, name, active, alias })
    }
}

impl Endpoint for EditTemplateRequest {
    type Request = EditTemplateRequest;

    type Response = EditTemplateResponse;

    open spec fn path(&self) -> Seq<char> {
        template_path(&self.id)
    }

    open spec fn verb(&self) -> Method {
        Method::Put
    }

    open spec fn payload(&self) -> JsonValue {
        self.json()
    }

    fn endpoint(&self) -> (path: Cow<'static, str>) {
        Cow::Owned(template_endpoint(&self.id))
    }

    fn body(&self) -> (body: &Self::Request) {
        self
    }

    fn method(&self) -> (method: Method) {
        Method::Put
    }
}

} // verus!
