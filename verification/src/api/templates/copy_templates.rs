//! Pushing the templates of one server to another.

use crate::api::templates::{TemplateAction, TemplateType};
use crate::client::Endpoint;
use crate::codec::{DecodeError, FromJson, ToJson};
use crate::fields::{
    isize_at, models, object, one, opt_text_at, put_flag, put_int, read, read_isize,
    read_opt_text, read_text, text_at, value_at,
};
use crate::json::{entries_view, Entry, Json, JsonValue};
use crate::text::text_view;
use crate::wire::Method;
use std::borrow::Cow;
use crate::text::decimal;
use vstd::prelude::*;

verus! {

/// The servers to push templates between.
#[derive(Debug, Clone, PartialEq)]
pub struct CopyTemplatesRequest {
    pub source_server_id: isize,
    pub destination_server_id: isize,
    /// Whether the push is carried out, or only what it would do is reported.
    pub perform_changes: bool,
}

impl CopyTemplatesRequest {
    /// A push between these servers that is carried out.
    pub fn new(source_server_id: isize, destination_server_id: isize) -> (request: Self)
        ensures
            request == (CopyTemplatesRequest {
                source_server_id,
                destination_server_id,
                perform_changes: true,
            }),
    {
        CopyTemplatesRequest {
            source_server_id,
            destination_server_id,
            perform_changes: true,
        }
    }

    /// The same, carried out or not.
    pub fn with_perform_changes(self, perform_changes: bool) -> (request: Self)
        ensures
            request == (CopyTemplatesRequest { perform_changes: perform_changes, ..self }),
    {
        CopyTemplatesRequest { perform_changes: perform_changes, ..self }
    }
}

impl ToJson for CopyTemplatesRequest {
    open spec fn json(&self) -> JsonValue {
        JsonValue::Object(
            one("SourceServerID"@, JsonValue::Number(decimal(self.source_server_id as int))) + one(
                "DestinationServerID"@,
                JsonValue::Number(decimal(self.destination_server_id as int)),
            ) + one("PerformChanges"@, JsonValue::Bool(self.perform_changes)),
        )
    }

    fn to_json(&self) -> (doc: Json) {
        let mut entries: Vec<Entry> = Vec::new();
        put_int(&mut entries, "SourceServerID", self.source_server_id as i64);
        put_int(&mut entries, "DestinationServerID", self.destination_server_id as i64);
        put_flag(&mut entries, "PerformChanges", self.perform_changes);
        assert(entries_view(entries@) =~= self.json()->Object_0);
        object(entries)
    }
}

/// One template that a push touches.
#[derive(Debug, Clone, PartialEq)]
pub struct Template {
    pub action: TemplateAction,
    pub template_id: isize,
    pub alias: Option<String>,
    pub name: String,
    pub template_type: TemplateType,
}

/// The mathematical value of a [`Template`].
pub struct TemplateView {
    pub action: TemplateAction,
    pub template_id: isize,
    pub alias: Option<Seq<char>>,
    pub name: Seq<char>,
    pub template_type: TemplateType,
}

impl View for Template {
    type V = TemplateView;

    open spec fn view(&self) -> TemplateView {
        TemplateView {
            action: self.action,
            template_id: self.template_id,
            alias: text_view(self.alias),
            name: self.name@,
            template_type: self.template_type,
        }
    }
}

impl FromJson for Template {
    type Model = TemplateView;

    open spec fn model(&self) -> TemplateView {
        self@
    }

    open spec fn decoded(doc: JsonValue) -> Option<TemplateView> {
        match (
            value_at::<TemplateAction>(doc, "Action"@),
            isize_at(doc, "TemplateId"@),
            opt_text_at(doc, "Alias"@),
            text_at(doc, "Name"@),
            value_at::<TemplateType>(doc, "TemplateType"@),
        ) {
            (Some(action), Some(template_id), Some(alias), Some(name), Some(template_type)) => Some(
                TemplateView { action, template_id, alias, name, template_type },
            ),
            _ => None,
        }
    }

    fn from_json(doc: &Json) -> (r: Result<Self, DecodeError>) {
        let action = read::<TemplateAction>(doc, "Action")?;
        let template_id = read_isize(doc, "TemplateId")?;
        let alias = read_opt_text(doc, "Alias")?;
        let name = read_text(doc, "Name")?;
        let template_type = read::<TemplateType>(doc, "TemplateType")?;
        Ok(Template { action, template_id, alias, name, template_type })
    }
}

/// The service's answer to a push: the templates that it touches.
#[derive(Debug, Clone, PartialEq, Default)]
pub struct CopyTemplatesResponse {
    pub total_count: isize,
    pub templates: Vec<Template>,
}

/// The mathematical value of a [`CopyTemplatesResponse`].
pub struct CopyTemplatesResponseView {
    pub total_count: isize,
    pub templates: Seq<TemplateView>,
}

impl View for CopyTemplatesResponse {
    type V = CopyTemplatesResponseView;

    open spec fn view(&self) -> CopyTemplatesResponseView {
        CopyTemplatesResponseView {
            total_count: self.total_count,
            templates: models(self.templates@),
        }
    }
}

impl FromJson for CopyTemplatesResponse {
    type Model = CopyTemplatesResponseView;

    open spec fn model(&self) -> CopyTemplatesResponseView {
        self@
    }

    open spec fn decoded(doc: JsonValue) -> Option<CopyTemplatesResponseView> {
        match (isize_at(doc, "TotalCount"@), value_at::<Vec<Template>>(doc, "Templates"@)) {
            (Some(total_count), Some(templates)) => Some(
                CopyTemplatesResponseView { total_count, templates },
            ),
            _ => None,
        }
    }

    fn from_json(doc: &Json) -> (r: Result<Self, DecodeError>) {
        let total_count = read_isize(doc, "TotalCount")?;
        let templates = read::<Vec<Template>>(doc, "Templates")?;
        Ok(CopyTemplatesResponse { total_count, templates })
    }
}

impl Endpoint for CopyTemplatesRequest {
    type Request = CopyTemplatesRequest;

    type Response = CopyTemplatesResponse;

    open spec fn path(&self) -> Seq<char> {
        "/templates/push"@
    }

    open spec fn verb(&self) -> Method {
        Method::Put
    }

    open spec fn payload(&self) -> JsonValue {
        self.json()
    }

    fn endpoint(&self) -> (path: Cow<'static, str>) {
        Cow::Borrowed("/templates/push")
    }

    fn body(&self) -> (body: &Self::Request) {
        self
    }

    fn method(&self) -> (method: Method) {
        Method::Put
    }
}

} // verus!
