//! Templates of messages.

pub mod copy_templates;
pub mod create_template;
pub mod delete_template;
pub mod edit_template;
pub mod get_template;

pub use copy_templates::{
    CopyTemplatesRequest, CopyTemplatesResponse, CopyTemplatesResponseView, Template, TemplateView,
};
pub use create_template::{
    CreateTemplateRequest, CreateTemplateResponse, CreateTemplateResponseView,
};
pub use delete_template::{
    DeleteTemplateRequest, DeleteTemplateResponse, DeleteTemplateResponseView,
};
pub use edit_template::{EditTemplateRequest, EditTemplateResponse, EditTemplateResponseView};
pub use get_template::{GetTemplateRequest, GetTemplateResponse, GetTemplateResponseView};

use crate::codec::{DecodeError, FromJson, ToJson};
use crate::fields::{object, one, put, put_int, put_text};
use crate::json::{entries_view, Entry, Json, JsonValue};
use crate::text::{decimal, decimal_string, is_text};
use vstd::prelude::*;
use vstd::string::StringExecFns;

verus! {

/// The kind of a template.
#[derive(Debug, Clone, Copy, PartialEq, Eq, Structural, Default)]
pub enum TemplateType {
    #[default]
    Standard,
    Layout,
}

impl TemplateType {
    /// The name that stands for the kind in a document.
    pub open spec fn name(&self) -> Seq<char> {
        match self {
            TemplateType::Standard => "Standard"@,
            TemplateType::Layout => "Layout"@,
        }
    }
}

impl ToJson for TemplateType {
    open spec fn json(&self) -> JsonValue {
        JsonValue::Str(self.name())
    }

    fn to_json(&self) -> (doc: Json) {
        let name = match self {
            TemplateType::Standard => "Standard",
            TemplateType::Layout => "Layout",
        };
        Json::Str(String::from_str(name))
    }
}

impl FromJson for TemplateType {
    type Model = TemplateType;

    open spec fn model(&self) -> TemplateType {
        *self
    }

    /// The kind that a string names.
    open spec fn decoded(doc: JsonValue) -> Option<TemplateType> {
        match doc {
            JsonValue::Str(s) => if s == "Standard"@ {
                Some(TemplateType::Standard)
            } else if s == "Layout"@ {
                Some(TemplateType::Layout)
            } else {
                None
            },
            _ => None,
        }
    }

    fn from_json(doc: &Json) -> (r: Result<Self, DecodeError>) {
        match doc.as_str() {
            Some(s) => {
                if is_text(s, "Standard") {
                    Ok(TemplateType::Standard)
                } else if is_text(s, "Layout") {
                    Ok(TemplateType::Layout)
                } else {
                    Err(DecodeError::Shape)
                }
            },
            None => Err(DecodeError::Shape),
        }
    }
}

/// What pushing templates from one server to another does to a template.
#[derive(Debug, Clone, Copy, PartialEq, Eq, Structural)]
pub enum TemplateAction {
    Create,
    Edit,
}

impl FromJson for TemplateAction {
    type Model = TemplateAction;

    open spec fn model(&self) -> TemplateAction {
        *self
    }

    /// The action that a string names.
    open spec fn decoded(doc: JsonValue) -> Option<TemplateAction> {
        match doc {
            JsonValue::Str(s) => if s == "Create"@ {
                Some(TemplateAction::Create)
            } else if s == "Edit"@ {
                Some(TemplateAction::Edit)
            } else {
                None
            },
            _ => None,
        }
    }

    fn from_json(doc: &Json) -> (r: Result<Self, DecodeError>) {
        match doc.as_str() {
            Some(s) => {
                if is_text(s, "Create") {
                    Ok(TemplateAction::Create)
                } else if is_text(s, "Edit") {
                    Ok(TemplateAction::Edit)
                } else {
                    Err(DecodeError::Shape)
                }
            },
            None => Err(DecodeError::Shape),
        }
    }
}

/// What a template is found by: its number or its alias.
#[derive(Debug, Clone, PartialEq)]
pub enum TemplateIdOrAlias {
    TemplateId(isize),
    Alias(String),
}

impl TemplateIdOrAlias {
    /// The text that stands for the template in a path: a number in decimal,
    /// an alias as it is.
    pub open spec fn text(&self) -> Seq<char> {
        match self {
            TemplateIdOrAlias::TemplateId(id) => decimal(*id as int),
            TemplateIdOrAlias::Alias(alias) => alias@,
        }
    }

    /// The text that stands for the template in a path.
    pub fn to_string(&self) -> (text: String)
        ensures
            text@ == self.text(),
    {
        match self {
            TemplateIdOrAlias::TemplateId(id) => decimal_string(*id as i64),
            TemplateIdOrAlias::Alias(alias) => alias.clone(),
        }
    }
}

impl ToJson for TemplateIdOrAlias {
    /// An object with one member, named as the variant is.
    open spec fn json(&self) -> JsonValue {
        match self {
            TemplateIdOrAlias::TemplateId(id) => JsonValue::Object(
                one("TemplateId"@, JsonValue::Number(decimal(*id as int))),
            ),
            TemplateIdOrAlias::Alias(alias) => JsonValue::Object(
                one("Alias"@, JsonValue::Str(alias@)),
            ),
        }
    }

    fn to_json(&self) -> (doc: Json) {
        let mut entries: Vec<Entry> = Vec::new();
        match self {
            TemplateIdOrAlias::TemplateId(id) => {
                put_int(&mut entries, "TemplateId", *id as i64);
            },
            TemplateIdOrAlias::Alias(alias) => {
                put_text(&mut entries, "Alias", alias);
            },
        }
        assert(entries_view(entries@) =~= self.json()->Object_0);
        object(entries)
    }
}

/// The path of the template that `id` names: `/templates/` and its text.
pub open spec fn template_path(id: &TemplateIdOrAlias) -> Seq<char> {
    "/templates/"@ + id.text()
}

/// The path of the template that `id` names.
pub(crate) fn template_endpoint(id: &TemplateIdOrAlias) -> (path: String)
    ensures
        path@ == template_path(id),
{
    let mut path = String::from_str("/templates/");
    let text = id.to_string();
    path.append(text.as_str());
    path
}

/// The object whose one member `Id` names a template.
pub open spec fn id_json(id: &TemplateIdOrAlias) -> JsonValue {
    JsonValue::Object(one("Id"@, id.json()))
}

/// The object whose one member `Id` names a template.
pub(crate) fn id_document(id: &TemplateIdOrAlias) -> (doc: Json)
    ensures
        doc@ == id_json(id),
{
    let mut entries: Vec<Entry> = Vec::new();
    put(&mut entries, "Id", id.to_json());
    assert(entries_view(entries@) =~= id_json(id)->Object_0);
    object(entries)
}

} // verus!
