//! Taking addresses off the list that a stream leaves out.

use crate::api::message_streams::{
    suppressions_endpoint, suppressions_path, StreamIdOrName, SuppressionStatusType,
};
use crate::client::Endpoint;
use crate::codec::{DecodeError, FromJson, ToJson};
use crate::fields::{
    models, object, one, opt_text_at, put, put_text, read, read_opt_text, read_text, text_at,
    value_at,
};
use crate::json::{entries_view, Entry, Json, JsonValue};
use crate::text::text_view;
use std::borrow::Cow;
use crate::wire::Method;
use vstd::prelude::*;

verus! {

/// One address.
#[derive(Debug, Clone, PartialEq)]
pub struct Emails {
    pub email_address: String,
}

impl ToJson for Emails {
    open spec fn json(&self) -> JsonValue {
        JsonValue::Object(one("EmailAddress"@, JsonValue::Str(self.email_address@)))
    }

    fn to_json(&self) -> (doc: Json) {
        let mut entries: Vec<Entry> = Vec::new();
        put_text(&mut entries, "EmailAddress", &self.email_address);
        assert(entries_view(entries@) =~= self.json()->Object_0);
        object(entries)
    }
}

/// The addresses to take off a stream's list.
#[derive(Debug, Clone, PartialEq)]
pub struct DeleteSuppressionRequest {
    /// The stream. It is part of the path only, not of the body.
    pub stream_id: StreamIdOrName,
    pub suppressions: Vec<Emails>,
}

impl DeleteSuppressionRequest {
    /// The request to take these addresses off the list of this stream.
    pub fn new(stream_id: StreamIdOrName, suppressions: Vec<Emails>) -> (request: Self)
        ensures
            request == (DeleteSuppressionRequest { stream_id, suppressions }),
    {
        DeleteSuppressionRequest {
            stream_id,
            suppressions,
        }
    }
}

impl ToJson for DeleteSuppressionRequest {
    open spec fn json(&self) -> JsonValue {
        JsonValue::Object(one("Suppressions"@, self.suppressions.json()))
    }

    fn to_json(&self) -> (doc: Json) {
        let mut entries: Vec<Entry> = Vec::new();
        put(&mut entries, "Suppressions", self.suppressions.to_json());
        assert(entries_view(entries@) =~= self.json()->Object_0);
        object(entries)
    }
}

/// What became of one address.
#[derive(Debug, Clone, PartialEq, Default)]
pub struct DeleteSuppression {
    pub email_address: String,
    pub status: SuppressionStatusType,
    pub message: Option<String>,
}

/// The mathematical value of a [`DeleteSuppression`].
pub struct DeleteSuppressionView {
    pub email_address: Seq<char>,
    pub status: SuppressionStatusType,
    pub message: Option<Seq<char>>,
}

impl View for DeleteSuppression {
    type V = DeleteSuppressionView;

    open spec fn view(&self) -> DeleteSuppressionView {
        DeleteSuppressionView {
            email_address: self.email_address@,
            status: self.status,
            message: text_view(self.message),
        }
    }
}

impl FromJson for DeleteSuppression {
    type Model = DeleteSuppressionView;

    open spec fn model(&self) -> DeleteSuppressionView {
        self@
    }

    open spec fn decoded(doc: JsonValue) -> Option<DeleteSuppressionView> {
        match (
            text_at(doc, "EmailAddress"@),
            value_at::<SuppressionStatusType>(doc, "Status"@),
            opt_text_at(doc, "Message"@),
        ) {
            (Some(email_address), Some(status), Some(message)) => Some(
                DeleteSuppressionView { email_address, status, message },
            ),
            _ => None,
        }
    }

    fn from_json(doc: &Json) -> (r: Result<Self, DecodeError>) {
        let email_address = read_text(doc, "EmailAddress")?;
        let status = read::<SuppressionStatusType>(doc, "Status")?;
        let message = read_opt_text(doc, "Message")?;
        Ok(DeleteSuppression { email_address, status, message })
    }
}

/// The service's answer: what became of each address.
#[derive(Debug, Clone, PartialEq, Default)]
pub struct DeleteSuppressionResponse {
    pub suppressions: Vec<DeleteSuppression>,
}

/// The mathematical value of a [`DeleteSuppressionResponse`].
pub struct DeleteSuppressionResponseView {
    pub suppressions: Seq<DeleteSuppressionView>,
}

impl View for DeleteSuppressionResponse {
    type V = DeleteSuppressionResponseView;

    open spec fn view(&self) -> DeleteSuppressionResponseView {
        DeleteSuppressionResponseView { suppressions: models(self.suppressions@) }
    }
}

impl FromJson for DeleteSuppressionResponse {
    type Model = DeleteSuppressionResponseView;

    open spec fn model(&self) -> DeleteSuppressionResponseView {
        self@
    }

    open spec fn decoded(doc: JsonValue) -> Option<DeleteSuppressionResponseView> {
        match value_at::<Vec<DeleteSuppression>>(doc, "Suppressions"@) {
            Some(suppressions) => Some(DeleteSuppressionResponseView { suppressions }),
            None => None,
        }
    }

    fn from_json(doc: &Json) -> (r: Result<Self, DecodeError>) {
        let suppressions = read::<Vec<DeleteSuppression>>(doc, "Suppressions")?;
        Ok(DeleteSuppressionResponse { suppressions })
    }
}

impl Endpoint for DeleteSuppressionRequest {
    type Request = DeleteSuppressionRequest;

    type Response = DeleteSuppressionResponse;

    open spec fn path(&self) -> Seq<char> {
        suppressions_path(&self.stream_id, "delete"@)
    }

    open spec fn payload(&self) -> JsonValue {
        self.json()
    }

    fn endpoint(&self) -> (path: Cow<'static, str>) {
        Cow::Owned(suppressions_endpoint(&self.stream_id, "delete"))
    }

    fn body(&self) -> (body: &Self::Request) {
        self
    }

    fn method(&self) -> (method: Method) {
        Method::Post
    }
}

} // verus!
