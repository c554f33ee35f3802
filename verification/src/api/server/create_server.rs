//! Making a server.

use crate::api::server::{DeliveryType, ServerColor};
use crate::client::Endpoint;
use crate::codec::{DecodeError, FromJson, ToJson};
use crate::fields::{
    isize_at, maybe, models, object, one, put_flag, put_opt, put_text, read, read_isize,
    read_text, text_at, value_at, value_json,
};
use crate::json::{entries_view, Entry, Json, JsonValue};
use std::borrow::Cow;
use crate::wire::Method;
use vstd::prelude::*;

verus! {

/// A server to make.
#[derive(Debug, Clone, PartialEq, Default)]
pub struct CreateServerRequest {
    pub name: String,
    pub color: Option<ServerColor>,
    pub delivery_type: Option<DeliveryType>,
    /// Whether the server takes messages over SMTP.
    pub smtp_api_activated: bool,
}

impl CreateServerRequest {
    /// A server of this name that takes messages over SMTP.
    pub fn new(name: String) -> (request: Self)
        ensures
            request == (CreateServerRequest {
                name,
                color: None,
                delivery_type: None,
                smtp_api_activated: true,
            }),
    {
        CreateServerRequest {
            name,
            color: None,
            delivery_type: None,
            smtp_api_activated: true,
        }
    }

    /// The same in this colour.
    pub fn with_color(self, color: ServerColor) -> (request: Self)
        ensures
            request == (CreateServerRequest { color: Some(color), ..self }),
    {
        CreateServerRequest { color: Some(color), ..self }
    }

    /// The same with this way of delivery.
    pub fn with_delivery_type(self, delivery_type: DeliveryType) -> (request: Self)
        ensures
            request == (CreateServerRequest { delivery_type: Some(delivery_type), ..self }),
    {
        CreateServerRequest { delivery_type: Some(delivery_type), ..self }
    }

    /// The same, taking messages over SMTP or not.
    pub fn with_smtp_api_activated(self, smtp_api_activated: bool) -> (request: Self)
        ensures
            request == (CreateServerRequest { smtp_api_activated: smtp_api_activated, ..self }),
    {
        CreateServerRequest { smtp_api_activated: smtp_api_activated, ..self }
    }
}

impl ToJson for CreateServerRequest {
    /// One flat object; `Color` and `DeliveryType` only where they are
    /// present.
    open spec fn json(&self) -> JsonValue {
        JsonValue::Object(
            one("Name"@, JsonValue::Str(self.name@)) + maybe("Color"@, value_json(self.color))
                + maybe("DeliveryType"@, value_json(self.delivery_type)) + one(
                "SmtpApiActivated"@,
                JsonValue::Bool(self.smtp_api_activated),
            ),
        )
    }

    fn to_json(&self) -> (doc: Json) {
        let mut entries: Vec<Entry> = Vec::new();
        put_text(&mut entries, "Name", &self.name);
        put_opt(&mut entries, "Color", &self.color);
        put_opt(&mut entries, "DeliveryType", &self.delivery_type);
        put_flag(&mut entries, "SmtpApiActivated", self.smtp_api_activated);
        assert(entries_view(entries@) =~= self.json()->Object_0);
        object(entries)
    }
}

/// The service's answer to a server made.
#[derive(Debug, Clone, PartialEq)]
pub struct CreateServerResponse {
    pub id: isize,
    pub name: String,
    pub api_tokens: Vec<String>,
}

/// The mathematical value of a [`CreateServerResponse`].
pub struct CreateServerResponseView {
    pub id: isize,
    pub name: Seq<char>,
    pub api_tokens: Seq<Seq<char>>,
}

impl View for CreateServerResponse {
    type V = CreateServerResponseView;

    open spec fn view(&self) -> CreateServerResponseView {
        CreateServerResponseView {
            id: self.id,
            name: self.name@,
            api_tokens: models(self.api_tokens@),
        }
    }
}

impl FromJson for CreateServerResponse {
    type Model = CreateServerResponseView;

    open spec fn model(&self) -> CreateServerResponseView {
        self@
    }

    open spec fn decoded(doc: JsonValue) -> Option<CreateServerResponseView> {
        match (
            isize_at(doc, "ID"@),
            text_at(doc, "Name"@),
            value_at::<Vec<String>>(doc, "ApiTokens"@),
        ) {
            (Some(id), Some(name), Some(api_tokens)) => Some(
                CreateServerResponseView { id, name, api_tokens },
            ),
            _ => None,
        }
    }

    fn from_json(doc: &Json) -> (r: Result<Self, DecodeError>) {
        let id = read_isize(doc, "ID")?;
        let name = read_text(doc, "Name")?;
        let api_tokens = read::<Vec<String>>(doc, "ApiTokens")?;
        Ok(CreateServerResponse { id, name, api_tokens })
    }
}

impl Endpoint for CreateServerRequest {
    type Request = CreateServerRequest;

    type Response = CreateServerResponse;

    open spec fn path(&self) -> Seq<char> {
        "/servers"@
    }

    open spec fn payload(&self) -> JsonValue {
        self.json()
    }

    fn endpoint(&self) -> (path: Cow<'static, str>) {
        Cow::Borrowed("/servers")
    }

    fn body(&self) -> (body: &Self::Request) {
        self
    }

    fn method(&self) -> (method: Method) {
        Method::Post
    }
}

} // verus!
