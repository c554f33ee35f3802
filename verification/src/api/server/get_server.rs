//! Looking a server up.

use crate::api::server::ServerIdOrName;
use crate::client::Endpoint;
use crate::codec::{DecodeError, FromJson, ToJson};
use crate::fields::{isize_at, models, object, read, read_isize, read_text, text_at, value_at};
use crate::json::{entries_view, Entry, Json, JsonValue, Member};
use crate::wire::Method;
use std::borrow::Cow;
use vstd::prelude::*;
use vstd::string::StringExecFns;

verus! {

/// The server to look up.
#[derive(Debug, Clone, PartialEq)]
pub struct GetServerRequest {
    /// The server. It is part of the path only, not of the body.
    pub server_id: ServerIdOrName,
}

impl GetServerRequest {
    /// The request for this server.
    pub fn new(server_id: ServerIdOrName) -> (request: Self)
        ensures
            request == (GetServerRequest { server_id }),
    {
        GetServerRequest {
            server_id,
        }
    }
}

impl ToJson for GetServerRequest {
    /// The object without members.
    open spec fn json(&self) -> JsonValue {
        JsonValue::Object(Seq::empty())
    }

    fn to_json(&self) -> (doc: Json) {
        let entries: Vec<Entry> = Vec::new();
        assert(entries_view(entries@) =~= Seq::<Member>::empty());
        object(entries)
    }
}

/// A server as the service has it.
#[derive(Debug, Clone, PartialEq, Default)]
pub struct GetServerResponse {
    pub id: isize,
    pub name: String,
    pub api_tokens: Vec<String>,
}

/// The mathematical value of a [`GetServerResponse`].
pub struct GetServerResponseView {
    pub id: isize,
    pub name: Seq<char>,
    pub api_tokens: Seq<Seq<char>>,
}

impl View for GetServerResponse {
    type V = GetServerResponseView;

    open spec fn view(&self) -> GetServerResponseView {
        GetServerResponseView {
            id: self.id,
            name: self.name@,
            api_tokens: models(self.api_tokens@),
        }
    }
}

impl FromJson for GetServerResponse {
    type Model = GetServerResponseView;

    open spec fn model(&self) -> GetServerResponseView {
        self@
    }

    open spec fn decoded(doc: JsonValue) -> Option<GetServerResponseView> {
        match (
            isize_at(doc, "ID"@),
            text_at(doc, "Name"@),
            value_at::<Vec<String>>(doc, "ApiTokens"@),
        ) {
            (Some(id), Some(name), Some(api_tokens)) => Some(
                GetServerResponseView { id, name, api_tokens },
            ),
            _ => None,
        }
    }

    fn from_json(doc: &Json) -> (r: Result<Self, DecodeError>) {
        let id = read_isize(doc, "ID")?;
        let name = read_text(doc, "Name")?;
        let api_tokens = read::<Vec<String>>(doc, "ApiTokens")?;
        Ok(GetServerResponse { id, name, api_tokens })
    }
}

impl Endpoint for GetServerRequest {
    type Request = GetServerRequest;

    type Response = GetServerResponse;

    /// `/servers/` and the text of the server.
    open spec fn path(&self) -> Seq<char> {
        "/servers/"@ + self.server_id.text()
    }

    open spec fn verb(&self) -> Method {
        Method::Get
    }

    open spec fn payload(&self) -> JsonValue {
        self.json()
    }

    fn endpoint(&self) -> (path: Cow<'static, str>) {
        let mut path = String::from_str("/servers/");
        let text = self.server_id.to_string();
        path.append(text.as_str());
        Cow::Owned(path)
    }

    /// The request itself.
    fn body(&self) -> (body: &Self::Request)
        ensures
            body == self,
    {
        self
    }

    fn method(&self) -> (method: Method) {
        Method::Get
    }
}

} // verus!
