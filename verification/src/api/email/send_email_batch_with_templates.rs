//! Sending several messages made from templates at once.

use crate::api::email::send_email_batch::SendEmailBatchResponse;
use crate::api::email::send_email_with_template::SendEmailWithTemplateRequest;
use crate::client::Endpoint;
use crate::codec::ToJson;
use crate::fields::{object, one, put};
use crate::json::{entries_view, Entry, Json, JsonValue};
use std::borrow::Cow;
use crate::wire::Method;
use vstd::prelude::*;

verus! {

/// Several messages to make from templates and send at once.
#[derive(Debug, Clone, PartialEq, Default)]
pub struct SendEmailBatchWithTemplatesRequest {
    pub messages: Vec<SendEmailWithTemplateRequest>,
}

impl ToJson for SendEmailBatchWithTemplatesRequest {
    open spec fn json(&self) -> JsonValue {
        JsonValue::Object(one("Messages"@, self.messages.json()))
    }

    fn to_json(&self) -> (doc: Json) {
        let mut entries: Vec<Entry> = Vec::new();
        put(&mut entries, "Messages", self.messages.to_json());
        assert(entries_view(entries@) =~= self.json()->Object_0);
        object(entries)
    }
}

impl Endpoint for SendEmailBatchWithTemplatesRequest {
    type Request = SendEmailBatchWithTemplatesRequest;

    type Response = SendEmailBatchResponse;

    open spec fn path(&self) -> Seq<char> {
        "/email/batchWithTemplates"@
    }

    open spec fn payload(&self) -> JsonValue {
        self.json()
    }

    fn endpoint(&self) -> (path: Cow<'static, str>) {
        Cow::Borrowed("/email/batchWithTemplates")
    }

    fn body(&self) -> (body: &Self::Request) {
        self
    }

    fn method(&self) -> (method: Method) {
        Method::Post
    }
}

} // verus!
