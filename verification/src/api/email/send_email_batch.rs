//! Sending several messages at once.

use crate::api::email::send_email::{SendEmailRequest, SendEmailResponse};
use crate::client::Endpoint;
use crate::codec::ToJson;
use crate::json::JsonValue;
use std::borrow::Cow;
use crate::wire::Method;
use vstd::prelude::*;

verus! {

/// Several messages to send at once.
pub type SendEmailBatchRequest = Vec<SendEmailRequest>;

/// The service's answers to several messages, one for each.
pub type SendEmailBatchResponse = Vec<SendEmailResponse>;

impl Endpoint for SendEmailBatchRequest {
    type Request = SendEmailBatchRequest;

    type Response = SendEmailBatchResponse;

    open spec fn path(&self) -> Seq<char> {
        "/email/batch"@
    }

    /// The array of the messages' documents.
    open spec fn payload(&self) -> JsonValue {
        self.json()
    }

    fn endpoint(&self) -> (path: Cow<'static, str>) {
        Cow::Borrowed("/email/batch")
    }

    fn body(&self) -> (body: &Self::Request) {
        self
    }

    fn method(&self) -> (method: Method) {
        Method::Post
    }
}

} // verus!
