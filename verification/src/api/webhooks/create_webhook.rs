//! Making a webhook.

use crate::client::Endpoint;
use crate::codec::{DecodeError, FromJson, ToJson};
use crate::fields::{
    flag_at, isize_at, object, one, put, put_flag, put_text, read, read_flag, read_isize,
    value_at,
};
use crate::json::{entries_view, Entry, Json, JsonValue};
use std::borrow::Cow;
use crate::wire::Method;
use vstd::prelude::*;

verus! {

/// Whether an event calls the webhook.
#[derive(Debug, Clone, Copy, PartialEq, Eq, Structural, Default)]
pub struct TriggerConfig {
    pub enabled: bool,
}

impl ToJson for TriggerConfig {
    open spec fn json(&self) -> JsonValue {
        JsonValue::Object(one("Enabled"@, JsonValue::Bool(self.enabled)))
    }

    fn to_json(&self) -> (doc: Json) {
        let mut entries: Vec<Entry> = Vec::new();
        put_flag(&mut entries, "Enabled", self.enabled);
        assert(entries_view(entries@) =~= self.json()->Object_0);
        object(entries)
    }
}

impl FromJson for TriggerConfig {
    type Model = TriggerConfig;

    open spec fn model(&self) -> TriggerConfig {
        *self
    }

    open spec fn decoded(doc: JsonValue) -> Option<TriggerConfig> {
        match flag_at(doc, "Enabled"@) {
            Some(enabled) => Some(TriggerConfig { enabled }),
            None => None,
        }
    }

    fn from_json(doc: &Json) -> (r: Result<Self, DecodeError>) {
        let enabled = read_flag(doc, "Enabled")?;
        Ok(TriggerConfig { enabled })
    }
}

/// The events that call a webhook.
#[derive(Debug, Clone, Copy, PartialEq, Eq, Structural, Default)]
pub struct Triggers {
    /// A recipient's leaving or joining.
    pub subscription_change: TriggerConfig,
}

impl ToJson for Triggers {
    open spec fn json(&self) -> JsonValue {
        JsonValue::Object(one("SubscriptionChange"@, self.subscription_change.json()))
    }

    fn to_json(&self) -> (doc: Json) {
        let mut entries: Vec<Entry> = Vec::new();
        put(&mut entries, "SubscriptionChange", self.subscription_change.to_json());
        assert(entries_view(entries@) =~= self.json()->Object_0);
        object(entries)
    }
}

impl FromJson for Triggers {
    type Model = Triggers;

    open spec fn model(&self) -> Triggers {
        *self
    }

    open spec fn decoded(doc: JsonValue) -> Option<Triggers> {
        match value_at::<TriggerConfig>(doc, "SubscriptionChange"@) {
            Some(subscription_change) => Some(Triggers { subscription_change }),
            None => None,
        }
    }

    fn from_json(doc: &Json) -> (r: Result<Self, DecodeError>) {
        let subscription_change = read::<TriggerConfig>(doc, "SubscriptionChange")?;
        Ok(Triggers { subscription_change })
    }
}

/// A webhook to make.
#[derive(Debug, Clone, PartialEq)]
pub struct CreateWebhookRequest {
    /// Where the webhook calls.
    pub url: String,
    /// The stream whose events call it.
    pub message_stream: String,
    pub triggers: Triggers,
}

impl CreateWebhookRequest {
    /// A webhook that calls this location for these events of this stream.
    pub fn new(url: String, message_stream: String, triggers: Triggers) -> (request: Self)
        ensures
            request == (CreateWebhookRequest { url, message_stream, triggers }),
    {
        CreateWebhookRequest {
            url,
            message_stream,
            triggers,
        }
    }
}

impl ToJson for CreateWebhookRequest {
    open spec fn json(&self) -> JsonValue {
        JsonValue::Object(
            one("Url"@, JsonValue::Str(self.url@)) + one(
                "MessageStream"@,
                JsonValue::Str(self.message_stream@),
            ) + one("Triggers"@, self.triggers.json()),
        )
    }

    fn to_json(&self) -> (doc: Json) {
        let mut entries: Vec<Entry> = Vec::new();
        put_text(&mut entries, "Url", &self.url);
        put_text(&mut entries, "MessageStream", &self.message_stream);
        put(&mut entries, "Triggers", self.triggers.to_json());
        assert(entries_view(entries@) =~= self.json()->Object_0);
        object(entries)
    }
}

/// The service's answer to a webhook made.
#[derive(Debug, Clone, PartialEq)]
pub struct CreateWebhookResponse {
    pub webhook_id: isize,
    pub triggers: Triggers,
}

/// The mathematical value of a [`CreateWebhookResponse`].
pub struct CreateWebhookResponseView {
    pub webhook_id: isize,
    pub triggers: Triggers,
}

impl View for CreateWebhookResponse {
    type V = CreateWebhookResponseView;

    open spec fn view(&self) -> CreateWebhookResponseView {
        CreateWebhookResponseView { webhook_id: self.webhook_id, triggers: self.triggers }
    }
}

impl FromJson for CreateWebhookResponse {
    type Model = CreateWebhookResponseView;

    open spec fn model(&self) -> CreateWebhookResponseView {
        self@
    }

    open spec fn decoded(doc: JsonValue) -> Option<CreateWebhookResponseView> {
        match (isize_at(doc, "ID"@), value_at::<Triggers>(doc, "Triggers"@)) {
            (Some(webhook_id), Some(triggers)) => Some(
                CreateWebhookResponseView { webhook_id, triggers },
            ),
            _ => None,
        }
    }

    fn from_json(doc: &Json) -> (r: Result<Self, DecodeError>) {
        let webhook_id = read_isize(doc, "ID")?;
        let triggers = read::<Triggers>(doc, "Triggers")?;
        Ok(CreateWebhookResponse { webhook_id, triggers })
    }
}

impl Endpoint for CreateWebhookRequest {
    type Request = CreateWebhookRequest;

    type Response = CreateWebhookResponse;

    open spec fn path(&self) -> Seq<char> {
        "/webhooks"@
    }

    open spec fn payload(&self) -> JsonValue {
        self.json()
    }

    fn endpoint(&self) -> (path: Cow<'static, str>) {
        Cow::Borrowed("/webhooks")
    }

    fn body(&self) -> (body: &Self::Request) {
        self
    }

    fn method(&self) -> (method: Method) {
        Method::Post
    }
}

} // verus!
