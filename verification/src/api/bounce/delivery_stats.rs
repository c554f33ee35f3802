//! How many messages came back, by kind.

use crate::client::Endpoint;
use crate::codec::{DecodeError, FromJson};
use crate::fields::{
    i64_at, models, opt_text_at, read, read_i64, read_opt_text, read_text, text_at, value_at,
};
use crate::json::{Json, JsonValue};
use crate::text::text_view;
use crate::wire::Method;
use std::borrow::Cow;
use vstd::prelude::*;

verus! {

/// The question how many messages came back. It has nothing to say beyond
/// that, and its body is `null`.
#[derive(Debug, Clone, PartialEq, Default)]
pub struct DeliveryStatsRequest {}

/// One kind of coming back and how often it happened.
#[derive(Debug, Clone, PartialEq, Default)]
pub struct Bounce {
    pub name: String,
    pub count: i64,
    pub type_field: Option<String>,
}

/// The mathematical value of a [`Bounce`].
pub struct BounceView {
    pub name: Seq<char>,
    pub count: i64,
    pub type_field: Option<Seq<char>>,
}

impl View for Bounce {
    type V = BounceView;

    open spec fn view(&self) -> BounceView {
        BounceView { name: self.name@, count: self.count, type_field: text_view(self.type_field) }
    }
}

impl FromJson for Bounce {
    type Model = BounceView;

    open spec fn model(&self) -> BounceView {
        self@
    }

    open spec fn decoded(doc: JsonValue) -> Option<BounceView> {
        match (text_at(doc, "Name"@), i64_at(doc, "Count"@), opt_text_at(doc, "TypeField"@)) {
            (Some(name), Some(count), Some(type_field)) => Some(
                BounceView { name, count, type_field },
            ),
            _ => None,
        }
    }

    fn from_json(doc: &Json) -> (r: Result<Self, DecodeError>) {
        let name = read_text(doc, "Name")?;
        let count = read_i64(doc, "Count")?;
        let type_field = read_opt_text(doc, "TypeField")?;
        Ok(Bounce { name, count, type_field })
    }
}

/// The service's count of messages that came back.
#[derive(Debug, Clone, PartialEq, Default)]
pub struct DeliveryStatsResponse {
    /// How many addresses no longer take messages.
    pub inactive_mails: i64,
    pub bounces: Vec<Bounce>,
}

/// The mathematical value of a [`DeliveryStatsResponse`].
pub struct DeliveryStatsResponseView {
    pub inactive_mails: i64,
    pub bounces: Seq<BounceView>,
}

impl View for DeliveryStatsResponse {
    type V = DeliveryStatsResponseView;

    open spec fn view(&self) -> DeliveryStatsResponseView {
        DeliveryStatsResponseView {
            inactive_mails: self.inactive_mails,
            bounces: models(self.bounces@),
        }
    }
}

impl FromJson for DeliveryStatsResponse {
    type Model = DeliveryStatsResponseView;

    open spec fn model(&self) -> DeliveryStatsResponseView {
        self@
    }

    open spec fn decoded(doc: JsonValue) -> Option<DeliveryStatsResponseView> {
        match (i64_at(doc, "InactiveMails"@), value_at::<Vec<Bounce>>(doc, "Bounces"@)) {
            (Some(inactive_mails), Some(bounces)) => Some(
                DeliveryStatsResponseView { inactive_mails, bounces },
            ),
            _ => None,
        }
    }

    fn from_json(doc: &Json) -> (r: Result<Self, DecodeError>) {
        let inactive_mails = read_i64(doc, "InactiveMails")?;
        let bounces = read::<Vec<Bounce>>(doc, "Bounces")?;
        Ok(DeliveryStatsResponse { inactive_mails, bounces })
    }
}

impl Endpoint for DeliveryStatsRequest {
    type Request = ();

    type Response = DeliveryStatsResponse;

    open spec fn path(&self) -> Seq<char> {
        "/deliverystats"@
    }

    open spec fn verb(&self) -> Method {
        Method::Get
    }

    open spec fn payload(&self) -> JsonValue {
        JsonValue::Null
    }

    fn endpoint(&self) -> (path: Cow<'static, str>) {
        Cow::Borrowed("/deliverystats")
    }

    fn body(&self) -> (body: &Self::Request) {
        &()
    }

    fn method(&self) -> (method: Method) {
        Method::Get
    }
}

} // verus!
