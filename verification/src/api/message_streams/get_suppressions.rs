//! The list of addresses that a stream leaves out.

use crate::api::message_streams::{suppressions_endpoint, suppressions_path, StreamIdOrName};
use crate::client::Endpoint;
use crate::codec::{DecodeError, FromJson, ToJson};
use crate::fields::{models, object, read, read_text, text_at, value_at};
use crate::json::{entries_view, Entry, Json, JsonValue, Member};
use crate::wire::Method;
use std::borrow::Cow;
use vstd::prelude::*;

verus! {

/// `time::error::Parse`: why `time` refused a text as a date and time. It
/// goes no further than the reading of a [`Timestamp`].
#[verifier::external_type_specification]
#[verifier::external_body]
pub struct ExTimeParseError(time::error::Parse);

/// A point in time, as a clock at some offset from UTC shows it.
#[derive(Debug, Clone, Copy, PartialEq, Eq, Structural)]
pub struct Timestamp {
    /// Whole seconds since the start of 1970, UTC.
    pub unix_seconds: i64,
    /// The nanoseconds past that second.
    pub nanosecond: u32,
    /// How many seconds the clock is ahead of UTC.
    pub offset_seconds: i32,
}

/// The point in time that a text in the format of RFC 3339 names, where
/// `time` takes the text as one.
pub uninterp spec fn rfc3339_time(text: Seq<char>) -> Option<Timestamp>;

/// `time::OffsetDateTime::parse` with the format `Rfc3339`; of the date and
/// time that it gives `unix_timestamp`, `nanosecond` and the offset's
/// `whole_seconds`. Claims only that the outcome is a function of the text.
#[verifier::external_body]
fn parse_rfc3339(text: &str) -> (r: Result<Timestamp, time::error::Parse>)
    ensures
        match r {
            Ok(at) => rfc3339_time(text@) == Some(at),
            Err(_) => rfc3339_time(text@) is None,
        },
{
    let at = time::OffsetDateTime::parse(text, &time::format_description::well_known::Rfc3339)?;
    Ok(Timestamp {
        unix_seconds: at.unix_timestamp(),
        nanosecond: at.nanosecond(),
        offset_seconds: at.offset().whole_seconds(),
    })
}

impl FromJson for Timestamp {
    type Model = Timestamp;

    open spec fn model(&self) -> Timestamp {
        *self
    }

    /// The point in time that a string names.
    open spec fn decoded(doc: JsonValue) -> Option<Timestamp> {
        match doc {
            JsonValue::Str(s) => rfc3339_time(s),
            _ => None,
        }
    }

    fn from_json(doc: &Json) -> (r: Result<Self, DecodeError>) {
        match doc.as_str() {
            Some(s) => match parse_rfc3339(s.as_str()) {
                Ok(at) => Ok(at),
                Err(_) => Err(DecodeError::Shape),
            },
            None => Err(DecodeError::Shape),
        }
    }
}

/// The stream whose list is asked for.
#[derive(Debug, Clone, PartialEq)]
pub struct GetSuppressionRequest {
    /// The stream. It is part of the path only, not of the body.
    pub stream_id: StreamIdOrName,
}

impl GetSuppressionRequest {
    /// The request for the list of this stream.
    pub fn new(stream_id: StreamIdOrName) -> (request: Self)
        ensures
            request == (GetSuppressionRequest { stream_id }),
    {
        GetSuppressionRequest {
            stream_id,
        }
    }
}

impl ToJson for GetSuppressionRequest {
    /// The object without members.
    open spec fn json(&self) -> JsonValue {
        JsonValue::Object(Seq::empty())
    }

    fn to_json(&self) -> (doc: Json) {
        let entries: Vec<Entry> = Vec::new();
        assert(entries_view(entries@) =~= Seq::<Member>::empty());
        object(entries)
    }
}

/// One address on a stream's list.
#[derive(Debug, Clone, PartialEq)]
pub struct GetSuppression {
    pub email_address: String,
    pub suppression_reason: String,
    /// Who put the address on the list.
    pub origin: String,
    pub created_at: Timestamp,
}

/// The mathematical value of a [`GetSuppression`].
pub struct GetSuppressionView {
    pub email_address: Seq<char>,
    pub suppression_reason: Seq<char>,
    pub origin: Seq<char>,
    pub created_at: Timestamp,
}

impl View for GetSuppression {
    type V = GetSuppressionView;

    open spec fn view(&self) -> GetSuppressionView {
        GetSuppressionView {
            email_address: self.email_address@,
            suppression_reason: self.suppression_reason@,
            origin: self.origin@,
            created_at: self.created_at,
        }
    }
}

impl FromJson for GetSuppression {
    type Model = GetSuppressionView;

    open spec fn model(&self) -> GetSuppressionView {
        self@
    }

    open spec fn decoded(doc: JsonValue) -> Option<GetSuppressionView> {
        match (
            text_at(doc, "EmailAddress"@),
            text_at(doc, "SuppressionReason"@),
            text_at(doc, "Origin"@),
            value_at::<Timestamp>(doc, "CreatedAt"@),
        ) {
            (Some(email_address), Some(suppression_reason), Some(origin), Some(created_at)) => Some(
                GetSuppressionView { email_address, suppression_reason, origin, created_at },
            ),
            _ => None,
        }
    }

    fn from_json(doc: &Json) -> (r: Result<Self, DecodeError>) {
        let email_address = read_text(doc, "EmailAddress")?;
        let suppression_reason = read_text(doc, "SuppressionReason")?;
        let origin = read_text(doc, "Origin")?;
        let created_at = read::<Timestamp>(doc, "CreatedAt")?;
        Ok(GetSuppression { email_address, suppression_reason, origin, created_at })
    }
}

/// The service's answer: the addresses on the list.
#[derive(Debug, Clone, PartialEq, Default)]
pub struct GetSuppressionResponse {
    pub suppressions: Vec<GetSuppression>,
}

/// The mathematical value of a [`GetSuppressionResponse`].
pub struct GetSuppressionResponseView {
    pub suppressions: Seq<GetSuppressionView>,
}

impl View for GetSuppressionResponse {
    type V = GetSuppressionResponseView;

    open spec fn view(&self) -> GetSuppressionResponseView {
        GetSuppressionResponseView { suppressions: models(self.suppressions@) }
    }
}

impl FromJson for GetSuppressionResponse {
    type Model = GetSuppressionResponseView;

    open spec fn model(&self) -> GetSuppressionResponseView {
        self@
    }

    open spec fn decoded(doc: JsonValue) -> Option<GetSuppressionResponseView> {
        match value_at::<Vec<GetSuppression>>(doc, "Suppressions"@) {
            Some(suppressions) => Some(GetSuppressionResponseView { suppressions }),
            None => None,
        }
    }

    fn from_json(doc: &Json) -> (r: Result<Self, DecodeError>) {
        let suppressions = read::<Vec<GetSuppression>>(doc, "Suppressions")?;
        Ok(GetSuppressionResponse { suppressions })
    }
}

impl Endpoint for GetSuppressionRequest {
    type Request = GetSuppressionRequest;

    type Response = GetSuppressionResponse;

    open spec fn path(&self) -> Seq<char> {
        suppressions_path(&self.stream_id, "dump"@)
    }

    open spec fn verb(&self) -> Method {
        Method::Get
    }

    open spec fn payload(&self) -> JsonValue {
        self.json()
    }

    fn endpoint(&self) -> (path: Cow<'static, str>) {
        Cow::Owned(suppressions_endpoint(&self.stream_id, "dump"))
    }

    /// The request itself.
    fn body(&self) -> (body: &Self::Request)
        ensures
            body == self,
    {
        self
    }

    fn method(&self) -> (method: Method) {
        Method::Get
    }
}

} // verus!
