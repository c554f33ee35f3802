//! Sending one message.

use crate::api::Body;
use crate::client::Endpoint;
use crate::codec::{DecodeError, FromJson, ToJson};
use crate::fields::{
    flag_json, i64_at, lookup_add, lookup_skips, maybe, object, one, opt_text_at, put_opt,
    put_opt_flag, put_opt_text,
    put_some, put_text, read_i64, read_opt_text, read_text, text_at, text_json, value_json,
};
use crate::json::{entries_view, lookup, Entry, Json, JsonValue, Member};
use crate::text::text_view;
use std::borrow::Cow;
use crate::wire::Method;
use vstd::prelude::*;
use vstd::string::StringExecFns;

verus! {

/// A header line to add to a message.
#[derive(Debug, Clone, PartialEq, Default)]
pub struct Header {
    pub name: String,
    pub value: String,
}

impl ToJson for Header {
    open spec fn json(&self) -> JsonValue {
        JsonValue::Object(
            one("Name"@, JsonValue::Str(self.name@)) + one("Value"@, JsonValue::Str(self.value@)),
        )
    }

    fn to_json(&self) -> (doc: Json) {
        let mut entries: Vec<Entry> = Vec::new();
        put_text(&mut entries, "Name", &self.name);
        put_text(&mut entries, "Value", &self.value);
        assert(entries_view(entries@) =~= self.json()->Object_0);
        object(entries)
    }
}

/// A file to send along with a message.
#[derive(Debug, Clone, PartialEq, Default)]
pub struct Attachment {
    pub name: String,
    pub content: String,
    pub content_type: String,
    pub content_id: Option<String>,
}

impl ToJson for Attachment {
    open spec fn json(&self) -> JsonValue {
        JsonValue::Object(
            one("Name"@, JsonValue::Str(self.name@)) + one(
                "Content"@,
                JsonValue::Str(self.content@),
            ) + one("ContentType"@, JsonValue::Str(self.content_type@)) + maybe(
                "ContentId"@,
                text_json(text_view(self.content_id)),
            ),
        )
    }

    fn to_json(&self) -> (doc: Json) {
        let mut entries: Vec<Entry> = Vec::new();
        put_text(&mut entries, "Name", &self.name);
        put_text(&mut entries, "Content", &self.content);
        put_text(&mut entries, "ContentType", &self.content_type);
        put_opt_text(&mut entries, "ContentId", &self.content_id);
        assert(entries_view(entries@) =~= self.json()->Object_0);
        object(entries)
    }
}

/// Which links of a message are tracked.
#[derive(Debug, Clone, Copy, PartialEq, Eq, Structural)]
pub enum TrackLink {
    /// No links are tracked. In a document this choice is called `None`.
    NoLinks,
    HtmlAndText,
    HtmlOnly,
    TextOnly,
}

impl Default for TrackLink {
    fn default() -> (track: Self)
        ensures
            track == TrackLink::NoLinks,
    {
        TrackLink::NoLinks
    }
}

impl TrackLink {
    /// The name that stands for the choice in a document.
    pub open spec fn name(&self) -> Seq<char> {
        match self {
            TrackLink::NoLinks => "None"@,
            TrackLink::HtmlAndText => "HtmlAndText"@,
            TrackLink::HtmlOnly => "HtmlOnly"@,
            TrackLink::TextOnly => "TextOnly"@,
        }
    }
}

impl ToJson for TrackLink {
    open spec fn json(&self) -> JsonValue {
        JsonValue::Str(self.name())
    }

    fn to_json(&self) -> (doc: Json) {
        let name = match self {
            TrackLink::NoLinks => "None",
            TrackLink::HtmlAndText => "HtmlAndText",
            TrackLink::HtmlOnly => "HtmlOnly",
            TrackLink::TextOnly => "TextOnly",
        };
        Json::Str(String::from_str(name))
    }
}

/// One pair of a message's metadata.
#[derive(Debug, Clone, PartialEq, Default)]
pub struct MetadataEntry {
    pub key: String,
    pub value: String,
}

/// The members of a metadata object: one for each pair, in order.
pub open spec fn metadata_members(pairs: Seq<MetadataEntry>) -> Seq<Member> {
    Seq::new(
        pairs.len(),
        |i: int| Member { key: pairs[i].key@, value: JsonValue::Str(pairs[i].value@) },
    )
}

/// The document of a message's metadata, where it has any: an object with one
/// member for each pair.
pub open spec fn metadata_json(metadata: Option<Vec<MetadataEntry>>) -> Option<JsonValue> {
    match metadata {
        Some(pairs) => Some(JsonValue::Object(metadata_members(pairs@))),
        None => None,
    }
}

/// Appends a message's metadata under `key` where it has any.
pub fn put_metadata(entries: &mut Vec<Entry>, key: &str, metadata: &Option<Vec<MetadataEntry>>)
    ensures
        entries_view(final(entries)@) == entries_view(old(entries)@) + maybe(
            key@,
            metadata_json(*metadata),
        ),
{
    match metadata {
        None => put_some(entries, key, None),
        Some(pairs) => {
            let mut members: Vec<Entry> = Vec::new();
            let mut i: usize = 0;
            while i < pairs.len()
                invariant
                    i <= pairs.len(),
                    members@.len() == i,
                    forall|j: int|
                        0 <= j < i ==> (#[trigger] members@[j]).key@ == pairs@[j].key@
                            && members@[j].value@ == JsonValue::Str(pairs@[j].value@),
                decreases pairs.len() - i,
            {
                members.push(
                    Entry { key: pairs[i].key.clone(), value: Json::Str(pairs[i].value.clone()) },
                );
                i += 1;
            }
            assert(entries_view(members@) =~= metadata_members(pairs@));
            put_some(entries, key, Some(object(members)));
        },
    }
}

/// A message to send.
#[derive(Debug, Clone, PartialEq, Default)]
pub struct SendEmailRequest {
    /// The sender's address.
    pub from: String,
    /// The recipients' addresses, separated by commas.
    pub to: String,
    /// The body of the message.
    pub body: Body,
    pub cc: Option<String>,
    pub bcc: Option<String>,
    pub subject: Option<String>,
    /// A tag to sort sent messages by.
    pub tag: Option<String>,
    pub reply_to: Option<String>,
    /// Header lines to add.
    pub headers: Option<Vec<Header>>,
    /// Whether opening the message is tracked.
    pub track_opens: Option<bool>,
    pub track_links: Option<TrackLink>,
    pub attachments: Option<Vec<Attachment>>,
    /// Pairs of the sender's own choosing. Of two pairs with one key the
    /// later one counts.
    pub metadata: Option<Vec<MetadataEntry>>,
    /// The stream to send through.
    pub message_stream: Option<String>,
}

impl SendEmailRequest {
    /// A message with what every message has and nothing more.
    pub fn new(from: String, to: String, body: Body) -> (request: Self)
        ensures
            request == (SendEmailRequest {
                from,
                to,
                body,
                cc: None,
                bcc: None,
                subject: None,
                tag: None,
                reply_to: None,
                headers: None,
                track_opens: None,
                track_links: None,
                attachments: None,
                metadata: None,
                message_stream: None,
            }),
    {
        SendEmailRequest {
            from,
            to,
            body,
            cc: None,
            bcc: None,
            subject: None,
            tag: None,
            reply_to: None,
            headers: None,
            track_opens: None,
            track_links: None,
            attachments: None,
            metadata: None,
            message_stream: None,
        }
    }

    /// The same with this subject.
    pub fn with_subject(self, subject: String) -> (request: Self)
        ensures
            request == (SendEmailRequest { subject: Some(subject), ..self }),
    {
        SendEmailRequest { subject: Some(subject), ..self }
    }

    /// The same with these addresses in copy.
    pub fn with_cc(self, cc: String) -> (request: Self)
        ensures
            request == (SendEmailRequest { cc: Some(cc), ..self }),
    {
        SendEmailRequest { cc: Some(cc), ..self }
    }

    /// The same with these addresses in blind copy.
    pub fn with_bcc(self, bcc: String) -> (request: Self)
        ensures
            request == (SendEmailRequest { bcc: Some(bcc), ..self }),
    {
        SendEmailRequest { bcc: Some(bcc), ..self }
    }

    /// The same with this tag.
    pub fn with_tag(self, tag: String) -> (request: Self)
        ensures
            request == (SendEmailRequest { tag: Some(tag), ..self }),
    {
        SendEmailRequest { tag: Some(tag), ..self }
    }

    /// The same with this address to reply to.
    pub fn with_reply_to(self, reply_to: String) -> (request: Self)
        ensures
            request == (SendEmailRequest { reply_to: Some(reply_to), ..self }),
    {
        SendEmailRequest { reply_to: Some(reply_to), ..self }
    }

    /// The same with these header lines.
    pub fn with_headers(self, headers: Vec<Header>) -> (request: Self)
        ensures
            request == (SendEmailRequest { headers: Some(headers), ..self }),
    {
        SendEmailRequest { headers: Some(headers), ..self }
    }

    /// The same with this choice of tracking opens.
    pub fn with_track_opens(self, track_opens: bool) -> (request: Self)
        ensures
            request == (SendEmailRequest { track_opens: Some(track_opens), ..self }),
    {
        SendEmailRequest { track_opens: Some(track_opens), ..self }
    }

    /// The same with this choice of tracking links.
    pub fn with_track_links(self, track_links: TrackLink) -> (request: Self)
        ensures
            request == (SendEmailRequest { track_links: Some(track_links), ..self }),
    {
        SendEmailRequest { track_links: Some(track_links), ..self }
    }

    /// The same with these attachments.
    pub fn with_attachments(self, attachments: Vec<Attachment>) -> (request: Self)
        ensures
            request == (SendEmailRequest { attachments: Some(attachments), ..self }),
    {
        SendEmailRequest { attachments: Some(attachments), ..self }
    }

    /// The same with this metadata.
    pub fn with_metadata(self, metadata: Vec<MetadataEntry>) -> (request: Self)
        ensures
            request == (SendEmailRequest { metadata: Some(metadata), ..self }),
    {
        SendEmailRequest { metadata: Some(metadata), ..self }
    }

    /// The same through this stream.
    pub fn with_message_stream(self, message_stream: String) -> (request: Self)
        ensures
            request == (SendEmailRequest { message_stream: Some(message_stream), ..self }),
    {
        SendEmailRequest { message_stream: Some(message_stream), ..self }
    }
}

impl SendEmailRequest {
    /// Which of the members `TextBody` and `HtmlBody` the document of a
    /// message has is a matter of its body alone: it has the one for each
    /// part that the body has, and does not have the other. So a message
    /// whose body is text only has no member `HtmlBody` at all.
    pub proof fn body_members(&self)
        ensures
            self.json().member("TextBody"@) == text_json(self.body.text_part()),
            self.json().member("HtmlBody"@) == text_json(self.body.html_part()),
    {
        reveal_strlit("TextBody");
        reveal_strlit("HtmlBody");
        reveal_strlit("From");
        reveal_strlit("To");
        reveal_strlit("Cc");
        reveal_strlit("Bcc");
        reveal_strlit("Subject");
        reveal_strlit("Tag");
        reveal_strlit("ReplyTo");
        reveal_strlit("Headers");
        reveal_strlit("TrackOpens");
        reveal_strlit("TrackLinks");
        reveal_strlit("Attachments");
        reveal_strlit("Metadata");
        reveal_strlit("MessageStream");
        assert("TextBody"@.len() == 8 && "HtmlBody"@.len() == 8);
        assert("From"@.len() == 4 && "To"@.len() == 2 && "Cc"@.len() == 2 && "Bcc"@.len() == 3);
        assert("Subject"@.len() == 7 && "Tag"@.len() == 3 && "ReplyTo"@.len() == 7);
        assert("Headers"@.len() == 7 && "TrackOpens"@.len() == 10 && "TrackLinks"@.len() == 10);
        assert("Attachments"@.len() == 11 && "MessageStream"@.len() == 13);
        assert("Metadata"@[0] != "TextBody"@[0] && "Metadata"@[0] != "HtmlBody"@[0]);
        let m0 = one("From"@, JsonValue::Str(self.from@));
        let t1 = one("To"@, JsonValue::Str(self.to@));
        let t2 = self.body.members();
        let t3 = maybe("Cc"@, text_json(text_view(self.cc)));
        let t4 = maybe("Bcc"@, text_json(text_view(self.bcc)));
        let t5 = maybe("Subject"@, text_json(text_view(self.subject)));
        let t6 = maybe("Tag"@, text_json(text_view(self.tag)));
        let t7 = maybe("ReplyTo"@, text_json(text_view(self.reply_to)));
        let t8 = maybe("Headers"@, value_json(self.headers));
        let t9 = maybe("TrackOpens"@, flag_json(self.track_opens));
        let t10 = maybe("TrackLinks"@, value_json(self.track_links));
        let t11 = maybe("Attachments"@, value_json(self.attachments));
        let t12 = maybe("Metadata"@, metadata_json(self.metadata));
        let t13 = maybe("MessageStream"@, text_json(text_view(self.message_stream)));
        let m1 = m0 + t1;
        let m2 = m1 + t2;
        let m3 = m2 + t3;
        let m4 = m3 + t4;
        let m5 = m4 + t5;
        let m6 = m5 + t6;
        let m7 = m6 + t7;
        let m8 = m7 + t8;
        let m9 = m8 + t9;
        let m10 = m9 + t10;
        let m11 = m10 + t11;
        let m12 = m11 + t12;
        let m13 = m12 + t13;
        assert(self.json() == JsonValue::Object(m13));
        self.body.members_are_the_parts();
        assert forall|key: Seq<char>| key == "TextBody"@ || key == "HtmlBody"@ implies lookup(
            m13,
            key,
        ) == lookup(t2, key) by {
            lookup_skips(m12, t13, key);
            lookup_skips(m11, t12, key);
            lookup_skips(m10, t11, key);
            lookup_skips(m9, t10, key);
            lookup_skips(m8, t9, key);
            lookup_skips(m7, t8, key);
            lookup_skips(m6, t7, key);
            lookup_skips(m5, t6, key);
            lookup_skips(m4, t5, key);
            lookup_skips(m3, t4, key);
            lookup_skips(m2, t3, key);
            lookup_add(m1, t2, key);
            lookup_skips(m0, t1, key);
            lookup_skips(Seq::empty(), m0, key);
            assert(Seq::<Member>::empty() + m0 =~= m0);
            assert(lookup(Seq::<Member>::empty(), key) is None);
        }
    }
}

impl ToJson for SendEmailRequest {
    /// One flat object: `From`, `To`, the members of the body, and then a
    /// member for each further field that is present.
    open spec fn json(&self) -> JsonValue {
        JsonValue::Object(
            one("From"@, JsonValue::Str(self.from@)) + one("To"@, JsonValue::Str(self.to@))
                + self.body.members() + maybe("Cc"@, text_json(text_view(self.cc))) + maybe(
                "Bcc"@,
                text_json(text_view(self.bcc)),
            ) + maybe("Subject"@, text_json(text_view(self.subject))) + maybe(
                "Tag"@,
                text_json(text_view(self.tag)),
            ) + maybe("ReplyTo"@, text_json(text_view(self.reply_to))) + maybe(
                "Headers"@,
                value_json(self.headers),
            ) + maybe("TrackOpens"@, flag_json(self.track_opens)) + maybe(
                "TrackLinks"@,
                value_json(self.track_links),
            ) + maybe("Attachments"@, value_json(self.attachments)) + maybe(
                "Metadata"@,
                metadata_json(self.metadata),
            ) + maybe("MessageStream"@, text_json(text_view(self.message_stream))),
        )
    }

    fn to_json(&self) -> (doc: Json) {
        let mut entries: Vec<Entry> = Vec::new();
        put_text(&mut entries, "From", &self.from);
        put_text(&mut entries, "To", &self.to);
        self.body.put_members(&mut entries);
        put_opt_text(&mut entries, "Cc", &self.cc);
        put_opt_text(&mut entries, "Bcc", &self.bcc);
        put_opt_text(&mut entries, "Subject", &self.subject);
        put_opt_text(&mut entries, "Tag", &self.tag);
        put_opt_text(&mut entries, "ReplyTo", &self.reply_to);
        put_opt(&mut entries, "Headers", &self.headers);
        put_opt_flag(&mut entries, "TrackOpens", &self.track_opens);
        put_opt(&mut entries, "TrackLinks", &self.track_links);
        put_opt(&mut entries, "Attachments", &self.attachments);
        put_metadata(&mut entries, "Metadata", &self.metadata);
        put_opt_text(&mut entries, "MessageStream", &self.message_stream);
        assert(entries_view(entries@) =~= self.json()->Object_0);
        object(entries)
    }
}

/// The service's answer to a message.
///
/// Where the message was taken, `error_code` is 0 and every field is there.
/// Where it was not, `error_code` and `message` say why.
#[derive(Debug, Clone, PartialEq, Default)]
pub struct SendEmailResponse {
    pub to: Option<String>,
    pub submitted_at: Option<String>,
    pub message_id: Option<String>,
    pub error_code: i64,
    pub message: String,
}

/// The mathematical value of a [`SendEmailResponse`].
pub struct SendEmailResponseView {
    pub to: Option<Seq<char>>,
    pub submitted_at: Option<Seq<char>>,
    pub message_id: Option<Seq<char>>,
    pub error_code: i64,
    pub message: Seq<char>,
}

impl View for SendEmailResponse {
    type V = SendEmailResponseView;

    open spec fn view(&self) -> SendEmailResponseView {
        SendEmailResponseView {
            to: text_view(self.to),
            submitted_at: text_view(self.submitted_at),
            message_id: text_view(self.message_id),
            error_code: self.error_code,
            message: self.message@,
        }
    }
}

impl SendEmailResponse {
    /// The answer as a result: `Ok` where the service took the message, which
    /// is where the error code is 0, and `Err` where it did not. Either way
    /// the answer itself is handed back.
    pub fn error_for_status(self) -> (r: Result<Self, SendEmailResponse>)
        ensures
            self.error_code == 0 ==> r == Ok::<Self, SendEmailResponse>(self),
            self.error_code != 0 ==> r == Err::<Self, SendEmailResponse>(self),
    {
        if self.error_code == 0 {
            Ok(self)
        } else {
            Err(self)
        }
    }
}

impl FromJson for SendEmailResponse {
    type Model = SendEmailResponseView;

    open spec fn model(&self) -> SendEmailResponseView {
        self@
    }

    open spec fn decoded(doc: JsonValue) -> Option<SendEmailResponseView> {
        match (
            opt_text_at(doc, "To"@),
            opt_text_at(doc, "SubmittedAt"@),
            opt_text_at(doc, "MessageID"@),
            i64_at(doc, "ErrorCode"@),
            text_at(doc, "Message"@),
        ) {
            (
                Some(to),
                Some(submitted_at),
                Some(message_id),
                Some(error_code),
                Some(message),
            ) => Some(SendEmailResponseView { to, submitted_at, message_id, error_code, message }),
            _ => None,
        }
    }

    fn from_json(doc: &Json) -> (r: Result<Self, DecodeError>) {
        let to = read_opt_text(doc, "To")?;
        let submitted_at = read_opt_text(doc, "SubmittedAt")?;
        let message_id = read_opt_text(doc, "MessageID")?;
        let error_code = read_i64(doc, "ErrorCode")?;
        let message = read_text(doc, "Message")?;
        Ok(SendEmailResponse { to, submitted_at, message_id, error_code, message })
    }
}

impl Endpoint for SendEmailRequest {
    type Request = SendEmailRequest;

    type Response = SendEmailResponse;

    open spec fn path(&self) -> Seq<char> {
        "/email"@
    }

    open spec fn payload(&self) -> JsonValue {
        self.json()
    }

    fn endpoint(&self) -> (path: Cow<'static, str>) {
        Cow::Borrowed("/email")
    }

    fn body(&self) -> (body: &Self::Request) {
        self
    }

    fn method(&self) -> (method: Method) {
        Method::Post
    }
}

} // verus!
