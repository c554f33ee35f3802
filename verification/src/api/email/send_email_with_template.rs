//! Sending one message made from a template.

use crate::api::email::send_email::{
    metadata_json, put_metadata, Attachment, Header, MetadataEntry, SendEmailResponse, TrackLink,
};
use crate::client::Endpoint;
use crate::codec::ToJson;
use crate::fields::{
    flag_json, int_json, maybe, object, one, put, put_opt, put_opt_flag, put_opt_int,
    put_opt_text, put_text, text_json, value_json,
};
use crate::json::{entries_view, Entry, Json, JsonValue, Member};
use crate::text::text_view;
use std::borrow::Cow;
use crate::wire::Method;
use vstd::prelude::*;
use vstd::string::StringExecFns;

verus! {

/// Whether no two of the members have one key.
pub open spec fn distinct(members: Seq<Member>) -> bool {
    forall|i: int, j: int| 0 <= i < j < members.len() ==> members[i].key != members[j].key
}

/// Whether one of the members has the key.
pub open spec fn has_key(members: Seq<Member>, key: Seq<char>) -> bool {
    exists|i: int| 0 <= i < members.len() && #[trigger] members[i].key == key
}

/// Whether member `i` is the first that has the key.
pub open spec fn first_with_key(members: Seq<Member>, key: Seq<char>, i: int) -> bool {
    &&& 0 <= i < members.len()
    &&& members[i].key == key
    &&& forall|j: int| 0 <= j < i ==> members[j].key != key
}

/// Where among the members the key stands first, if one of them has it.
pub open spec fn key_index(members: Seq<Member>, key: Seq<char>) -> int {
    choose|i: int| first_with_key(members, key, i)
}

/// The members after `value` is put under `key`: in the place of the member
/// that had the key, or at the end where none had.
pub open spec fn inserted(members: Seq<Member>, key: Seq<char>, value: JsonValue) -> Seq<Member> {
    if has_key(members, key) {
        members.update(key_index(members, key), Member { key, value })
    } else {
        members.push(Member { key, value })
    }
}

/// The members without the one that has the key.
pub open spec fn removed(members: Seq<Member>, key: Seq<char>) -> Seq<Member> {
    if has_key(members, key) {
        members.remove(key_index(members, key))
    } else {
        members
    }
}

/// The values that a template is filled in with, each under its name.
///
/// A model starts without values and takes them one by one, so no name
/// occurs twice in it.
#[derive(Debug, Clone, PartialEq)]
pub struct TemplateModel {
    model: Vec<Entry>,
}

impl TemplateModel {
    /// The values under their names, in the order in which the names came.
    pub closed spec fn members(&self) -> Seq<Member> {
        entries_view(self.model@)
    }

    /// A model without values.
    pub fn new() -> (model: Self)
        ensures
            model.members() == Seq::<Member>::empty(),
            distinct(model.members()),
    {
        let model: Vec<Entry> = Vec::new();
        assert(entries_view(model@) =~= Seq::<Member>::empty());
        TemplateModel { model }
    }

    /// Where the name stands first, if it is there.
    fn find(&self, key: &String) -> (at: Option<usize>)
        ensures
            match at {
                Some(i) => first_with_key(self.members(), key@, i as int) && has_key(
                    self.members(),
                    key@,
                ) && key_index(self.members(), key@) == i,
                None => !has_key(self.members(), key@),
            },
    {
        let mut i: usize = 0;
        while i < self.model.len()
            invariant
                i <= self.model.len(),
                forall|j: int| 0 <= j < i ==> self.model@[j].key@ != key@,
            decreases self.model.len() - i,
        {
            if self.model[i].key == *key {
                proof {
                    let members = self.members();
                    let first = key_index(members, key@);
                    assert(first_with_key(members, key@, i as int));
                    assert(first_with_key(members, key@, first));
                    assert(first == i) by {
                        if first < i {
                            assert(members[first].key != key@);
                        } else if i < first {
                            assert(members[i as int].key != key@);
                        }
                    }
                }
                return Some(i);
            }
            i += 1;
        }
        None
    }

    /// Puts a value under a name. A value that stood under the name gives
    /// way to the new one.
    pub fn insert(&mut self, key: String, value: Json)
        ensures
            final(self).members() == inserted(old(self).members(), key@, value@),
            distinct(old(self).members()) ==> distinct(final(self).members()),
    {
        let ghost before = self.members();
        match self.find(&key) {
            Some(i) => {
                self.model.set(i, Entry { key, value });
                assert(entries_view(self.model@) =~= inserted(before, key@, value@));
            },
            None => {
                self.model.push(Entry { key, value });
                assert(entries_view(self.model@) =~= inserted(before, key@, value@));
            },
        }
    }

    /// Takes a name and its value out.
    pub fn remove(&mut self, key: &str)
        ensures
            final(self).members() == removed(old(self).members(), key@),
            distinct(old(self).members()) ==> distinct(final(self).members()),
    {
        let ghost before = self.members();
        let wanted = String::from_str(key);
        match self.find(&wanted) {
            Some(i) => {
                self.model.remove(i);
                assert(entries_view(self.model@) =~= removed(before, key@));
            },
            None => {},
        }
    }

    /// The values under their names.
    pub fn into_inner(self) -> (entries: Vec<Entry>)
        ensures
            entries_view(entries@) == self.members(),
    {
        self.model
    }

    /// The object of the values under their names.
    pub fn object(&self) -> (doc: Json)
        ensures
            doc@ == JsonValue::Object(self.members()),
    {
        let mut copies: Vec<Entry> = Vec::new();
        let mut i: usize = 0;
        while i < self.model.len()
            invariant
                i <= self.model.len(),
                copies@.len() == i,
                forall|j: int|
                    0 <= j < i ==> (#[trigger] copies@[j]).key@ == self.model@[j].key@
                        && copies@[j].value@ == self.model@[j].value@,
            decreases self.model.len() - i,
        {
            copies.push(self.model[i].clone());
            i += 1;
        }
        assert(entries_view(copies@) =~= self.members());
        object(copies)
    }

    /// The model of these values: each is put under its name in turn, so of
    /// two with one name the later one stays.
    pub fn from_entries(entries: &Vec<Entry>) -> (model: Self)
        ensures
            model.members() == collected(entries_view(entries@)),
            distinct(model.members()),
    {
        let mut model = TemplateModel::new();
        let ghost all = entries_view(entries@);
        let mut n: usize = 0;
        while n < entries.len()
            invariant
                n <= entries.len(),
                all == entries_view(entries@),
                model.members() == collected(all.take(n as int)),
                distinct(model.members()),
            decreases entries.len() - n,
        {
            assert(all.take(n + 1).drop_last() =~= all.take(n as int));
            let entry = entries[n].clone();
            model.insert(entry.key, entry.value);
            n += 1;
        }
        assert(all.take(n as int) =~= all);
        model
    }
}

/// The members that come of putting each of `members` under its key in turn.
pub open spec fn collected(members: Seq<Member>) -> Seq<Member>
    decreases members.len(),
{
    if members.len() == 0 {
        Seq::empty()
    } else {
        inserted(collected(members.drop_last()), members.last().key, members.last().value)
    }
}

impl Default for TemplateModel {
    fn default() -> (model: Self)
        ensures
            model.members() == Seq::<Member>::empty(),
            distinct(model.members()),
    {
        TemplateModel::new()
    }
}

impl ToJson for TemplateModel {
    /// An object with the one member `model`, which is the object of the
    /// values under their names.
    open spec fn json(&self) -> JsonValue {
        JsonValue::Object(one("model"@, JsonValue::Object(self.members())))
    }

    fn to_json(&self) -> (doc: Json) {
        let mut entries: Vec<Entry> = Vec::new();
        put(&mut entries, "model", self.object());
        assert(entries_view(entries@) =~= self.json()->Object_0);
        object(entries)
    }
}

/// A message to make from a template and send.
#[derive(Debug, Clone, PartialEq)]
pub struct SendEmailWithTemplateRequest {
    /// The sender's address.
    pub from: String,
    /// The recipients' addresses, separated by commas.
    pub to: String,
    /// The number of the template. The service asks for this or the alias.
    pub template_id: Option<i64>,
    pub template_alias: Option<String>,
    pub template_model: TemplateModel,
    pub cc: Option<String>,
    pub bcc: Option<String>,
    pub tag: Option<String>,
    pub reply_to: Option<String>,
    pub headers: Option<Vec<Header>>,
    pub track_opens: Option<bool>,
    pub track_links: Option<TrackLink>,
    pub attachments: Option<Vec<Attachment>>,
    /// Pairs of the sender's own choosing. Of two pairs with one key the
    /// later one counts.
    pub metadata: Option<Vec<MetadataEntry>>,
    pub message_stream: Option<String>,
}

impl SendEmailWithTemplateRequest {
    /// A message with what every such message has and nothing more. The
    /// template is still to be named and its model is empty.
    pub fn new(from: String, to: String) -> (request: Self)
        ensures
            request.from == from,
            request.to == to,
            request.template_id is None,
            request.template_alias is None,
            request.template_model.members() == Seq::<Member>::empty(),
            request.cc is None,
            request.bcc is None,
            request.tag is None,
            request.reply_to is None,
            request.headers is None,
            request.track_opens is None,
            request.track_links is None,
            request.attachments is None,
            request.metadata is None,
            request.message_stream is None,
    {
        SendEmailWithTemplateRequest {
            from,
            to,
            template_id: None,
            template_alias: None,
            template_model: TemplateModel::new(),
            cc: None,
            bcc: None,
            tag: None,
            reply_to: None,
            headers: None,
            track_opens: None,
            track_links: None,
            attachments: None,
            metadata: None,
            message_stream: None,
        }
    }

    /// The same from the template of this number.
    pub fn with_template_id(self, template_id: i64) -> (request: Self)
        ensures
            request == (SendEmailWithTemplateRequest { template_id: Some(template_id), ..self }),
    {
        SendEmailWithTemplateRequest { template_id: Some(template_id), ..self }
    }

    /// The same from the template of this alias.
    pub fn with_template_alias(self, template_alias: String) -> (request: Self)
        ensures
            request == (SendEmailWithTemplateRequest {
                template_alias: Some(template_alias),
                ..self
            }),
    {
        SendEmailWithTemplateRequest { template_alias: Some(template_alias), ..self }
    }

    /// The same with these values to fill in.
    pub fn with_template_model(self, template_model: TemplateModel) -> (request: Self)
        ensures
            request == (SendEmailWithTemplateRequest { template_model: template_model, ..self }),
    {
        SendEmailWithTemplateRequest { template_model: template_model, ..self }
    }

    /// The same with these addresses in copy.
    pub fn with_cc(self, cc: String) -> (request: Self)
        ensures
            request == (SendEmailWithTemplateRequest { cc: Some(cc), ..self }),
    {
        SendEmailWithTemplateRequest { cc: Some(cc), ..self }
    }

    /// The same with these addresses in blind copy.
    pub fn with_bcc(self, bcc: String) -> (request: Self)
        ensures
            request == (SendEmailWithTemplateRequest { bcc: Some(bcc), ..self }),
    {
        SendEmailWithTemplateRequest { bcc: Some(bcc), ..self }
    }

    /// The same with this tag.
    pub fn with_tag(self, tag: String) -> (request: Self)
        ensures
            request == (SendEmailWithTemplateRequest { tag: Some(tag), ..self }),
    {
        SendEmailWithTemplateRequest { tag: Some(tag), ..self }
    }

    /// The same with this address to reply to.
    pub fn with_reply_to(self, reply_to: String) -> (request: Self)
        ensures
            request == (SendEmailWithTemplateRequest { reply_to: Some(reply_to), ..self }),
    {
        SendEmailWithTemplateRequest { reply_to: Some(reply_to), ..self }
    }

    /// The same with these header lines.
    pub fn with_headers(self, headers: Vec<Header>) -> (request: Self)
        ensures
            request == (SendEmailWithTemplateRequest { headers: Some(headers), ..self }),
    {
        SendEmailWithTemplateRequest { headers: Some(headers), ..self }
    }

    /// The same with this choice of tracking opens.
    pub fn with_track_opens(self, track_opens: bool) -> (request: Self)
        ensures
            request == (SendEmailWithTemplateRequest { track_opens: Some(track_opens), ..self }),
    {
        SendEmailWithTemplateRequest { track_opens: Some(track_opens), ..self }
    }

    /// The same with this choice of tracking links.
    pub fn with_track_links(self, track_links: TrackLink) -> (request: Self)
        ensures
            request == (SendEmailWithTemplateRequest { track_links: Some(track_links), ..self }),
    {
        SendEmailWithTemplateRequest { track_links: Some(track_links), ..self }
    }

    /// The same with these attachments.
    pub fn with_attachments(self, attachments: Vec<Attachment>) -> (request: Self)
        ensures
            request == (SendEmailWithTemplateRequest { attachments: Some(attachments), ..self }),
    {
        SendEmailWithTemplateRequest { attachments: Some(attachments), ..self }
    }

    /// The same with this metadata.
    pub fn with_metadata(self, metadata: Vec<MetadataEntry>) -> (request: Self)
        ensures
            request == (SendEmailWithTemplateRequest { metadata: Some(metadata), ..self }),
    {
        SendEmailWithTemplateRequest { metadata: Some(metadata), ..self }
    }

    /// The same through this stream.
    pub fn with_message_stream(self, message_stream: String) -> (request: Self)
        ensures
            request == (SendEmailWithTemplateRequest {
                message_stream: Some(message_stream),
                ..self
            }),
    {
        SendEmailWithTemplateRequest { message_stream: Some(message_stream), ..self }
    }
}

impl Default for SendEmailWithTemplateRequest {
    /// A message from nobody to nobody.
    fn default() -> (request: Self)
        ensures
            request.from@ == Seq::<char>::empty(),
            request.to@ == Seq::<char>::empty(),
            request.template_model.members() == Seq::<Member>::empty(),
    {
        SendEmailWithTemplateRequest::new(String::new(), String::new())
    }
}

impl ToJson for SendEmailWithTemplateRequest {
    /// One flat object: `From`, `To`, the template's number and alias where
    /// they are present, `model`, and then a member for each further field
    /// that is present.
    open spec fn json(&self) -> JsonValue {
        JsonValue::Object(
            one("From"@, JsonValue::Str(self.from@)) + one("To"@, JsonValue::Str(self.to@))
                + maybe("TemplateId"@, int_json(self.template_id)) + maybe(
                "TemplateAlias"@,
                text_json(text_view(self.template_alias)),
            ) + one("model"@, JsonValue::Object(self.template_model.members())) + maybe(
                "Cc"@,
                text_json(text_view(self.cc)),
            ) + maybe("Bcc"@, text_json(text_view(self.bcc))) + maybe(
                "Tag"@,
                text_json(text_view(self.tag)),
            ) + maybe("ReplyTo"@, text_json(text_view(self.reply_to))) + maybe(
                "Headers"@,
                value_json(self.headers),
            ) + maybe("TrackOpens"@, flag_json(self.track_opens)) + maybe(
                "TrackLinks"@,
                value_json(self.track_links),
            ) + maybe("Attachments"@, value_json(self.attachments)) + maybe(
                "Metadata"@,
                metadata_json(self.metadata),
            ) + maybe("MessageStream"@, text_json(text_view(self.message_stream))),
        )
    }

    fn to_json(&self) -> (doc: Json) {
        let mut entries: Vec<Entry> = Vec::new();
        put_text(&mut entries, "From", &self.from);
        put_text(&mut entries, "To", &self.to);
        put_opt_int(&mut entries, "TemplateId", &self.template_id);
        put_opt_text(&mut entries, "TemplateAlias", &self.template_alias);
        put(&mut entries, "model", self.template_model.object());
        put_opt_text(&mut entries, "Cc", &self.cc);
        put_opt_text(&mut entries, "Bcc", &self.bcc);
        put_opt_text(&mut entries, "Tag", &self.tag);
        put_opt_text(&mut entries, "ReplyTo", &self.reply_to);
        put_opt(&mut entries, "Headers", &self.headers);
        put_opt_flag(&mut entries, "TrackOpens", &self.track_opens);
        put_opt(&mut entries, "TrackLinks", &self.track_links);
        put_opt(&mut entries, "Attachments", &self.attachments);
        put_metadata(&mut entries, "Metadata", &self.metadata);
        put_opt_text(&mut entries, "MessageStream", &self.message_stream);
        assert(entries_view(entries@) =~= self.json()->Object_0);
        object(entries)
    }
}

impl Endpoint for SendEmailWithTemplateRequest {
    type Request = SendEmailWithTemplateRequest;

    type Response = SendEmailResponse;

    open spec fn path(&self) -> Seq<char> {
        "/email/withTemplate"@
    }

    open spec fn payload(&self) -> JsonValue {
        self.json()
    }

    fn endpoint(&self) -> (path: Cow<'static, str>) {
        Cow::Borrowed("/email/withTemplate")
    }

    fn body(&self) -> (body: &Self::Request) {
        self
    }

    fn method(&self) -> (method: Method) {
        Method::Post
    }
}

} // verus!
