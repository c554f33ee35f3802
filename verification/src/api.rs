//! The operations of the service, by section, and what several of them
//! share: the body of a message as text, as HTML, or as both.

pub mod bounce;
pub mod email;
pub mod message_streams;
pub mod server;
pub mod templates;
pub mod webhooks;

use crate::codec::{DecodeError, FromJson, ToJson};
use crate::fields::{lookup_add, object, one, put_text, read_text, text_at, text_json};
use crate::json::{entries_view, lookup, Entry, Json, JsonValue, Member};
use vstd::prelude::*;

verus! {

/// The body of a message.
#[derive(Debug, Clone, PartialEq)]
pub enum Body {
    Text { text: String },
    Html { html: String },
    HtmlAndText { html: String, text: String },
}

/// The mathematical value of a [`Body`].
pub enum BodyView {
    Text { text: Seq<char> },
    Html { html: Seq<char> },
    HtmlAndText { html: Seq<char>, text: Seq<char> },
}

impl View for Body {
    type V = BodyView;

    open spec fn view(&self) -> BodyView {
        match self {
            Body::Text { text } => BodyView::Text { text: text@ },
            Body::Html { html } => BodyView::Html { html: html@ },
            Body::HtmlAndText { html, text } => BodyView::HtmlAndText { html: html@, text: text@ },
        }
    }
}

impl Default for Body {
    /// A text body without text.
    fn default() -> (body: Self)
        ensures
            body@ == (BodyView::Text { text: Seq::empty() }),
    {
        Body::Text { text: String::new() }
    }
}

impl Body {
    /// A body that is text only.
    pub fn text(text: String) -> (body: Self)
        ensures
            body == (Body::Text { text }),
    {
        Body::Text { text }
    }

    /// A body that is HTML only.
    pub fn html(html: String) -> (body: Self)
        ensures
            body == (Body::Html { html }),
    {
        Body::Html { html }
    }

    /// A body that is both HTML and text.
    pub fn html_and_text(html: String, text: String) -> (body: Self)
        ensures
            body == (Body::HtmlAndText { html, text }),
    {
        Body::HtmlAndText { html, text }
    }

    /// The members that a body adds to the object of the record it stands
    /// in: one for each part that it has, `HtmlBody` before `TextBody`, and
    /// none for a part that it does not have.
    pub open spec fn members(&self) -> Seq<Member> {
        match self {
            Body::Text { text } => one("TextBody"@, JsonValue::Str(text@)),
            Body::Html { html } => one("HtmlBody"@, JsonValue::Str(html@)),
            Body::HtmlAndText { html, text } => one("HtmlBody"@, JsonValue::Str(html@)) + one(
                "TextBody"@,
                JsonValue::Str(text@),
            ),
        }
    }

    /// The text of the body, where it has one.
    pub open spec fn text_part(&self) -> Option<Seq<char>> {
        match self {
            Body::Text { text } => Some(text@),
            Body::Html { .. } => None,
            Body::HtmlAndText { text, .. } => Some(text@),
        }
    }

    /// The HTML of the body, where it has one.
    pub open spec fn html_part(&self) -> Option<Seq<char>> {
        match self {
            Body::Text { .. } => None,
            Body::Html { html } => Some(html@),
            Body::HtmlAndText { html, .. } => Some(html@),
        }
    }

    /// A body has a member for each part that it has and none for a part
    /// that it does not have: what is absent is left out, not written as
    /// `null`.
    pub proof fn members_are_the_parts(&self)
        ensures
            lookup(self.members(), "TextBody"@) == text_json(self.text_part()),
            lookup(self.members(), "HtmlBody"@) == text_json(self.html_part()),
    {
        reveal_strlit("TextBody");
        reveal_strlit("HtmlBody");
        reveal_with_fuel(lookup, 3);
        assert("TextBody"@[0] != "HtmlBody"@[0]);
        match self {
            Body::HtmlAndText { html, text } => {
                let first = one("HtmlBody"@, JsonValue::Str(html@));
                let second = one("TextBody"@, JsonValue::Str(text@));
                lookup_add(first, second, "TextBody"@);
                lookup_add(first, second, "HtmlBody"@);
            },
            _ => {},
        }
    }

    /// Appends the members of the body.
    pub fn put_members(&self, entries: &mut Vec<Entry>)
        ensures
            entries_view(final(entries)@) == entries_view(old(entries)@) + self.members(),
    {
        match self {
            Body::Text { text } => {
                put_text(entries, "TextBody", text);
            },
            Body::Html { html } => {
                put_text(entries, "HtmlBody", html);
            },
            Body::HtmlAndText { html, text } => {
                put_text(entries, "HtmlBody", html);
                put_text(entries, "TextBody", text);
                assert(entries_view(entries@) =~= entries_view(old(entries)@) + self.members());
            },
        }
    }

    /// The body among the members of an object. A `TextBody` that is a string
    /// makes a text body, whatever else is there. Without one, an `HtmlBody`
    /// that is a string makes an HTML body. Without either there is no body.
    pub open spec fn among(doc: JsonValue) -> Option<BodyView> {
        match text_at(doc, "TextBody"@) {
            Some(text) => Some(BodyView::Text { text }),
            None => match text_at(doc, "HtmlBody"@) {
                Some(html) => Some(BodyView::Html { html }),
                None => None,
            },
        }
    }
}

impl ToJson for Body {
    /// The object of the body's members.
    open spec fn json(&self) -> JsonValue {
        JsonValue::Object(self.members())
    }

    fn to_json(&self) -> (doc: Json) {
        let mut entries: Vec<Entry> = Vec::new();
        self.put_members(&mut entries);
        assert(entries_view(entries@) =~= self.members());
        object(entries)
    }
}

impl FromJson for Body {
    type Model = BodyView;

    open spec fn model(&self) -> BodyView {
        self@
    }

    open spec fn decoded(doc: JsonValue) -> Option<BodyView> {
        Body::among(doc)
    }

    fn from_json(doc: &Json) -> (r: Result<Self, DecodeError>) {
        match read_text(doc, "TextBody") {
            Ok(text) => Ok(Body::Text { text }),
            Err(_) => match read_text(doc, "HtmlBody") {
                Ok(html) => Ok(Body::Html { html }),
                Err(e) => Err(e),
            },
        }
    }
}

/// A message body in both forms.
#[derive(Debug, Clone, PartialEq)]
pub struct HtmlAndText {
    pub html: String,
    pub text: String,
}

} // verus!
