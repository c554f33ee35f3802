//! Streams of messages and the addresses that they leave out.

pub mod delete_suppression;
pub mod get_suppressions;

pub use delete_suppression::{
    DeleteSuppression, DeleteSuppressionRequest, DeleteSuppressionResponse,
    DeleteSuppressionResponseView, DeleteSuppressionView, Emails,
};
pub use get_suppressions::{
    GetSuppression, GetSuppressionRequest, GetSuppressionResponse, GetSuppressionResponseView,
    GetSuppressionView, Timestamp,
};

use crate::codec::{DecodeError, FromJson};
use crate::json::{Json, JsonValue};
use crate::text::is_text;
use vstd::prelude::*;
use vstd::string::StringExecFns;

verus! {

/// What became of the request to take an address off a stream's list.
#[derive(Debug, Clone, Copy, PartialEq, Eq, Structural, Default)]
pub enum SuppressionStatusType {
    #[default]
    Deleted,
    Failed,
}

impl FromJson for SuppressionStatusType {
    type Model = SuppressionStatusType;

    open spec fn model(&self) -> SuppressionStatusType {
        *self
    }

    /// The status that a string names.
    open spec fn decoded(doc: JsonValue) -> Option<SuppressionStatusType> {
        match doc {
            JsonValue::Str(s) => if s == "Deleted"@ {
                Some(SuppressionStatusType::Deleted)
            } else if s == "Failed"@ {
                Some(SuppressionStatusType::Failed)
            } else {
                None
            },
            _ => None,
        }
    }

    fn from_json(doc: &Json) -> (r: Result<Self, DecodeError>) {
        match doc.as_str() {
            Some(s) => {
                if is_text(s, "Deleted") {
                    Ok(SuppressionStatusType::Deleted)
                } else if is_text(s, "Failed") {
                    Ok(SuppressionStatusType::Failed)
                } else {
                    Err(DecodeError::Shape)
                }
            },
            None => Err(DecodeError::Shape),
        }
    }
}

/// What a stream is found by: its identifier or its name.
#[derive(Debug, Clone, PartialEq)]
pub enum StreamIdOrName {
    StreamId(String),
    StreamName(String),
}

impl StreamIdOrName {
    /// The text that stands for the stream in a path: the identifier or the
    /// name as it is.
    pub open spec fn text(&self) -> Seq<char> {
        match self {
            StreamIdOrName::StreamId(id) => id@,
            StreamIdOrName::StreamName(name) => name@,
        }
    }

    /// The text that stands for the stream in a path.
    pub fn to_string(&self) -> (text: String)
        ensures
            text@ == self.text(),
    {
        match self {
            StreamIdOrName::StreamId(id) => id.clone(),
            StreamIdOrName::StreamName(name) => name.clone(),
        }
    }
}

/// The path of what is asked of a stream's list: `/message-streams/`, the
/// text of the stream, `/suppressions/` and the name of what is asked.
pub open spec fn suppressions_path(stream: &StreamIdOrName, what: Seq<char>) -> Seq<char> {
    "/message-streams/"@ + stream.text() + "/suppressions/"@ + what
}

/// The path of what is asked of a stream's list.
pub(crate) fn suppressions_endpoint(stream: &StreamIdOrName, what: &str) -> (path: String)
    ensures
        path@ == suppressions_path(stream, what@),
{
    let mut path = String::from_str("/message-streams/");
    let text = stream.to_string();
    path.append(text.as_str());
    path.append("/suppressions/");
    path.append(what);
    path
}

} // verus!
