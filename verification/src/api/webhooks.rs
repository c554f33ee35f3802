//! Webhooks of a server.

pub mod create_webhook;

pub use create_webhook::{
    CreateWebhookRequest, CreateWebhookResponse, CreateWebhookResponseView, TriggerConfig,
    Triggers,
};

use crate::text::{decimal, decimal_string};
use vstd::prelude::*;

verus! {

/// What a server is found by: its number or its name.
#[derive(Debug, Clone, PartialEq)]
pub enum ServerIdOrName {
    ServerId(isize),
    ServerName(String),
}

impl ServerIdOrName {
    /// The text that stands for the server in a path: a number in decimal, a
    /// name as it is.
    pub open spec fn text(&self) -> Seq<char> {
        match self {
            ServerIdOrName::ServerId(id) => decimal(*id as int),
            ServerIdOrName::ServerName(name) => name@,
        }
    }

    /// The text that stands for the server in a path.
    pub fn to_string(&self) -> (text: String)
        ensures
            text@ == self.text(),
    {
        match self {
            ServerIdOrName::ServerId(id) => decimal_string(*id as i64),
            ServerIdOrName::ServerName(name) => name.clone(),
        }
    }
}

} // verus!
