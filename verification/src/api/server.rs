//! Servers of an account.

pub mod create_server;
pub mod get_server;

pub use create_server::{CreateServerRequest, CreateServerResponse, CreateServerResponseView};
pub use get_server::{GetServerRequest, GetServerResponse, GetServerResponseView};

use crate::codec::ToJson;
use crate::json::{Json, JsonValue};
use crate::text::{decimal, decimal_string};
use vstd::prelude::*;
use vstd::string::StringExecFns;

verus! {

/// What a server is found by: its number or its name.
#[derive(Debug, Clone, PartialEq)]
pub enum ServerIdOrName {
    ServerId(isize),
    ServerName(String),
}

impl ServerIdOrName {
    /// The text that stands for the server in a path: a number in decimal, a
    /// name as it is.
    pub open spec fn text(&self) -> Seq<char> {
        match self {
            ServerIdOrName::ServerId(id) => decimal(*id as int),
            ServerIdOrName::ServerName(name) => name@,
        }
    }

    /// The text that stands for the server in a path.
    pub fn to_string(&self) -> (text: String)
        ensures
            text@ == self.text(),
    {
        match self {
            ServerIdOrName::ServerId(id) => decimal_string(*id as i64),
            ServerIdOrName::ServerName(name) => name.clone(),
        }
    }
}

/// Whether a server sends its messages or only takes them.
#[derive(Debug, Clone, Copy, PartialEq, Eq, Structural, Default)]
pub enum DeliveryType {
    #[default]
    Live,
    Sandbox,
}

impl DeliveryType {
    /// The name that stands for the choice in a document.
    pub open spec fn name(&self) -> Seq<char> {
        match self {
            DeliveryType::Live => "Live"@,
            DeliveryType::Sandbox => "Sandbox"@,
        }
    }
}

impl ToJson for DeliveryType {
    open spec fn json(&self) -> JsonValue {
        JsonValue::Str(self.name())
    }

    fn to_json(&self) -> (doc: Json) {
        let name = match self {
            DeliveryType::Live => "Live",
            DeliveryType::Sandbox => "Sandbox",
        };
        Json::Str(String::from_str(name))
    }
}

/// The colour that marks a server.
#[derive(Debug, Clone, Copy, PartialEq, Eq, Structural, Default)]
pub enum ServerColor {
    #[default]
    Purple,
    Blue,
    Turquoise,
    Green,
    Red,
    Yellow,
    Grey,
    Orange,
}

impl ServerColor {
    /// The name that stands for the colour in a document.
    pub open spec fn name(&self) -> Seq<char> {
        match self {
            ServerColor::Purple => "Purple"@,
            ServerColor::Blue => "Blue"@,
            ServerColor::Turquoise => "Turquoise"@,
            ServerColor::Green => "Green"@,
            ServerColor::Red => "Red"@,
            ServerColor::Yellow => "Yellow"@,
            ServerColor::Grey => "Grey"@,
            ServerColor::Orange => "Orange"@,
        }
    }
}

impl ToJson for ServerColor {
    open spec fn json(&self) -> JsonValue {
        JsonValue::Str(self.name())
    }

    fn to_json(&self) -> (doc: Json) {
        let name = match self {
            ServerColor::Purple => "Purple",
            ServerColor::Blue => "Blue",
            ServerColor::Turquoise => "Turquoise",
            ServerColor::Green => "Green",
            ServerColor::Red => "Red",
            ServerColor::Yellow => "Yellow",
            ServerColor::Grey => "Grey",
            ServerColor::Orange => "Orange",
        };
        Json::Str(String::from_str(name))
    }
}

} // verus!
