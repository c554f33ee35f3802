//! What goes over the wire: a request and a response as plain values.

use crate::text::text_view;
use vstd::prelude::*;

verus! {

/// `http::Error`: why `http` refused a part of a message. It is handed on
/// as it is.
#[verifier::external_type_specification]
#[verifier::external_body]
pub struct ExHttpError(http::Error);

/// The method of an HTTP request.
#[derive(Debug, Clone, Copy, PartialEq, Eq, Structural)]
pub enum Method {
    Get,
    Post,
    Put,
    Delete,
    Head,
    Options,
    Connect,
    Patch,
    Trace,
}

impl Method {
    /// The method's token, as it stands in a request line.
    pub open spec fn token(self) -> Seq<char> {
        match self {
            Method::Get => "GET"@,
            Method::Post => "POST"@,
            Method::Put => "PUT"@,
            Method::Delete => "DELETE"@,
            Method::Head => "HEAD"@,
            Method::Options => "OPTIONS"@,
            Method::Connect => "CONNECT"@,
            Method::Patch => "PATCH"@,
            Method::Trace => "TRACE"@,
        }
    }

    /// The method's token, as it stands in a request line.
    pub fn as_str(&self) -> (token: &'static str)
        ensures
            token@ == self.token(),
    {
        match self {
            Method::Get => "GET",
            Method::Post => "POST",
            Method::Put => "PUT",
            Method::Delete => "DELETE",
            Method::Head => "HEAD",
            Method::Options => "OPTIONS",
            Method::Connect => "CONNECT",
            Method::Patch => "PATCH",
            Method::Trace => "TRACE",
        }
    }
}

/// One header line: a name and a value.
#[derive(Debug, Clone, PartialEq)]
pub struct Field {
    pub name: String,
    pub value: String,
}

/// The mathematical value of a [`Field`].
pub struct FieldView {
    pub name: Seq<char>,
    pub value: Seq<char>,
}

impl View for Field {
    type V = FieldView;

    open spec fn view(&self) -> FieldView {
        FieldView { name: self.name@, value: self.value@ }
    }
}

/// The values of a list of header lines, one for one.
pub open spec fn fields_view(fields: Seq<Field>) -> Seq<FieldView> {
    Seq::new(fields.len(), |i: int| fields[i]@)
}

/// A request as a transport takes it.
#[derive(Debug, Clone, PartialEq)]
pub struct WireRequest {
    pub method: Method,
    /// The request target: a path below the service root until a transport
    /// has resolved it, an absolute URL after.
    pub uri: String,
    /// The header lines, in order; a name may occur more than once.
    pub headers: Vec<Field>,
    pub body: Vec<u8>,
}

/// The mathematical value of a [`WireRequest`].
pub struct WireRequestView {
    pub method: Method,
    pub uri: Seq<char>,
    pub headers: Seq<FieldView>,
    pub body: Seq<u8>,
}

impl View for WireRequest {
    type V = WireRequestView;

    open spec fn view(&self) -> WireRequestView {
        WireRequestView {
            method: self.method,
            uri: self.uri@,
            headers: fields_view(self.headers@),
            body: self.body@,
        }
    }
}

/// A response as a transport hands it back.
#[derive(Debug, Clone, PartialEq)]
pub struct WireResponse {
    pub status: u16,
    pub headers: Vec<Field>,
    pub body: Vec<u8>,
}

/// The mathematical value of a [`WireResponse`].
pub struct WireResponseView {
    pub status: u16,
    pub headers: Seq<FieldView>,
    pub body: Seq<u8>,
}

impl View for WireResponse {
    type V = WireResponseView;

    open spec fn view(&self) -> WireResponseView {
        WireResponseView {
            status: self.status,
            headers: fields_view(self.headers@),
            body: self.body@,
        }
    }
}

/// What `http` makes of a request target: nothing where it refuses the text
/// as a URI, else the URI's path and query, which a URI that is only an
/// authority does not have.
pub uninterp spec fn uri_path_and_query(text: Seq<char>) -> Option<Option<Seq<char>>>;

/// `http::Uri::try_from(&str)`, and of the URI that it gives
/// `Uri::path_and_query` as text. Claims only that the outcome is a function
/// of the text.
#[verifier::external_body]
pub(crate) fn parse_uri(text: &str) -> (r: Result<Option<String>, http::Error>)
    ensures
        match r {
            Ok(path) => uri_path_and_query(text@) == Some(text_view(path)),
            Err(_) => uri_path_and_query(text@) is None,
        },
{
    let uri = http::Uri::try_from(text)?;
    Ok(uri.path_and_query().map(|p| p.as_str().to_string()))
}

/// The two header lines that every request carries: it sends JSON and takes
/// JSON.
pub open spec fn json_headers() -> Seq<FieldView> {
    seq![
        FieldView { name: "Accept"@, value: "application/json"@ },
        FieldView { name: "Content-Type"@, value: "application/json"@ },
    ]
}

} // verus!
