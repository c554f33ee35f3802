//! The dispatch step: any endpoint over any transport.
//!
//! One call is a straight line. The body of the endpoint is written as JSON
//! text, a request is put together, the transport carries it, and the body of
//! the answer is read as the endpoint's response. The status of the answer
//! plays no part. Nothing is kept between calls.

use crate::codec::{
    decoded_text, from_slice, json_text, to_vec, DecodeError, DecodeFault, EncodeError,
    EncodeFault, FromJson, ToJson,
};
use crate::json::JsonValue;
use crate::wire::{
    fields_view, json_headers, parse_uri, uri_path_and_query, Field, Method, WireRequest,
    WireRequestView, WireResponse, WireResponseView,
};
use std::borrow::Cow;
use vstd::prelude::*;
use vstd::string::StringExecFns;

verus! {

/// What the dispatch step needs to know of one operation of the service.
pub trait Endpoint {
    /// The value that is sent as the request's body.
    type Request: ToJson;

    /// The value that the answer's body is read as.
    type Response: FromJson;

    /// The path of the operation, below the service root.
    spec fn path(&self) -> Seq<char>;

    /// The method of the operation: POST unless the operation says otherwise.
    open spec fn verb(&self) -> Method {
        Method::Post
    }

    /// The document of the request's body.
    spec fn payload(&self) -> JsonValue;

    /// The path of the operation, below the service root.
    fn endpoint(&self) -> (path: Cow<'static, str>)
        ensures
            path@ == self.path(),
    ;

    /// The value to send as the body.
    fn body(&self) -> (body: &Self::Request)
        ensures
            body.json() == self.payload(),
    ;

    /// The method of the operation.
    fn method(&self) -> (method: Method)
        ensures
            method == self.verb(),
    ;
}

/// A transport: it carries one request and hands back the answer, whatever
/// its status, or fails.
pub trait Client {
    /// What a failed exchange is reported as.
    type Error;

    /// Whether `outcome` may be what the transport makes of `request`. A
    /// transport that does not say may make anything of it.
    open spec fn answers(
        &self,
        request: WireRequestView,
        outcome: Result<WireResponseView, Self::Error>,
    ) -> bool {
        true
    }

    /// Carries the request.
    fn execute(&self, request: WireRequest) -> (outcome: Result<WireResponse, Self::Error>)
        ensures
            self.answers(request@, outcome_view(outcome)),
    ;
}

/// A query that can be made of a transport of type `C`.
pub trait Query<C> {
    /// What the query comes back with.
    type Result;

    /// Makes the query.
    fn execute(self, client: &C) -> Self::Result;
}

/// Why a query failed.
#[derive(Debug)]
#[allow(inconsistent_fields)]
pub enum QueryError<E> {
    /// The transport failed.
    Transport { source: E },
    /// The body of the answer could not be read as the response.
    Decode { source: DecodeError },
    /// The request could not be put together.
    Encode { source: EncodeError },
}

/// A [`QueryError`] without the causes that are not plain values.
pub enum QueryFault<E> {
    Transport(E),
    Decode(DecodeFault),
    Encode(EncodeFault),
}

impl<E> View for QueryError<E> {
    type V = QueryFault<E>;

    open spec fn view(&self) -> QueryFault<E> {
        match self {
            QueryError::Transport { source } => QueryFault::Transport(*source),
            QueryError::Decode { source } => QueryFault::Decode(source@),
            QueryError::Encode { source } => QueryFault::Encode(source@),
        }
    }
}

impl<E> QueryError<E> {
    /// The failure of a transport as the failure of a query.
    pub fn client(source: E) -> (e: Self)
        ensures
            e == (QueryError::<E>::Transport { source }),
    {
        QueryError::Transport { source }
    }
}

/// The outcome of an exchange, the answer by its value.
pub open spec fn outcome_view<E>(outcome: Result<WireResponse, E>) -> Result<WireResponseView, E> {
    match outcome {
        Ok(response) => Ok(response@),
        Err(e) => Err(e),
    }
}

/// The outcome of putting a request together, without the cause of a failure.
pub open spec fn request_view(r: Result<WireRequest, EncodeError>) -> Result<
    WireRequestView,
    EncodeFault,
> {
    match r {
        Ok(request) => Ok(request@),
        Err(e) => Err(e@),
    }
}

/// The outcome of a query, without the causes of a failure that are not plain
/// values.
pub open spec fn query_view<R: FromJson, E>(r: Result<R, QueryError<E>>) -> Result<
    R::Model,
    QueryFault<E>,
> {
    match r {
        Ok(value) => Ok(value.model()),
        Err(e) => Err(e@),
    }
}

/// The request for an operation with this path, method and body.
///
/// The body comes first: where it cannot be written, the path is not looked
/// at.
pub open spec fn prepared(path: Seq<char>, method: Method, payload: JsonValue) -> Result<
    WireRequestView,
    EncodeFault,
> {
    match json_text(payload) {
        None => Err(EncodeFault::Body),
        Some(body) => if uri_path_and_query(path) is None {
            Err(EncodeFault::Target)
        } else {
            Ok(WireRequestView { method, uri: path, headers: json_headers(), body })
        },
    }
}

/// What a query comes to when the exchange came to `outcome`.
///
/// A failure of the transport is handed on as it is. Of an answer only the
/// body counts.
pub open spec fn concluded<R: FromJson, E>(outcome: Result<WireResponseView, E>) -> Result<
    R::Model,
    QueryFault<E>,
> {
    match outcome {
        Err(e) => Err(QueryFault::Transport(e)),
        Ok(response) => match decoded_text::<R>(response.body) {
            Ok(value) => Ok(value),
            Err(fault) => Err(QueryFault::Decode(fault)),
        },
    }
}

/// What a query for an operation with this path, method and body comes to,
/// given what the exchange comes to if there is one.
pub open spec fn dispatched<R: FromJson, E>(
    path: Seq<char>,
    method: Method,
    payload: JsonValue,
    outcome: Result<WireResponseView, E>,
) -> Result<R::Model, QueryFault<E>> {
    match prepared(path, method, payload) {
        Err(fault) => Err(QueryFault::Encode(fault)),
        Ok(_) => concluded::<R, E>(outcome),
    }
}

/// The first half of a query: the request to hand to a transport.
pub fn prepare<T: Endpoint>(endpoint: &T) -> (r: Result<WireRequest, EncodeError>)
    ensures
        request_view(r) == prepared(endpoint.path(), endpoint.verb(), endpoint.payload()),
{
    let body = match to_vec(endpoint.body()) {
        Ok(text) => text,
        Err(e) => {
            return Err(e);
        },
    };
    let uri = match endpoint.endpoint() {
        Cow::Borrowed(path) => String::from_str(path),
        Cow::Owned(path) => path,
    };
    match parse_uri(uri.as_str()) {
        Ok(_) => {},
        Err(source) => {
            return Err(EncodeError::Target { source });
        },
    }
    let mut headers: Vec<Field> = Vec::new();
    headers.push(
        Field { name: String::from_str("Accept"), value: String::from_str("application/json") },
    );
    headers.push(
        Field {
            name: String::from_str("Content-Type"),
            value: String::from_str("application/json"),
        },
    );
    assert(fields_view(headers@) =~= json_headers());
    Ok(WireRequest { method: endpoint.method(), uri, headers, body })
}

/// The second half of a query: what to make of the outcome of the exchange.
pub fn conclude<R: FromJson, E>(outcome: Result<WireResponse, E>) -> (r: Result<R, QueryError<E>>)
    ensures
        query_view(r) == concluded::<R, E>(outcome_view(outcome)),
{
    match outcome {
        Err(source) => Err(QueryError::client(source)),
        Ok(response) => {
            let read = from_slice::<R>(response.body.as_slice());
            match read {
                Ok(value) => Ok(value),
                Err(source) => Err(QueryError::Decode { source }),
            }
        },
    }
}

impl<T: Endpoint, C: Client> Query<C> for T {
    type Result = Result<T::Response, QueryError<C::Error>>;

    /// Sends the endpoint's request over the transport and reads the answer.
    ///
    /// Where the request cannot be put together the transport is not asked.
    /// Else the result is what [`dispatched`] says for what the transport
    /// returned for the request of [`prepared`].
    fn execute(self, client: &C) -> (r: Self::Result)
        ensures
            match prepared(self.path(), self.verb(), self.payload()) {
                Err(fault) => query_view(r) == Err::<
                    <T::Response as FromJson>::Model,
                    QueryFault<C::Error>,
                >(QueryFault::Encode(fault)),
                Ok(request) => exists|outcome: Result<WireResponseView, C::Error>|
                    client.answers(request, outcome) && query_view(r) == dispatched::<
                        T::Response,
                        C::Error,
                    >(self.path(), self.verb(), self.payload(), outcome),
            },
    {
        match prepare(&self) {
            Err(source) => Err(QueryError::Encode { source }),
            Ok(request) => {
                let ghost sent = request@;
                let outcome = client.execute(request);
                assert(client.answers(sent, outcome_view(outcome)));
                conclude::<T::Response, C::Error>(outcome)
            },
        }
    }
}

/// A query succeeds with the value that the body of the answer holds:
/// where the request can be put together and the transport hands back an
/// answer whose body is the JSON text of a document that holds a response,
/// the query comes to that response.
pub proof fn answer_read_is_returned<R: FromJson, E>(
    path: Seq<char>,
    method: Method,
    payload: JsonValue,
    response: WireResponseView,
    value: R::Model,
)
    requires
        prepared(path, method, payload) is Ok,
        decoded_text::<R>(response.body) == Ok::<R::Model, DecodeFault>(value),
    ensures
        dispatched::<R, E>(path, method, payload, Ok(response)) == Ok::<R::Model, QueryFault<E>>(
            value,
        ),
{
}

/// A body that cannot be written stops the query before the transport:
/// there is no request to carry, and the query fails as not encoded whatever
/// an exchange would have come to.
pub proof fn unwritable_body_is_not_sent<R: FromJson, E>(
    path: Seq<char>,
    method: Method,
    payload: JsonValue,
    outcome: Result<WireResponseView, E>,
)
    requires
        json_text(payload) is None,
    ensures
        prepared(path, method, payload) == Err::<WireRequestView, EncodeFault>(EncodeFault::Body),
        dispatched::<R, E>(path, method, payload, outcome) == Err::<R::Model, QueryFault<E>>(
            QueryFault::Encode(EncodeFault::Body),
        ),
{
}

/// The failure of a transport is the failure of the query, as it is: what
/// the response type makes of any bytes plays no part.
pub proof fn transport_failure_is_handed_on<R: FromJson, E>(
    path: Seq<char>,
    method: Method,
    payload: JsonValue,
    failure: E,
)
    requires
        prepared(path, method, payload) is Ok,
    ensures
        dispatched::<R, E>(path, method, payload, Err(failure)) == Err::<R::Model, QueryFault<E>>(
            QueryFault::Transport(failure),
        ),
{
}

/// An answer whose body does not hold a response fails the query as not
/// decoded: as `Syntax` where the body is no JSON text, as `Shape` where it
/// is JSON text of another shape.
pub proof fn unreadable_answer_is_a_decode_failure<R: FromJson, E>(
    path: Seq<char>,
    method: Method,
    payload: JsonValue,
    response: WireResponseView,
)
    requires
        prepared(path, method, payload) is Ok,
        decoded_text::<R>(response.body) is Err,
    ensures
        dispatched::<R, E>(path, method, payload, Ok(response)) == Err::<R::Model, QueryFault<E>>(
            QueryFault::Decode(decoded_text::<R>(response.body)->Err_0),
        ),
{
}

/// Asking twice gives the same: two queries for operations of one path,
/// method and body, answered with the same bytes, come to the same, whatever
/// the status and the header lines of the two answers.
pub proof fn same_bytes_same_result<R: FromJson, E>(
    path: Seq<char>,
    method: Method,
    payload: JsonValue,
    first: WireResponseView,
    second: WireResponseView,
)
    requires
        first.body == second.body,
    ensures
        dispatched::<R, E>(path, method, payload, Ok(first)) == dispatched::<R, E>(
            path,
            method,
            payload,
            Ok(second),
        ),
{
}

} // verus!
