//! The part of a transport to the Postmark service that is no exchange: what
//! it adds to a request before it sends it, and what it keeps of an answer.
//!
//! A transport holds the location of the service and the tokens that say who
//! asks. Before a request goes out, the tokens are added as header lines and
//! the request's path is resolved against the location. The exchange itself
//! is not done here.

use crate::text::text_view;
use crate::wire::{
    fields_view, parse_uri, uri_path_and_query, Field, FieldView, WireRequest, WireRequestView,
    WireResponse,
};
use crate::POSTMARK_API_URL;
use vstd::prelude::*;
use vstd::string::StringExecFns;

verus! {

/// `http::header::InvalidHeaderValue`: that `http` refused a text as the
/// value of a header line. It is handed on as it is.
#[verifier::external_type_specification]
#[verifier::external_body]
pub struct ExInvalidHeaderValue(http::header::InvalidHeaderValue);

/// `url::ParseError`: why `url` refused a text as a URL. It is handed on as
/// it is.
#[verifier::external_type_specification]
#[verifier::external_body]
pub struct ExUrlParseError(url::ParseError);

/// Whether a character may stand in the value of a header line: a tab, or
/// any character from the space on but the delete character.
pub open spec fn header_char(c: char) -> bool {
    c == '\t' || (c >= ' ' && c != '\x7f')
}

/// Whether a text can be the value of a header line.
pub open spec fn header_value(text: Seq<char>) -> bool {
    forall|i: int| 0 <= i < text.len() ==> header_char(#[trigger] text[i])
}

/// `http::HeaderValue::try_from(&String)`: it takes a text whose bytes are
/// each a tab, or at least 32 and not 127. A character beyond ASCII is
/// written as bytes from 128 on, so this is [`header_value`].
#[verifier::external_body]
fn check_header_value(text: &String) -> (r: Result<(), http::header::InvalidHeaderValue>)
    ensures
        r is Ok <==> header_value(text@),
{
    http::HeaderValue::try_from(text).map(|_| ())
}

/// The text of the URL that `url` reads out of a text, where it reads one.
pub uninterp spec fn url_parsed(text: Seq<char>) -> Option<Seq<char>>;

/// The text of the URL that `url` makes of a reference and the URL of text
/// `base`, where it makes one.
pub uninterp spec fn url_joined(base: Seq<char>, reference: Seq<char>) -> Option<Seq<char>>;

/// `url::Url::parse`, and the URL that it gives as text. Claims only that
/// the outcome is a function of the text.
#[verifier::external_body]
fn parse_url(text: &str) -> (r: Result<String, url::ParseError>)
    ensures
        match r {
            Ok(url) => url_parsed(text@) == Some(url@),
            Err(_) => url_parsed(text@) is None,
        },
{
    url::Url::parse(text).map(String::from)
}

/// `url::Url::join` on the URL of text `base`, and the URL that it gives as
/// text. Claims only that the outcome is a function of the two texts.
#[verifier::external_body]
fn join_url(base: &str, reference: &str) -> (r: Result<String, url::ParseError>)
    ensures
        match r {
            Ok(url) => url_joined(base@, reference@) == Some(url@),
            Err(_) => url_joined(base@, reference@) is None,
        },
{
    url::Url::parse(base)?.join(reference).map(String::from)
}

/// The text of a string as `{:?}` shows it: in double quotes, with escapes.
pub uninterp spec fn debug_quoted(text: Seq<char>) -> Seq<char>;

/// `format!("{:?}", text)` for a `str`. Claims only that the result is a
/// function of the text.
#[verifier::external_body]
fn quote(text: &str) -> (quoted: String)
    ensures
        quoted@ == debug_quoted(text@),
{
    format!("{:?}", text)
}

/// Why a transport to the service failed.
#[derive(Debug)]
#[allow(inconsistent_fields)]
pub enum PostmarkClientError {
    /// A token cannot be the value of a header line.
    AuthError { source: http::header::InvalidHeaderValue },
    /// The exchange with the service failed; the text says how.
    Communication { message: String },
    /// A request target is no URI.
    Http { source: http::Error },
    /// The location of the service is no URL, or the request's path does not
    /// resolve against it.
    UrlParseError { source: url::ParseError },
}

/// A [`PostmarkClientError`] without its cause.
pub enum PostmarkClientFault {
    AuthError,
    Communication,
    Http,
    UrlParseError,
}

impl View for PostmarkClientError {
    type V = PostmarkClientFault;

    open spec fn view(&self) -> PostmarkClientFault {
        match self {
            PostmarkClientError::AuthError { .. } => PostmarkClientFault::AuthError,
            PostmarkClientError::Communication { .. } => PostmarkClientFault::Communication,
            PostmarkClientError::Http { .. } => PostmarkClientFault::Http,
            PostmarkClientError::UrlParseError { .. } => PostmarkClientFault::UrlParseError,
        }
    }
}

/// What a transport to the service knows: who asks, and where the service
/// is.
#[derive(Clone)]
pub struct PostmarkClient {
    /// The token of a server, for what is asked of that server.
    pub server_token: Option<String>,
    /// The token of an account, for what is asked of the account.
    pub account_token: Option<String>,
    /// The location of the service.
    pub base_url: String,
}

impl Default for PostmarkClient {
    /// No tokens, and the location [`POSTMARK_API_URL`].
    fn default() -> (client: Self)
        ensures
            client.server_token is None,
            client.account_token is None,
            client.base_url@ == POSTMARK_API_URL@,
    {
        PostmarkClient {
            server_token: None,
            account_token: None,
            base_url: String::from_str(POSTMARK_API_URL),
        }
    }
}

/// The header line that carries a token, where there is a token.
pub open spec fn token_field(name: Seq<char>, token: Option<Seq<char>>) -> Seq<FieldView> {
    match token {
        Some(value) => seq![FieldView { name, value }],
        None => Seq::empty(),
    }
}

/// How a token shows in a description of the transport: that it is there,
/// never what it is.
pub open spec fn masked(token: Option<Seq<char>>) -> Seq<char> {
    match token {
        Some(_) => "Some(\"***\")"@,
        None => "None"@,
    }
}

/// Whether line `i` is the first of the name.
pub open spec fn first_named(fields: Seq<FieldView>, name: Seq<char>, i: int) -> bool {
    &&& 0 <= i < fields.len()
    &&& fields[i].name == name
    &&& forall|j: int| 0 <= j < i ==> fields[j].name != name
}

/// Whether one of the lines has the name.
pub open spec fn named(fields: Seq<FieldView>, name: Seq<char>) -> bool {
    exists|i: int| 0 <= i < fields.len() && #[trigger] fields[i].name == name
}

/// The header lines after `field` is set among them: in the place of the
/// first line of its name, or at the end where there is no line of its name.
pub open spec fn set_field(fields: Seq<FieldView>, field: FieldView) -> Seq<FieldView> {
    if named(fields, field.name) {
        fields.update(choose|i: int| first_named(fields, field.name, i), field)
    } else {
        fields.push(field)
    }
}

/// The header lines that come of setting each of `fields` in turn: one line
/// for each name, where the name came first, with the value that came last.
pub open spec fn settled(fields: Seq<FieldView>) -> Seq<FieldView>
    decreases fields.len(),
{
    if fields.len() == 0 {
        Seq::empty()
    } else {
        set_field(settled(fields.drop_last()), fields.last())
    }
}

/// Whether no two of the lines have one name.
pub open spec fn one_per_name(fields: Seq<FieldView>) -> bool {
    forall|i: int, j: int| 0 <= i < j < fields.len() ==> fields[i].name != fields[j].name
}

/// Sets a header line among others.
pub fn set_header(headers: &mut Vec<Field>, field: Field)
    ensures
        fields_view(final(headers)@) == set_field(fields_view(old(headers)@), field@),
        one_per_name(fields_view(old(headers)@)) ==> one_per_name(fields_view(final(headers)@)),
{
    let ghost before = fields_view(headers@);
    let mut i: usize = 0;
    while i < headers.len()
        invariant
            i <= headers.len(),
            headers@ == old(headers)@,
            before == fields_view(headers@),
            forall|j: int| 0 <= j < i ==> headers@[j].name@ != field.name@,
        decreases headers.len() - i,
    {
        if headers[i].name == field.name {
            proof {
                let first = choose|k: int| first_named(before, field.name@, k);
                assert(first_named(before, field.name@, i as int));
                assert(first == i) by {
                    if first < i {
                        assert(before[first].name != field.name@);
                    } else if i < first {
                        assert(before[i as int].name != field.name@);
                    }
                }
            }
            let ghost set = field@;
            headers.set(i, field);
            assert(fields_view(headers@) =~= set_field(before, set));
            return ;
        }
        i += 1;
    }
    let ghost set = field@;
    headers.push(field);
    assert(fields_view(headers@) =~= set_field(before, set));
}

/// The answer with this status and body and these header lines, of which it
/// keeps one for each name: the last.
pub fn answer(status: u16, lines: Vec<Field>, body: Vec<u8>) -> (response: WireResponse)
    ensures
        response.status == status,
        response.body == body,
        fields_view(response.headers@) == settled(fields_view(lines@)),
        one_per_name(fields_view(response.headers@)),
{
    let ghost all = fields_view(lines@);
    let mut headers: Vec<Field> = Vec::new();
    let mut n: usize = 0;
    assert(fields_view(headers@) =~= settled(all.take(0)));
    while n < lines.len()
        invariant
            n <= lines.len(),
            all == fields_view(lines@),
            fields_view(headers@) == settled(all.take(n as int)),
            one_per_name(fields_view(headers@)),
        decreases lines.len() - n,
    {
        assert(all.take(n + 1).drop_last() =~= all.take(n as int));
        let line = Field { name: lines[n].name.clone(), value: lines[n].value.clone() };
        set_header(&mut headers, line);
        n += 1;
    }
    assert(all.take(n as int) =~= all);
    WireResponse { status, headers, body }
}

impl PostmarkClient {
    /// The same with this token of a server.
    pub fn with_server_token(self, server_token: String) -> (client: Self)
        ensures
            client == (PostmarkClient { server_token: Some(server_token), ..self }),
    {
        PostmarkClient { server_token: Some(server_token), ..self }
    }

    /// The same with this token of an account.
    pub fn with_account_token(self, account_token: String) -> (client: Self)
        ensures
            client == (PostmarkClient { account_token: Some(account_token), ..self }),
    {
        PostmarkClient { account_token: Some(account_token), ..self }
    }

    /// The same for the service at this location.
    pub fn with_base_url(self, base_url: String) -> (client: Self)
        ensures
            client == (PostmarkClient { base_url, ..self }),
    {
        PostmarkClient { base_url, ..self }
    }

    /// The transport's tokens as header lines: the server's before the
    /// account's.
    pub open spec fn token_fields(&self) -> Seq<FieldView> {
        token_field("X-Postmark-Server-Token"@, text_view(self.server_token)) + token_field(
            "X-Postmark-Account-Token"@,
            text_view(self.account_token),
        )
    }

    /// Whether each token that is there can be the value of a header line.
    pub open spec fn tokens_fit(&self) -> bool {
        &&& self.server_token matches Some(token) ==> header_value(token@)
        &&& self.account_token matches Some(token) ==> header_value(token@)
    }

    /// The absolute URL of a request target: the target's path and query
    /// joined to the location, or the location itself for a target without
    /// either.
    pub open spec fn resolved(&self, target: Option<Seq<char>>) -> Option<Seq<char>> {
        match url_parsed(self.base_url@) {
            None => None,
            Some(base) => match target {
                Some(path) => url_joined(base, path),
                None => Some(base),
            },
        }
    }

    /// The request that goes out for `request`, or why none does.
    ///
    /// The checks come in this order: the request's target must be a URI, the
    /// tokens must fit, the location must be a URL and the target must
    /// resolve against it, and what it resolves to must be a URI again.
    pub open spec fn outgoing(&self, request: WireRequestView) -> Result<
        WireRequestView,
        PostmarkClientFault,
    > {
        match uri_path_and_query(request.uri) {
            None => Err(PostmarkClientFault::Http),
            Some(target) => if !self.tokens_fit() {
                Err(PostmarkClientFault::AuthError)
            } else {
                match self.resolved(target) {
                    None => Err(PostmarkClientFault::UrlParseError),
                    Some(url) => if uri_path_and_query(url) is None {
                        Err(PostmarkClientFault::Http)
                    } else {
                        Ok(
                            WireRequestView {
                                method: request.method,
                                uri: url,
                                headers: request.headers + self.token_fields(),
                                body: request.body,
                            },
                        )
                    },
                }
            },
        }
    }

    /// Adds a token as a header line where there is one.
    fn add_token(headers: &mut Vec<Field>, name: &str, token: &Option<String>) -> (r: Result<
        (),
        PostmarkClientError,
    >)
        ensures
            match r {
                Ok(_) => (token matches Some(t) ==> header_value(t@)) && fields_view(
                    final(headers)@,
                ) == fields_view(old(headers)@) + token_field(name@, text_view(*token)),
                Err(e) => e@ is AuthError && (token matches Some(t) && !header_value(t@)),
            },
    {
        match token {
            None => {
                assert(fields_view(headers@) =~= fields_view(old(headers)@) + token_field(
                    name@,
                    text_view(*token),
                ));
                Ok(())
            },
            Some(t) => match check_header_value(t) {
                Err(source) => Err(PostmarkClientError::AuthError { source }),
                Ok(_) => {
                    headers.push(Field { name: String::from_str(name), value: t.clone() });
                    assert(fields_view(headers@) =~= fields_view(old(headers)@) + token_field(
                        name@,
                        text_view(*token),
                    ));
                    Ok(())
                },
            },
        }
    }

    /// Resolves a request target against the location of the service.
    fn resolve(&self, target: &Option<String>) -> (r: Result<String, PostmarkClientError>)
        ensures
            match r {
                Ok(url) => self.resolved(text_view(*target)) == Some(url@),
                Err(e) => self.resolved(text_view(*target)) is None && e@ is UrlParseError,
            },
    {
        let base = match parse_url(self.base_url.as_str()) {
            Ok(base) => base,
            Err(source) => {
                return Err(PostmarkClientError::UrlParseError { source });
            },
        };
        match target {
            None => Ok(base),
            Some(path) => match join_url(base.as_str(), path.as_str()) {
                Ok(url) => Ok(url),
                Err(source) => Err(PostmarkClientError::UrlParseError { source }),
            },
        }
    }

    /// Makes a request ready to go out: adds the tokens as header lines and
    /// resolves the target against the location of the service.
    pub fn prepare(&self, request: WireRequest) -> (r: Result<WireRequest, PostmarkClientError>)
        ensures
            match r {
                Ok(out) => self.outgoing(request@) == Ok::<WireRequestView, PostmarkClientFault>(
                    out@,
                ),
                Err(e) => self.outgoing(request@) == Err::<WireRequestView, PostmarkClientFault>(
                    e@,
                ),
            },
    {
        let target = match parse_uri(request.uri.as_str()) {
            Ok(target) => target,
            Err(source) => {
                return Err(PostmarkClientError::Http { source });
            },
        };
        let mut headers = request.headers;
        match Self::add_token(&mut headers, "X-Postmark-Server-Token", &self.server_token) {
            Ok(_) => {},
            Err(e) => {
                return Err(e);
            },
        }
        match Self::add_token(&mut headers, "X-Postmark-Account-Token", &self.account_token) {
            Ok(_) => {},
            Err(e) => {
                return Err(e);
            },
        }
        assert(fields_view(headers@) =~= request@.headers + self.token_fields());
        let url = match self.resolve(&target) {
            Ok(url) => url,
            Err(e) => {
                return Err(e);
            },
        };
        match parse_uri(url.as_str()) {
            Ok(_) => {},
            Err(source) => {
                return Err(PostmarkClientError::Http { source });
            },
        }
        Ok(WireRequest { method: request.method, uri: url, headers, body: request.body })
    }

    /// A description of the transport for a log. It says whether a token is
    /// there and never what it is.
    pub open spec fn description(&self) -> Seq<char> {
        "PostmarkClient { server_token: "@ + masked(text_view(self.server_token))
            + ", account_token: "@ + masked(text_view(self.account_token)) + ", base_url: "@
            + debug_quoted(self.base_url@) + " }"@
    }

    /// A description of the transport for a log.
    pub fn debug_string(&self) -> (text: String)
        ensures
            text@ == self.description(),
    {
        let mut text = String::from_str("PostmarkClient { server_token: ");
        text.append(
            match &self.server_token {
                Some(_) => "Some(\"***\")",
                None => "None",
            },
        );
        text.append(", account_token: ");
        text.append(
            match &self.account_token {
                Some(_) => "Some(\"***\")",
                None => "None",
            },
        );
        text.append(", base_url: ");
        let quoted = quote(self.base_url.as_str());
        text.append(quoted.as_str());
        text.append(" }");
        text
    }
}

} // verus!
