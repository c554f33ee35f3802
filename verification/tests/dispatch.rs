use postmark::api::email::{
    SendEmailRequest, SendEmailResponse, SendEmailWithTemplateRequest, TemplateModel,
};
use postmark::api::templates::{DeleteTemplateRequest, TemplateIdOrAlias};
use postmark::api::Body;
use postmark::client::{conclude, prepare};
use postmark::codec::{DecodeError, EncodeError};
use postmark::json::Json;
use postmark::wire::{Method, WireRequest, WireResponse};
use postmark::{Client, Query, QueryError};
use std::cell::{Cell, RefCell};

/// A transport that answers every request alike and keeps what it was asked.
struct Spy {
    status: u16,
    body: &'static str,
    calls: Cell<usize>,
    last: RefCell<Option<WireRequest>>,
}

impl Spy {
    fn answering(status: u16, body: &'static str) -> Spy {
        Spy { status, body, calls: Cell::new(0), last: RefCell::new(None) }
    }
}

impl Client for Spy {
    type Error = String;

    fn execute(&self, request: WireRequest) -> Result<WireResponse, String> {
        self.calls.set(self.calls.get() + 1);
        *self.last.borrow_mut() = Some(request);
        Ok(WireResponse { status: self.status, headers: vec![], body: self.body.as_bytes().to_vec() })
    }
}

/// A transport that never gets through.
struct Down {
    calls: Cell<usize>,
}

impl Client for Down {
    type Error = String;

    fn execute(&self, _request: WireRequest) -> Result<WireResponse, String> {
        self.calls.set(self.calls.get() + 1);
        Err("connection refused".to_string())
    }
}

fn message() -> SendEmailRequest {
    SendEmailRequest::new("a@example.com".into(), "b@example.com".into(), Body::text("hi".into()))
}

const OK: &str = r#"{"To":"b@example.com","SubmittedAt":"2014-02-17T07:25:01.4178645-05:00","MessageID":"0a129aee","ErrorCode":0,"Message":"OK"}"#;

#[test]
fn the_answer_read_is_returned() {
    let spy = Spy::answering(200, OK);
    let response = message().execute(&spy).unwrap();
    assert_eq!(
        response,
        SendEmailResponse {
            to: Some("b@example.com".to_string()),
            submitted_at: Some("2014-02-17T07:25:01.4178645-05:00".to_string()),
            message_id: Some("0a129aee".to_string()),
            error_code: 0,
            message: "OK".to_string(),
        }
    );
    assert_eq!(spy.calls.get(), 1);
}

#[test]
fn the_request_carries_method_path_headers_and_body() {
    let spy = Spy::answering(200, OK);
    message().execute(&spy).unwrap();
    let sent = spy.last.borrow_mut().take().unwrap();
    assert_eq!(sent.method, Method::Post);
    assert_eq!(sent.uri, "/email");
    let lines: Vec<(String, String)> =
        sent.headers.into_iter().map(|f| (f.name, f.value)).collect();
    assert_eq!(
        lines,
        vec![
            ("Accept".to_string(), "application/json".to_string()),
            ("Content-Type".to_string(), "application/json".to_string()),
        ]
    );
    assert_eq!(
        String::from_utf8(sent.body).unwrap(),
        r#"{"From":"a@example.com","To":"b@example.com","TextBody":"hi"}"#
    );
}

#[test]
fn an_unwritable_body_is_not_sent() {
    let mut model = TemplateModel::new();
    model.insert("price".to_string(), Json::Number("twelve".to_string()));
    let request = SendEmailWithTemplateRequest::new("a@example.com".into(), "b@example.com".into())
        .with_template_model(model);
    let spy = Spy::answering(200, OK);
    let result = request.execute(&spy);
    assert!(matches!(result, Err(QueryError::Encode { source: EncodeError::Body { .. } })));
    assert_eq!(spy.calls.get(), 0);
}

#[test]
fn a_path_that_is_no_target_is_not_sent() {
    let request = DeleteTemplateRequest::new(TemplateIdOrAlias::Alias("two words".to_string()));
    let spy = Spy::answering(200, r#"{"ErrorCode":0,"Message":"OK"}"#);
    let result = request.execute(&spy);
    assert!(matches!(result, Err(QueryError::Encode { source: EncodeError::Target { .. } })));
    assert_eq!(spy.calls.get(), 0);
}

#[test]
fn a_failure_of_the_transport_is_handed_on() {
    let down = Down { calls: Cell::new(0) };
    let result = message().execute(&down);
    match result {
        Err(QueryError::Transport { source }) => assert_eq!(source, "connection refused"),
        _ => panic!("the failure of the transport was not handed on"),
    }
    assert_eq!(down.calls.get(), 1);
}

#[test]
fn a_body_that_is_no_json_fails_as_syntax() {
    let spy = Spy::answering(200, "<html>Bad Gateway</html>");
    let result = message().execute(&spy);
    assert!(matches!(result, Err(QueryError::Decode { source: DecodeError::Syntax { .. } })));
}

#[test]
fn a_body_of_another_shape_fails_as_shape() {
    let spy = Spy::answering(200, r#"{"Message":"OK"}"#);
    let result = message().execute(&spy);
    assert!(matches!(result, Err(QueryError::Decode { source: DecodeError::Shape })));

    let spy = Spy::answering(200, r#"[1, 2, 3]"#);
    let result = message().execute(&spy);
    assert!(matches!(result, Err(QueryError::Decode { source: DecodeError::Shape })));
}

#[test]
fn asking_twice_gives_the_same() {
    let first = message().execute(&Spy::answering(200, OK)).unwrap();
    let second = message().execute(&Spy::answering(200, OK)).unwrap();
    assert_eq!(first, second);
}

#[test]
fn the_status_plays_no_part() {
    let fine = message().execute(&Spy::answering(200, OK)).unwrap();
    let odd = message().execute(&Spy::answering(500, OK)).unwrap();
    assert_eq!(fine, odd);
}

#[test]
fn only_the_error_code_tells_failure_from_success() {
    let taken = message().execute(&Spy::answering(200, r#"{"ErrorCode":0,"Message":"OK","To":"b@example.com"}"#));
    let refused = message().execute(&Spy::answering(
        422,
        r#"{"ErrorCode":406,"Message":"You tried to send to a recipient that has been marked as inactive."}"#,
    ));
    let taken = taken.unwrap();
    let refused = refused.unwrap();
    assert_eq!(taken.error_code, 0);
    assert_eq!(refused.error_code, 406);
    assert!(taken.error_for_status().is_ok());
    let back = refused.clone().error_for_status();
    assert_eq!(back, Err(refused));
}

#[test]
fn the_two_halves_make_the_whole() {
    let request = prepare(&message()).unwrap();
    assert_eq!(request.uri, "/email");
    let outcome: Result<WireResponse, String> =
        Ok(WireResponse { status: 200, headers: vec![], body: OK.as_bytes().to_vec() });
    let whole = message().execute(&Spy::answering(200, OK)).unwrap();
    let halves: SendEmailResponse = conclude(outcome).unwrap();
    assert_eq!(whole, halves);

    let failed: Result<WireResponse, String> = Err("timeout".to_string());
    let result: Result<SendEmailResponse, QueryError<String>> = conclude(failed);
    match result {
        Err(QueryError::Transport { source }) => assert_eq!(source, "timeout"),
        _ => panic!("the failure of the transport was not handed on"),
    }
}

#[test]
fn client_wraps_the_failure_of_a_transport() {
    let e = QueryError::client(7u8);
    assert!(matches!(e, QueryError::Transport { source: 7 }));
}
