use postmark::transport::{answer, set_header, PostmarkClient, PostmarkClientError};
use postmark::wire::{Field, Method, WireRequest};
use postmark::POSTMARK_API_URL;

fn request(uri: &str) -> WireRequest {
    WireRequest {
        method: Method::Post,
        uri: uri.to_string(),
        headers: vec![Field { name: "Accept".into(), value: "application/json".into() }],
        body: b"{}".to_vec(),
    }
}

fn lines(fields: &[Field]) -> Vec<(&str, &str)> {
    fields.iter().map(|f| (f.name.as_str(), f.value.as_str())).collect()
}

#[test]
fn by_default_there_are_no_tokens_and_the_service_is_the_public_one() {
    let client = PostmarkClient::default();
    assert_eq!(client.server_token, None);
    assert_eq!(client.account_token, None);
    assert_eq!(client.base_url, "https://api.postmarkapp.com/");
    assert_eq!(POSTMARK_API_URL, "https://api.postmarkapp.com/");
}

#[test]
fn the_path_is_resolved_against_the_location() {
    let out = PostmarkClient::default().prepare(request("/email")).unwrap();
    assert_eq!(out.uri, "https://api.postmarkapp.com/email");
    assert_eq!(out.method, Method::Post);
    assert_eq!(out.body, b"{}".to_vec());
    assert_eq!(lines(&out.headers), vec![("Accept", "application/json")]);

    let client = PostmarkClient::default().with_base_url("http://localhost:8025/api/v1".into());
    let out = client.prepare(request("/templates/7?full=1")).unwrap();
    assert_eq!(out.uri, "http://localhost:8025/templates/7?full=1");
}

#[test]
fn a_target_without_a_path_is_the_location_itself() {
    let client = PostmarkClient::default().with_base_url("HTTP://Example.COM".into());
    let out = client.prepare(request("example.org")).unwrap();
    assert_eq!(out.uri, "http://example.com/");
}

#[test]
fn the_tokens_are_added_after_the_lines_that_are_there() {
    let client = PostmarkClient::default()
        .with_server_token("server-secret".into())
        .with_account_token("account-secret".into());
    let out = client.prepare(request("/servers")).unwrap();
    assert_eq!(
        lines(&out.headers),
        vec![
            ("Accept", "application/json"),
            ("X-Postmark-Server-Token", "server-secret"),
            ("X-Postmark-Account-Token", "account-secret"),
        ]
    );
    let client = PostmarkClient::default().with_account_token("account-secret".into());
    let out = client.prepare(request("/servers")).unwrap();
    assert_eq!(
        lines(&out.headers),
        vec![("Accept", "application/json"), ("X-Postmark-Account-Token", "account-secret")]
    );
}

#[test]
fn a_token_must_fit_a_header_line() {
    for bad in ["line\nbreak", "delete\u{7f}", "nul\0", "bell\u{7}"] {
        let client = PostmarkClient::default().with_server_token(bad.into());
        let result = client.prepare(request("/email"));
        assert!(matches!(result, Err(PostmarkClientError::AuthError { .. })), "{:?}", bad);
        let client = PostmarkClient::default().with_account_token(bad.into());
        let result = client.prepare(request("/email"));
        assert!(matches!(result, Err(PostmarkClientError::AuthError { .. })), "{:?}", bad);
    }
    for good in ["", "plain", "with space", "with\ttab", "caf\u{e9}", "~tilde"] {
        let client = PostmarkClient::default().with_server_token(good.into());
        let out = client.prepare(request("/email")).unwrap();
        assert_eq!(out.headers[1].value, good);
    }
}

#[test]
fn a_token_is_looked_at_before_the_location() {
    let client = PostmarkClient::default()
        .with_server_token("line\nbreak".into())
        .with_base_url("no location".into());
    assert!(matches!(
        client.prepare(request("/email")),
        Err(PostmarkClientError::AuthError { .. })
    ));
}

#[test]
fn the_location_must_be_a_url() {
    for bad in ["", "no location", "/only/a/path", "http://"] {
        let client = PostmarkClient::default().with_base_url(bad.into());
        let result = client.prepare(request("/email"));
        assert!(matches!(result, Err(PostmarkClientError::UrlParseError { .. })), "{:?}", bad);
    }
}

#[test]
fn the_path_must_resolve_against_the_location() {
    let client = PostmarkClient::default().with_base_url("mailto:someone@example.com".into());
    let result = client.prepare(request("/email"));
    assert!(matches!(result, Err(PostmarkClientError::UrlParseError { .. })));
}

#[test]
fn a_target_must_be_a_uri() {
    let result = PostmarkClient::default().prepare(request("/two words"));
    assert!(matches!(result, Err(PostmarkClientError::Http { .. })));
    let result = PostmarkClient::default().prepare(request(""));
    assert!(matches!(result, Err(PostmarkClientError::Http { .. })));
}

#[test]
fn a_location_that_is_no_uri_is_refused_in_the_end() {
    let client = PostmarkClient::default().with_base_url("file:///srv/postmark".into());
    let result = client.prepare(request("/email"));
    assert!(matches!(result, Err(PostmarkClientError::Http { .. })), "{:?}", result);
    let result = client.prepare(request("example.org"));
    assert!(matches!(result, Err(PostmarkClientError::Http { .. })), "{:?}", result);
}

#[test]
fn the_description_hides_the_tokens() {
    let client = PostmarkClient::default();
    assert_eq!(
        client.debug_string(),
        "PostmarkClient { server_token: None, account_token: None, base_url: \"https://api.postmarkapp.com/\" }"
    );
    let client = PostmarkClient::default()
        .with_server_token("server-secret".into())
        .with_base_url("http://a/\"b\"".into());
    let text = client.debug_string();
    assert_eq!(
        text,
        "PostmarkClient { server_token: Some(\"***\"), account_token: None, base_url: \"http://a/\\\"b\\\"\" }"
    );
    assert!(!text.contains("server-secret"));
    let client = PostmarkClient::default().with_account_token("account-secret".into());
    assert_eq!(
        client.debug_string(),
        "PostmarkClient { server_token: None, account_token: Some(\"***\"), base_url: \"https://api.postmarkapp.com/\" }"
    );
}

fn field(name: &str, value: &str) -> Field {
    Field { name: name.to_string(), value: value.to_string() }
}

#[test]
fn an_answer_keeps_one_line_for_each_name() {
    let response = answer(
        201,
        vec![
            field("content-type", "text/plain"),
            field("set-cookie", "a=1"),
            field("content-type", "application/json"),
            field("set-cookie", "b=2"),
            field("date", "today"),
        ],
        b"[]".to_vec(),
    );
    assert_eq!(response.status, 201);
    assert_eq!(response.body, b"[]".to_vec());
    assert_eq!(
        lines(&response.headers),
        vec![("content-type", "application/json"), ("set-cookie", "b=2"), ("date", "today")]
    );
    let empty = answer(204, vec![], vec![]);
    assert!(empty.headers.is_empty());
}

#[test]
fn a_line_set_takes_the_place_of_the_line_of_its_name() {
    let mut headers = vec![field("a", "1"), field("b", "2")];
    set_header(&mut headers, field("a", "3"));
    assert_eq!(lines(&headers), vec![("a", "3"), ("b", "2")]);
    set_header(&mut headers, field("c", "4"));
    assert_eq!(lines(&headers), vec![("a", "3"), ("b", "2"), ("c", "4")]);
    set_header(&mut headers, field("A", "5"));
    assert_eq!(lines(&headers), vec![("a", "3"), ("b", "2"), ("c", "4"), ("A", "5")]);
}

#[test]
fn the_methods_have_their_tokens() {
    assert_eq!(Method::Get.as_str(), "GET");
    assert_eq!(Method::Post.as_str(), "POST");
    assert_eq!(Method::Put.as_str(), "PUT");
    assert_eq!(Method::Delete.as_str(), "DELETE");
    assert_eq!(Method::Head.as_str(), "HEAD");
    assert_eq!(Method::Options.as_str(), "OPTIONS");
    assert_eq!(Method::Connect.as_str(), "CONNECT");
    assert_eq!(Method::Patch.as_str(), "PATCH");
    assert_eq!(Method::Trace.as_str(), "TRACE");
}
