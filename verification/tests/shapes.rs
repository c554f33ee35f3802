use postmark::api::email::{
    Attachment, Header, MetadataEntry, SendEmailRequest, SendEmailResponse, TrackLink,
};
use postmark::api::message_streams::{GetSuppressionRequest, GetSuppressionResponse, StreamIdOrName};
use postmark::api::server::{CreateServerRequest, DeliveryType, GetServerRequest, ServerColor, ServerIdOrName};
use postmark::api::templates::{
    DeleteTemplateRequest, EditTemplateRequest, GetTemplateRequest, GetTemplateResponse,
    TemplateIdOrAlias, TemplateType,
};
use postmark::api::bounce::DeliveryStatsRequest;
use postmark::api::{Body, HtmlAndText};
use postmark::codec::{from_slice, to_vec, DecodeError, FromJson, ToJson};
use postmark::json::{Entry, Json};
use postmark::wire::Method;
use postmark::Endpoint;

fn text_of<T: ToJson>(value: &T) -> String {
    String::from_utf8(to_vec(value).unwrap()).unwrap()
}

#[test]
fn a_text_only_message_has_no_html_member() {
    let request =
        SendEmailRequest::new("a@example.com".into(), "b@example.com".into(), Body::text("hi".into()));
    let doc = request.to_json();
    match &doc {
        Json::Object(entries) => {
            let keys: Vec<&str> = entries.iter().map(|e| e.key.as_str()).collect();
            assert_eq!(keys, vec!["From", "To", "TextBody"]);
        }
        _ => panic!("the document of a message is an object"),
    }
    assert!(doc.get("HtmlBody").is_none());
    assert_eq!(doc.get("TextBody"), Some(&Json::Str("hi".to_string())));
    assert_eq!(
        text_of(&request),
        r#"{"From":"a@example.com","To":"b@example.com","TextBody":"hi"}"#
    );
    assert_eq!(request.endpoint(), "/email");
    assert_eq!(request.method(), Method::Post);
}

#[test]
fn an_html_only_message_has_no_text_member() {
    let request = SendEmailRequest::new("a".into(), "b".into(), Body::html("<p>hi</p>".into()));
    assert_eq!(text_of(&request), r#"{"From":"a","To":"b","HtmlBody":"<p>hi</p>"}"#);
}

#[test]
fn a_message_with_everything_has_its_members_in_order() {
    let request = SendEmailRequest::new(
        "a".into(),
        "b".into(),
        Body::html_and_text("<p>hi</p>".into(), "hi".into()),
    )
    .with_cc("c".into())
    .with_bcc("d".into())
    .with_subject("s".into())
    .with_tag("t".into())
    .with_reply_to("r".into())
    .with_headers(vec![Header { name: "X-A".into(), value: "1".into() }])
    .with_track_opens(true)
    .with_track_links(TrackLink::NoLinks)
    .with_attachments(vec![
        Attachment {
            name: "a.txt".into(),
            content: "aGk=".into(),
            content_type: "text/plain".into(),
            content_id: None,
        },
        Attachment {
            name: "b.png".into(),
            content: "AA==".into(),
            content_type: "image/png".into(),
            content_id: Some("cid:b".into()),
        },
    ])
    .with_metadata(vec![MetadataEntry { key: "k".into(), value: "v".into() }])
    .with_message_stream("outbound".into());
    assert_eq!(
        text_of(&request),
        concat_all(&[
            r#"{"From":"a","To":"b","HtmlBody":"<p>hi</p>","TextBody":"hi","Cc":"c","Bcc":"d","#,
            r#""Subject":"s","Tag":"t","ReplyTo":"r","Headers":[{"Name":"X-A","Value":"1"}],"#,
            r#""TrackOpens":true,"TrackLinks":"None","Attachments":["#,
            r#"{"Name":"a.txt","Content":"aGk=","ContentType":"text/plain"},"#,
            r#"{"Name":"b.png","Content":"AA==","ContentType":"image/png","ContentId":"cid:b"}],"#,
            r#""Metadata":{"k":"v"},"MessageStream":"outbound"}"#,
        ])
    );
}

fn concat_all(parts: &[&str]) -> String {
    parts.iter().map(|p| p.to_string()).collect()
}

#[test]
fn the_choices_have_their_names() {
    assert_eq!(text_of(&TrackLink::NoLinks), r#""None""#);
    assert_eq!(text_of(&TrackLink::HtmlAndText), r#""HtmlAndText""#);
    assert_eq!(text_of(&TrackLink::HtmlOnly), r#""HtmlOnly""#);
    assert_eq!(text_of(&TrackLink::TextOnly), r#""TextOnly""#);
    assert_eq!(text_of(&TemplateType::Standard), r#""Standard""#);
    assert_eq!(text_of(&TemplateType::Layout), r#""Layout""#);
    assert_eq!(text_of(&DeliveryType::Live), r#""Live""#);
    assert_eq!(text_of(&DeliveryType::Sandbox), r#""Sandbox""#);
    assert_eq!(text_of(&ServerColor::Turquoise), r#""Turquoise""#);
    assert_eq!(TrackLink::default(), TrackLink::NoLinks);
    assert_eq!(Body::default(), Body::text(String::new()));
    assert_eq!(TemplateType::default(), TemplateType::Standard);
}

#[test]
fn a_template_is_found_in_the_path_by_number_or_alias() {
    let by_number = GetTemplateRequest::new(TemplateIdOrAlias::TemplateId(12345));
    assert_eq!(by_number.endpoint(), "/templates/12345");
    assert_eq!(by_number.method(), Method::Get);
    let by_alias =
        GetTemplateRequest::new(TemplateIdOrAlias::Alias("my-template-alias".to_string()));
    assert_eq!(by_alias.endpoint(), "/templates/my-template-alias");
    assert_eq!(TemplateIdOrAlias::TemplateId(-7).to_string(), "-7");
    assert_eq!(TemplateIdOrAlias::TemplateId(0).to_string(), "0");
    assert_eq!(TemplateIdOrAlias::Alias("x".into()).to_string(), "x");

    let delete = DeleteTemplateRequest::new(TemplateIdOrAlias::TemplateId(12345));
    assert_eq!(delete.method(), Method::Delete);
    assert_eq!(text_of(&delete), r#"{"Id":{"TemplateId":12345}}"#);
    let delete = DeleteTemplateRequest::new(TemplateIdOrAlias::Alias("a".into()));
    assert_eq!(text_of(&delete), r#"{"Id":{"Alias":"a"}}"#);

    let edit = EditTemplateRequest::new(
        TemplateIdOrAlias::Alias("old".into()),
        "n".into(),
        Body::text("t".into()),
    );
    assert_eq!(edit.endpoint(), "/templates/old");
    assert_eq!(edit.method(), Method::Put);
    assert_eq!(text_of(&edit), r#"{"Name":"n","Alias":null,"TextBody":"t"}"#);
}

#[test]
fn servers_and_streams_are_found_in_the_path() {
    let server = GetServerRequest::new(ServerIdOrName::ServerId(123456));
    assert_eq!(server.endpoint(), "/servers/123456");
    assert_eq!(text_of(&server), "{}");
    let server = GetServerRequest::new(ServerIdOrName::ServerName("staging".into()));
    assert_eq!(server.endpoint(), "/servers/staging");
    assert_eq!(
        postmark::api::webhooks::ServerIdOrName::ServerId(isize::MIN).to_string(),
        isize::MIN.to_string()
    );
    assert_eq!(postmark::api::webhooks::ServerIdOrName::ServerName("s".into()).to_string(), "s");

    let list = GetSuppressionRequest::new(StreamIdOrName::StreamName("outbound".into()));
    assert_eq!(list.endpoint(), "/message-streams/outbound/suppressions/dump");
    assert_eq!(list.method(), Method::Get);
    assert_eq!(text_of(&list), "{}");
    assert_eq!(StreamIdOrName::StreamId("id-1".into()).to_string(), "id-1");
}

#[test]
fn the_question_for_the_statistics_has_a_null_body() {
    let request = DeliveryStatsRequest::default();
    assert_eq!(request.endpoint(), "/deliverystats");
    assert_eq!(request.method(), Method::Get);
    assert_eq!(text_of(request.body()), "null");
}

#[test]
fn a_server_to_make_leaves_out_what_is_absent() {
    let request = CreateServerRequest::new("n".into());
    assert_eq!(text_of(&request), r#"{"Name":"n","SmtpApiActivated":true}"#);
    let request = CreateServerRequest::new("n".into())
        .with_color(ServerColor::Red)
        .with_delivery_type(DeliveryType::Sandbox)
        .with_smtp_api_activated(false);
    assert_eq!(
        text_of(&request),
        r#"{"Name":"n","Color":"Red","DeliveryType":"Sandbox","SmtpApiActivated":false}"#
    );
}

fn read<R: FromJson>(text: &str) -> Result<R, DecodeError> {
    from_slice::<R>(text.as_bytes())
}

#[test]
fn an_answer_is_read_by_the_names_of_its_fields() {
    let response: SendEmailResponse =
        read(r#"{"Extra":[1,2],"Message":"OK","ErrorCode":0,"To":null}"#).unwrap();
    assert_eq!(
        response,
        SendEmailResponse {
            to: None,
            submitted_at: None,
            message_id: None,
            error_code: 0,
            message: "OK".to_string(),
        }
    );
}

#[test]
fn an_answer_of_another_shape_is_refused() {
    let missing = read::<SendEmailResponse>(r#"{"ErrorCode":0}"#);
    assert!(matches!(missing, Err(DecodeError::Shape)));
    let text_for_number = read::<SendEmailResponse>(r#"{"ErrorCode":"0","Message":"OK"}"#);
    assert!(matches!(text_for_number, Err(DecodeError::Shape)));
    let fraction = read::<SendEmailResponse>(r#"{"ErrorCode":0.5,"Message":"OK"}"#);
    assert!(matches!(fraction, Err(DecodeError::Shape)));
    let too_large = read::<SendEmailResponse>(r#"{"ErrorCode":9223372036854775808,"Message":"OK"}"#);
    assert!(matches!(too_large, Err(DecodeError::Shape)));
    let number_for_text = read::<SendEmailResponse>(r#"{"ErrorCode":0,"Message":"OK","To":5}"#);
    assert!(matches!(number_for_text, Err(DecodeError::Shape)));
    let null_for_text = read::<SendEmailResponse>(r#"{"ErrorCode":0,"Message":null}"#);
    assert!(matches!(null_for_text, Err(DecodeError::Shape)));
    let no_object = read::<SendEmailResponse>(r#""OK""#);
    assert!(matches!(no_object, Err(DecodeError::Shape)));
    let no_json = read::<SendEmailResponse>(r#"{"ErrorCode":0,"#);
    assert!(matches!(no_json, Err(DecodeError::Syntax { .. })));
    let largest = read::<SendEmailResponse>(r#"{"ErrorCode":9223372036854775807,"Message":""}"#);
    assert_eq!(largest.unwrap().error_code, i64::MAX);
    let smallest = read::<SendEmailResponse>(r#"{"ErrorCode":-9223372036854775808,"Message":""}"#);
    assert_eq!(smallest.unwrap().error_code, i64::MIN);
}

#[test]
fn of_a_key_that_comes_twice_the_last_counts() {
    let doc = Json::Object(vec![
        Entry { key: "ErrorCode".to_string(), value: Json::integer(1) },
        Entry { key: "Message".to_string(), value: Json::Str("m".to_string()) },
        Entry { key: "ErrorCode".to_string(), value: Json::integer(2) },
    ]);
    assert_eq!(doc.get("ErrorCode"), Some(&Json::integer(2)));
    let response = SendEmailResponse::from_json(&doc).unwrap();
    assert_eq!(response.error_code, 2);
}

const TEMPLATE: &str = r#"{
    "TemplateId": 1, "Name": "n", "Subject": "s", "AssociatedServerId": 2,
    "Active": false, "TemplateType": "Layout""#;

#[test]
fn the_body_of_a_template_is_read_from_among_its_fields() {
    let both: GetTemplateResponse =
        read(&format!(r#"{TEMPLATE}, "HtmlBody": "<p>h</p>", "TextBody": "t"}}"#)).unwrap();
    assert_eq!(both.body, Body::text("t".into()));
    assert_eq!(both.template_type, TemplateType::Layout);
    assert_eq!(both.alias, None);
    let html: GetTemplateResponse =
        read(&format!(r#"{TEMPLATE}, "HtmlBody": "<p>h</p>", "TextBody": null}}"#)).unwrap();
    assert_eq!(html.body, Body::html("<p>h</p>".into()));
    let neither = read::<GetTemplateResponse>(&format!(r#"{TEMPLATE}}}"#));
    assert!(matches!(neither, Err(DecodeError::Shape)));
    let unknown_kind = read::<GetTemplateResponse>(
        r#"{"TemplateId": 1, "Name": "n", "Subject": "s", "AssociatedServerId": 2,
            "Active": false, "TemplateType": "Other", "TextBody": "t"}"#,
    );
    assert!(matches!(unknown_kind, Err(DecodeError::Shape)));
}

#[test]
fn a_time_that_is_none_is_refused() {
    let bad = read::<GetSuppressionResponse>(
        r#"{"Suppressions":[{"EmailAddress":"a","SuppressionReason":"r","Origin":"o","CreatedAt":"yesterday"}]}"#,
    );
    assert!(matches!(bad, Err(DecodeError::Shape)));
    let good: GetSuppressionResponse = read(
        r#"{"Suppressions":[{"EmailAddress":"a","SuppressionReason":"r","Origin":"o","CreatedAt":"1970-01-01T00:00:01.5Z"}]}"#,
    )
    .unwrap();
    assert_eq!(good.suppressions[0].created_at.unix_seconds, 1);
    assert_eq!(good.suppressions[0].created_at.nanosecond, 500_000_000);
    assert_eq!(good.suppressions[0].created_at.offset_seconds, 0);
}

#[test]
fn a_list_is_read_item_by_item() {
    let list: Vec<String> = read(r#"["a", "b"]"#).unwrap();
    assert_eq!(list, vec!["a".to_string(), "b".to_string()]);
    let empty: Vec<String> = read("[]").unwrap();
    assert!(empty.is_empty());
    let mixed = read::<Vec<String>>(r#"["a", 1]"#);
    assert!(matches!(mixed, Err(DecodeError::Shape)));
    let no_list = read::<Vec<String>>(r#"{"a": 1}"#);
    assert!(matches!(no_list, Err(DecodeError::Shape)));
}

#[test]
fn both_forms_of_a_body_are_plain_data() {
    let both = HtmlAndText { html: "<p>h</p>".into(), text: "t".into() };
    assert_eq!(both.clone(), both);
}
