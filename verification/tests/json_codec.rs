use postmark::codec::{DecodeError, EncodeError};
use postmark::json::{Entry, Json};

fn text_of(doc: &Json) -> String {
    String::from_utf8(doc.render().unwrap()).unwrap()
}

#[test]
fn renders_an_object_in_entry_order() {
    let doc = Json::Object(vec![
        Entry { key: "To".to_string(), value: Json::Str("a@example.com".to_string()) },
        Entry { key: "From".to_string(), value: Json::integer(-3) },
    ]);
    let text = doc.render().unwrap();
    assert_eq!(String::from_utf8(text).unwrap(), "{\"To\":\"a@example.com\",\"From\":-3}");
}

#[test]
fn renders_every_kind_of_document() {
    assert_eq!(text_of(&Json::Null), "null");
    assert_eq!(text_of(&Json::Bool(true)), "true");
    assert_eq!(text_of(&Json::Bool(false)), "false");
    assert_eq!(text_of(&Json::integer(0)), "0");
    assert_eq!(text_of(&Json::integer(i64::MIN)), "-9223372036854775808");
    assert_eq!(text_of(&Json::Number("2.5".to_string())), "2.5");
    assert_eq!(text_of(&Json::Number("18446744073709551615".to_string())), "18446744073709551615");
    assert_eq!(text_of(&Json::Str("a \"b\"\n\u{e9}".to_string())), "\"a \\\"b\\\"\\n\u{e9}\"");
    assert_eq!(text_of(&Json::Array(vec![])), "[]");
    assert_eq!(text_of(&Json::Array(vec![Json::integer(1), Json::Null])), "[1,null]");
    assert_eq!(text_of(&Json::Object(vec![])), "{}");
}

#[test]
fn a_number_that_is_none_cannot_be_rendered() {
    let doc = Json::Array(vec![Json::Number("1,5".to_string())]);
    assert!(matches!(doc.render(), Err(EncodeError::Body { .. })));
    let doc = Json::Number(String::new());
    assert!(matches!(doc.render(), Err(EncodeError::Body { .. })));
}

#[test]
fn of_a_key_that_comes_twice_the_text_keeps_the_last_value() {
    let doc = Json::Object(vec![
        Entry { key: "a".to_string(), value: Json::integer(1) },
        Entry { key: "b".to_string(), value: Json::integer(2) },
        Entry { key: "a".to_string(), value: Json::integer(3) },
    ]);
    assert_eq!(text_of(&doc), r#"{"a":3,"b":2}"#);
}

#[test]
fn parses_every_kind_of_document() {
    let doc = Json::parse(br#" {"a": [1, -2, 2.5, "x", null, true], "b": {}, "c": 1e2} "#).unwrap();
    assert_eq!(
        doc,
        Json::Object(vec![
            Entry {
                key: "a".to_string(),
                value: Json::Array(vec![
                    Json::integer(1),
                    Json::integer(-2),
                    Json::Number("2.5".to_string()),
                    Json::Str("x".to_string()),
                    Json::Null,
                    Json::Bool(true),
                ]),
            },
            Entry { key: "b".to_string(), value: Json::Object(vec![]) },
            Entry { key: "c".to_string(), value: Json::Number("100.0".to_string()) },
        ])
    );
}

#[test]
fn a_number_is_kept_as_its_literal() {
    assert_eq!(Json::parse(b"9223372036854775807").unwrap(), Json::integer(i64::MAX));
    assert_eq!(
        Json::parse(b"9223372036854775808").unwrap(),
        Json::Number("9223372036854775808".to_string())
    );
    assert_eq!(Json::parse(b"-9223372036854775808").unwrap(), Json::integer(i64::MIN));
    assert_eq!(Json::parse(b"7").unwrap(), Json::Number("7".to_string()));
    assert_eq!(Json::parse(b"-0").unwrap(), Json::Number("-0.0".to_string()));
    assert_eq!(Json::parse(b"1.50").unwrap(), Json::Number("1.5".to_string()));
    assert_eq!(Json::integer(-12), Json::Number("-12".to_string()));
}

#[test]
fn only_a_plain_integer_is_read_as_one() {
    assert_eq!(Json::Number("0".to_string()).as_int(), Some(0));
    assert_eq!(Json::Number("-7".to_string()).as_int(), Some(-7));
    assert_eq!(Json::Number("9223372036854775807".to_string()).as_int(), Some(i64::MAX));
    assert_eq!(Json::Number("-9223372036854775808".to_string()).as_int(), Some(i64::MIN));
    for other in [
        "", "-", "+1", "01", "-0", "-01", "1.0", "1e3", "0x10", " 1", "1 ", "--1", "1-",
        "9223372036854775808", "-9223372036854775809", "18446744073709551616",
        "100000000000000000000000000000", "\u{661}",
    ] {
        assert_eq!(Json::Number(other.to_string()).as_int(), None, "{:?}", other);
    }
    assert_eq!(Json::Str("1".to_string()).as_int(), None);
}

#[test]
fn what_is_no_json_is_refused() {
    assert!(matches!(Json::parse(b""), Err(DecodeError::Syntax { .. })));
    assert!(matches!(Json::parse(b"{"), Err(DecodeError::Syntax { .. })));
    assert!(matches!(Json::parse(b"{} {}"), Err(DecodeError::Syntax { .. })));
    assert!(matches!(Json::parse(b"\xff"), Err(DecodeError::Syntax { .. })));
    assert!(matches!(Json::parse(b"nul"), Err(DecodeError::Syntax { .. })));
}

#[test]
fn what_is_rendered_parses_to_the_same() {
    let doc = Json::Object(vec![
        Entry { key: "k".to_string(), value: Json::Array(vec![Json::integer(7), Json::Str("s".into())]) },
        Entry { key: "n".to_string(), value: Json::Number("0.25".to_string()) },
    ]);
    let back = Json::parse(&doc.render().unwrap()).unwrap();
    assert_eq!(back, doc);
    assert_eq!(doc.clone(), doc);
    assert_eq!(doc.duplicate(), doc);
}

#[test]
fn the_parts_of_a_document_are_read_by_kind() {
    let doc = Json::parse(br#"{"s": "x", "i": 5, "b": false, "a": [1], "n": null, "f": 1.5}"#).unwrap();
    assert_eq!(doc.get("s").unwrap().as_str(), Some(&"x".to_string()));
    assert_eq!(doc.get("i").unwrap().as_int(), Some(5));
    assert_eq!(doc.get("b").unwrap().as_bool(), Some(false));
    assert_eq!(doc.get("a").unwrap().as_array(), Some(&vec![Json::integer(1)]));
    assert!(doc.get("n").unwrap().is_null());
    assert_eq!(doc.get("f").unwrap().as_int(), None);
    assert_eq!(doc.get("s").unwrap().as_int(), None);
    assert_eq!(doc.get("i").unwrap().as_str(), None);
    assert_eq!(doc.get("i").unwrap().as_bool(), None);
    assert_eq!(doc.get("i").unwrap().as_array(), None);
    assert!(!doc.get("i").unwrap().is_null());
    assert!(doc.get("missing").is_none());
    assert!(Json::integer(1).get("i").is_none());
}
