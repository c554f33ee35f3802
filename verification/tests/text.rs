use postmark::text::{decimal_string, is_text, parse_integer, push_decimal};

#[test]
fn integers_in_decimal() {
    assert_eq!(decimal_string(0), "0");
    assert_eq!(decimal_string(7), "7");
    assert_eq!(decimal_string(10), "10");
    assert_eq!(decimal_string(12345), "12345");
    assert_eq!(decimal_string(-1), "-1");
    assert_eq!(decimal_string(-120), "-120");
    assert_eq!(decimal_string(i64::MAX), "9223372036854775807");
    assert_eq!(decimal_string(i64::MIN), "-9223372036854775808");
}

#[test]
fn decimal_agrees_with_the_standard_library() {
    let mut n: i64 = 1;
    for _ in 0..18 {
        assert_eq!(decimal_string(n), n.to_string());
        assert_eq!(decimal_string(-n), (-n).to_string());
        assert_eq!(decimal_string(n - 1), (n - 1).to_string());
        n *= 10;
    }
}

#[test]
fn decimal_is_appended_to_what_is_there() {
    let mut text = String::from("/servers/");
    push_decimal(&mut text, 42);
    assert_eq!(text, "/servers/42");
}

#[test]
fn texts_are_compared_as_wholes() {
    assert!(is_text(&"Layout".to_string(), "Layout"));
    assert!(!is_text(&"Layout".to_string(), "layout"));
    assert!(!is_text(&"Layout".to_string(), "Layou"));
    assert!(is_text(&String::new(), ""));
}

#[test]
fn reading_is_the_inverse_of_writing() {
    let mut n: i64 = 1;
    for _ in 0..18 {
        for i in [n, -n, n - 1, 1 - n, n + 7] {
            assert_eq!(parse_integer(&decimal_string(i)), Some(i));
        }
        n *= 10;
    }
    assert_eq!(parse_integer(&decimal_string(i64::MIN)), Some(i64::MIN));
    assert_eq!(parse_integer(&decimal_string(i64::MAX)), Some(i64::MAX));
    assert_eq!(parse_integer("0"), Some(0));
}

#[test]
fn what_is_not_written_as_decimal_writes_is_not_read() {
    for other in ["", "-", "00", "007", "-0", "+5", "5.", "٣", "5a", "a5", "9223372036854775808"] {
        assert_eq!(parse_integer(other), None, "{:?}", other);
    }
}
