use cti_query::json::{
    find, parse_document, read_optional_text, read_required_text, Found, JsonValue, Member,
};

fn text(s: &str) -> JsonValue {
    JsonValue::Text(s.to_string())
}

fn member(name: &str, value: JsonValue) -> Member {
    Member { name: name.to_string(), value }
}

#[test]
fn parses_the_literals() {
    assert_eq!(parse_document(b"null"), Some(JsonValue::Null));
    assert_eq!(parse_document(b"true"), Some(JsonValue::Bool(true)));
    assert_eq!(parse_document(b"false"), Some(JsonValue::Bool(false)));
}

#[test]
fn parses_numbers_as_their_text() {
    assert_eq!(parse_document(b"7"), Some(JsonValue::Number("7".to_string())));
    assert_eq!(parse_document(b"-3"), Some(JsonValue::Number("-3".to_string())));
    assert_eq!(parse_document(b"12.5"), Some(JsonValue::Number("12.5".to_string())));
}

#[test]
fn parses_strings_with_escapes() {
    assert_eq!(parse_document(b"\"plain\""), Some(text("plain")));
    assert_eq!(parse_document(b"\"a\\nb\\u0041\""), Some(text("a\nbA")));
    assert_eq!(parse_document("\"\u{e9}\"".as_bytes()), Some(text("\u{e9}")));
}

#[test]
fn parses_arrays_in_order() {
    assert_eq!(parse_document(b"[]"), Some(JsonValue::Array(vec![])));
    assert_eq!(
        parse_document(b"[\"b\", null, [\"a\"]]"),
        Some(JsonValue::Array(vec![
            text("b"),
            JsonValue::Null,
            JsonValue::Array(vec![text("a")])
        ]))
    );
}

#[test]
fn parses_objects_by_member() {
    assert_eq!(parse_document(b"{}"), Some(JsonValue::Object(vec![])));
    assert_eq!(
        parse_document(b"{\"id\": \"x\", \"nested\": {\"k\": true}}"),
        Some(JsonValue::Object(vec![
            member("id", text("x")),
            member("nested", JsonValue::Object(vec![member("k", JsonValue::Bool(true))])),
        ]))
    );
}

#[test]
fn object_members_come_in_key_order() {
    assert_eq!(
        parse_document(b"{\"b\": \"2\", \"a\": \"1\"}"),
        Some(JsonValue::Object(vec![member("a", text("1")), member("b", text("2"))]))
    );
}

#[test]
fn a_repeated_key_keeps_its_last_value() {
    assert_eq!(
        parse_document(b"{\"a\": \"1\", \"a\": \"2\"}"),
        Some(JsonValue::Object(vec![member("a", text("2"))]))
    );
}

#[test]
fn surrounding_whitespace_is_allowed() {
    assert_eq!(parse_document(b" \n\t[ ] \r\n"), Some(JsonValue::Array(vec![])));
}

#[test]
fn rejects_what_is_not_json() {
    assert_eq!(parse_document(b""), None);
    assert_eq!(parse_document(b"   "), None);
    assert_eq!(parse_document(b"<html></html>"), None);
    assert_eq!(parse_document(b"[1, 2"), None);
    assert_eq!(parse_document(b"{\"a\" 1}"), None);
    assert_eq!(parse_document(b"'single'"), None);
    assert_eq!(parse_document(b"[1,]"), None);
}

#[test]
fn rejects_trailing_characters() {
    assert_eq!(parse_document(b"[] []"), None);
    assert_eq!(parse_document(b"null x"), None);
}

#[test]
fn rejects_bytes_that_are_not_utf8_in_a_string() {
    assert_eq!(parse_document(&[b'"', 0xff, b'"']), None);
}

#[test]
fn rejects_nesting_beyond_the_parser_limit() {
    let mut body = Vec::new();
    for _ in 0..200 {
        body.push(b'[');
    }
    for _ in 0..200 {
        body.push(b']');
    }
    assert_eq!(parse_document(&body), None);
}

#[test]
fn accepts_moderate_nesting() {
    let mut body = Vec::new();
    for _ in 0..20 {
        body.push(b'[');
    }
    for _ in 0..20 {
        body.push(b']');
    }
    let mut expected = JsonValue::Array(vec![]);
    for _ in 0..19 {
        expected = JsonValue::Array(vec![expected]);
    }
    assert_eq!(parse_document(&body), Some(expected));
}

#[test]
fn find_tells_absent_single_and_repeated_apart() {
    let members = vec![
        member("id", text("first")),
        member("other", JsonValue::Null),
        member("id", text("second")),
    ];
    assert_eq!(find(&members, "missing"), Found::Absent);
    assert_eq!(find(&members, "other"), Found::Single(&JsonValue::Null));
    assert_eq!(find(&members, "id"), Found::Repeated);
    assert_eq!(find(&Vec::new(), "id"), Found::Absent);
}

#[test]
fn find_returns_the_value_of_the_one_member() {
    let members = vec![member("a", text("1")), member("b", text("2")), member("c", text("3"))];
    assert_eq!(find(&members, "a"), Found::Single(&text("1")));
    assert_eq!(find(&members, "b"), Found::Single(&text("2")));
    assert_eq!(find(&members, "c"), Found::Single(&text("3")));
}

#[test]
fn find_compares_whole_names() {
    let members = vec![member("identifier", text("1")), member("ID", text("2"))];
    assert_eq!(find(&members, "id"), Found::Absent);
    assert_eq!(find(&members, ""), Found::Absent);
}

#[test]
fn required_text_needs_one_string() {
    let members = vec![
        member("s", text("value")),
        member("n", JsonValue::Null),
        member("k", JsonValue::Number("1".to_string())),
        member("twice", text("a")),
        member("twice", text("b")),
    ];
    assert_eq!(read_required_text(&members, "s"), Some("value".to_string()));
    assert_eq!(read_required_text(&members, "n"), None);
    assert_eq!(read_required_text(&members, "k"), None);
    assert_eq!(read_required_text(&members, "twice"), None);
    assert_eq!(read_required_text(&members, "missing"), None);
}

#[test]
fn optional_text_takes_missing_and_null_for_none() {
    let members = vec![
        member("s", text("value")),
        member("n", JsonValue::Null),
        member("b", JsonValue::Bool(false)),
        member("a", JsonValue::Array(vec![])),
        member("twice", JsonValue::Null),
        member("twice", JsonValue::Null),
    ];
    assert_eq!(read_optional_text(&members, "s"), Some(Some("value".to_string())));
    assert_eq!(read_optional_text(&members, "n"), Some(None));
    assert_eq!(read_optional_text(&members, "missing"), Some(None));
    assert_eq!(read_optional_text(&members, "b"), None);
    assert_eq!(read_optional_text(&members, "a"), None);
    assert_eq!(read_optional_text(&members, "twice"), None);
}
