use greeter::json_body;

fn reference_body(content: &str) -> Vec<u8> {
    let mut fields = serde_json::Map::new();
    fields.insert(
        "content".to_string(),
        serde_json::Value::String(content.to_string()),
    );
    serde_json::to_vec(&serde_json::Value::Object(fields)).unwrap()
}

#[test]
fn plain_content() {
    assert_eq!(json_body("abc"), b"{\"content\":\"abc\"}".to_vec());
}

#[test]
fn empty_content() {
    assert_eq!(json_body(""), b"{\"content\":\"\"}".to_vec());
}

#[test]
fn greeting_content() {
    assert_eq!(
        json_body("Hello from Rust!"),
        b"{\"content\":\"Hello from Rust!\"}".to_vec()
    );
}

#[test]
fn quotes_and_backslashes_are_escaped() {
    assert_eq!(
        json_body("a\"b\\c"),
        b"{\"content\":\"a\\\"b\\\\c\"}".to_vec()
    );
}

#[test]
fn named_control_escapes() {
    assert_eq!(
        json_body("\u{8}\t\n\u{c}\r"),
        b"{\"content\":\"\\b\\t\\n\\f\\r\"}".to_vec()
    );
}

#[test]
fn numbered_control_escapes() {
    assert_eq!(
        json_body("\u{0}\u{1}\u{b}\u{e}\u{1f}"),
        b"{\"content\":\"\\u0000\\u0001\\u000b\\u000e\\u001f\"}".to_vec()
    );
}

#[test]
fn multibyte_content_passes_through() {
    let content = "h\u{e9}llo \u{2603}";
    let mut expected = b"{\"content\":\"".to_vec();
    expected.extend_from_slice(content.as_bytes());
    expected.extend_from_slice(b"\"}");
    assert_eq!(json_body(content), expected);
}

#[test]
fn encoder_matches_reference_serializer() {
    let contents = [
        "",
        "Hello from Rust!",
        "a\"b\\c",
        "\u{8}\t\n\u{c}\r",
        "\u{0}\u{1}\u{2}\u{3}\u{1e}\u{1f}",
        " / ",
        "h\u{e9}llo \u{2603} \u{1f600}",
        "{\"content\":\"nested\"}",
        "line one\r\nline two",
    ];
    for content in contents {
        assert_eq!(json_body(content), reference_body(content), "{:?}", content);
    }
}
