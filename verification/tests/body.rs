use http_message::{Body, ParseError};

fn assert_parse_error<T: std::fmt::Debug>(message: &str, result: Result<T, ParseError>) {
    assert!(result.is_err());
    let description = result.unwrap_err().to_string();
    assert_eq!(message, description);
}

fn assert_body_empty(body: &Body) {
    let empty_vec: Vec<u8> = Vec::new();
    assert_eq!(&empty_vec, body.as_bytes());
    assert_eq!(0, body.content_length());
    assert_eq!("", body.to_string());
}

fn assert_body_eq(expected: String, actual: &Body) {
    assert_eq!(expected, actual.to_string());
    let expected = expected.into_bytes();
    assert_eq!(&expected, actual.as_bytes());
    assert_eq!(expected.len(), actual.content_length());
}

#[test]
fn from_empty_string() {
    let body = Body::from(String::new());
    assert_body_empty(&body);
}

#[test]
fn from_nonempty_string() {
    let expected = String::from("hello world");
    let body = Body::from(expected.clone());
    assert_body_eq(expected, &body);
}

#[test]
fn body_parse_no_bytes() {
    let stream = "";
    let body = Body::parse(stream.as_bytes(), 0).unwrap();
    assert_body_empty(&body);
}

#[test]
fn body_parse_exact_bytes() {
    let expected = "hello world";
    let body = Body::parse(expected.as_bytes(), 11).unwrap();
    assert_body_eq(String::from(expected), &body);
}

#[test]
fn body_parse_too_many_bytes() {
    let expected = "hello world";
    let body = Body::parse(expected.as_bytes(), 4).unwrap();
    assert_body_eq(String::from(&expected[..4]), &body);
}

#[test]
fn parse_too_few_bytes() {
    let expected = "hello world";
    let result = Body::parse(expected.as_bytes(), 20);
    assert_parse_error("HTTP parsing error: Failed to read requested bytes", result);
}

#[test]
fn body_parse_zero_of_a_full_stream_is_empty() {
    let body = Body::parse("hello world".as_bytes(), 0).unwrap();
    assert_body_empty(&body);
}

#[test]
fn body_parse_one_byte_too_many_is_truncated() {
    let result = Body::parse("hello world".as_bytes(), 12);
    assert_parse_error("HTTP parsing error: Failed to read requested bytes", result);
    let result = Body::parse("".as_bytes(), 1);
    assert_parse_error("HTTP parsing error: Failed to read requested bytes", result);
}

#[test]
fn body_renders_invalid_bytes_with_replacement() {
    let stream: [u8; 4] = [b'a', 0xFF, b'b', 0xC0];
    let body = Body::parse(&stream, 4).unwrap();
    assert_eq!(4, body.content_length());
    assert_eq!("a\u{FFFD}b\u{FFFD}", body.to_string());
}

#[test]
fn body_from_text_counts_bytes_not_characters() {
    let body = Body::from(String::from("h\u{e9}llo"));
    assert_eq!(6, body.content_length());
    assert_eq!("h\u{e9}llo", body.to_string());
    assert_eq!(&vec![b'h', 0xC3, 0xA9, b'l', b'l', b'o'], body.as_bytes());
}
