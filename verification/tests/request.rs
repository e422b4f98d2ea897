use http_message::{Field, Method, ParseError, Request, RequestStatus, Version};

const STAT_METHOD: Method = Method::PATCH;
const STAT_TARGET: &'static str = "target/";
const FIELD_N1: &'static str = "foo";
const FIELD_V1: &'static str = "bar";
const FIELD_N2: &'static str = "hum";
const FIELD_V2: &'static str = "bug";

const REQUEST_ENCODING_0F: &'static str = "\
    PATCH target/ HTTP/1.1\r\n\
    \r\n";
const REQUEST_ENCODING_1F: &'static str = "\
    PATCH target/ HTTP/1.1\r\n\
    foo: bar\r\n\
    \r\n";
const REQUEST_ENCODING_2F: &'static str = "\
    PATCH target/ HTTP/1.1\r\n\
    foo:  bar\r\n\
    hum:bug\r\n\
    \r\n";
const REQUEST_ENCODING_INVALID_STATUS: &'static str = "\
    PATCH_target/ HTTP/1.1\r\n\
    foo:  bar\r\n\
    hum:bug\r\n\
    \r\n";
const REQUEST_ENCODING_INVALID_FIELDS: &'static str = "\
    PATCH target/ HTTP/1.1\r\n\
    hum :bug\r\n\
    \r\n";

fn assert_parse_error<T: std::fmt::Debug>(message: &str, result: Result<T, ParseError>) {
    assert!(result.is_err());
    let description = result.unwrap_err().to_string();
    assert_eq!(message, description);
}

fn assert_field_eq(name: &str, value: &str, actual: &Field) {
    assert_eq!(name, actual.name());
    assert_eq!(value, actual.value());
}

fn assert_request(request: &Request, field_num: usize) {
    let stat_version = Version::new(1, 1).unwrap();

    assert_eq!(field_num, request.fields().len());
    if field_num >= 1 {
        assert_field_eq(FIELD_N1, FIELD_V1, &request.fields()[0]);
    }
    if field_num >= 2 {
        assert_field_eq(FIELD_N2, FIELD_V2, &request.fields()[1]);
    }

    assert_eq!(&stat_version, request.version());
    assert_eq!(&STAT_METHOD, request.method());
    assert_eq!(STAT_TARGET, request.target());
}

#[test]
fn request_new() {
    let status = RequestStatus::new(STAT_METHOD, String::from(STAT_TARGET));
    let mut fields: Vec<Field> = Vec::new();
    fields.push(Field::new(String::from(FIELD_N1), String::from(FIELD_V1)));
    fields.push(Field::new(String::from(FIELD_N2), String::from(FIELD_V2)));
    let request = Request::new(status, fields);
    assert_request(&request, 2);
}

#[test]
fn request_parse_no_bytes() {
    let request = Request::parse("");
    assert_parse_error("HTTP parsing error: Unexpected end of stream", request);
}

#[test]
fn request_parse_exact_bytes() {
    let request = Request::parse(REQUEST_ENCODING_0F).unwrap();
    assert_request(&request, 0);

    let request = Request::parse(REQUEST_ENCODING_1F).unwrap();
    assert_request(&request, 1);

    let request = Request::parse(REQUEST_ENCODING_2F).unwrap();
    assert_request(&request, 2);
}

#[test]
fn request_parse_invalid_status() {
    let request = Request::parse(REQUEST_ENCODING_INVALID_STATUS);
    assert_parse_error("HTTP parsing error: Invalid request", request);
}

#[test]
fn request_parse_invalid_fields() {
    let request = Request::parse(REQUEST_ENCODING_INVALID_FIELDS);
    assert_parse_error("HTTP parsing error: Invalid field", request);
}

#[test]
fn request_parse_truncated_status() {
    let request = Request::parse(&REQUEST_ENCODING_1F[..10]);
    assert_parse_error("HTTP parsing error: Invalid request", request);
}

#[test]
fn request_parse_truncated_field() {
    let request = Request::parse(&REQUEST_ENCODING_1F[..30]);
    assert_parse_error("HTTP parsing error: Unexpected end of stream", request);
}

#[test]
fn request_parse_too_many_bytes() {
    let mut long_request = String::from(REQUEST_ENCODING_1F);
    long_request.push_str(REQUEST_ENCODING_0F);
    let request = Request::parse(&long_request).unwrap();
    assert_request(&request, 1);
}

#[test]
fn request_display() {
    let request = Request::parse(&REQUEST_ENCODING_0F).unwrap();
    assert_eq!(REQUEST_ENCODING_0F, request.to_string());

    let request = Request::parse(REQUEST_ENCODING_1F).unwrap();
    assert_eq!(REQUEST_ENCODING_1F, request.to_string());

    let request = Request::parse(REQUEST_ENCODING_2F).unwrap();
    assert_eq!(
        "PATCH target/ HTTP/1.1\r\n\
         foo: bar\r\n\
         hum: bug\r\n\
         \r\n",
        request.to_string()
    );
}

#[test]
fn request_minimal_round_trips() {
    let text = "GET / HTTP/1.1\r\n\r\n";
    let request = Request::parse(text).unwrap();
    assert_eq!(&Method::GET, request.method());
    assert_eq!("/", request.target());
    assert_eq!(1, request.version().major());
    assert_eq!(1, request.version().minor());
    assert_eq!(0, request.fields().len());
    assert_eq!(text, request.to_string());
    assert_eq!(text.as_bytes(), request.to_string().as_bytes());
}

#[test]
fn request_fields_keep_their_order() {
    let request = Request::parse("GET /a HTTP/1.1\r\nfoo:  bar\r\nhum:bug\r\n\r\n").unwrap();
    assert_eq!("/a", request.target());
    assert_eq!(2, request.fields().len());
    assert_field_eq("foo", "bar", &request.fields()[0]);
    assert_field_eq("hum", "bug", &request.fields()[1]);
}

#[test]
fn request_repeated_fields_are_kept() {
    let request = Request::parse("GET / HTTP/1.1\r\nb: 1\r\na: 2\r\nb: 1\r\n\r\n").unwrap();
    assert_eq!(3, request.fields().len());
    assert_field_eq("b", "1", &request.fields()[0]);
    assert_field_eq("a", "2", &request.fields()[1]);
    assert_field_eq("b", "1", &request.fields()[2]);
    assert_eq!("GET / HTTP/1.1\r\nb: 1\r\na: 2\r\nb: 1\r\n\r\n", request.to_string());
}

#[test]
fn request_every_truncation_before_the_blank_line_fails() {
    let text = REQUEST_ENCODING_1F;
    for cut in 0..text.len() - 1 {
        assert!(Request::parse(&text[..cut]).is_err());
    }
    assert!(Request::parse(&text[..text.len() - 1]).is_err());
    assert!(Request::parse(text).is_ok());
}

#[test]
fn request_truncation_at_a_line_end_is_an_early_end() {
    let text = "PATCH target/ HTTP/1.1\r\nfoo: bar\r\nhum: bug\r\n\r\n";
    for cut in [0, 24, 34, 44].iter() {
        let request = Request::parse(&text[..*cut]);
        assert_parse_error("HTTP parsing error: Unexpected end of stream", request);
    }
}

#[test]
fn request_truncation_inside_a_name_is_a_bad_field() {
    let request = Request::parse("PATCH target/ HTTP/1.1\r\nfo");
    assert_parse_error("HTTP parsing error: Invalid field", request);
    let request = Request::parse("PATCH target/ HTTP/1.1\r\nfoo: bar\r\n\r");
    assert_parse_error("HTTP parsing error: Invalid field", request);
}

#[test]
fn request_truncation_past_the_second_space_is_a_bad_version() {
    let request = Request::parse("PATCH target/ HTTP/1");
    assert_parse_error("HTTP parsing error: Invalid version", request);
}

#[test]
fn request_lines_may_end_without_carriage_return() {
    let request = Request::parse("GET / HTTP/1.1\nfoo: bar\n\n").unwrap();
    assert_eq!(1, request.fields().len());
    assert_field_eq("foo", "bar", &request.fields()[0]);
}

#[test]
fn request_from_lines_matches_parse() {
    let lines = vec![
        String::from("PATCH target/ HTTP/1.1"),
        String::from("foo:  bar"),
        String::from(""),
        String::from("not looked at"),
    ];
    let request = Request::from_lines(&lines).unwrap();
    assert_request(&request, 1);
    assert_eq!(request, Request::parse(REQUEST_ENCODING_1F).unwrap());

    let none: Vec<String> = Vec::new();
    let request = Request::from_lines(&none);
    assert_parse_error("HTTP parsing error: Unexpected end of stream", request);
}
