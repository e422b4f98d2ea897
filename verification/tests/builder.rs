use http_message::{Field, MessageBuilder, Method, Request, Response, StatusCode};

const REQ_METHOD: Method = Method::GET;
const REQ_TARGET: &'static str = "/foo/bar";
const RSP_CODE: StatusCode = StatusCode::ImATeapot;
const FIELD_N1: &'static str = "david";
const FIELD_V1: &'static str = "suchet";
const FIELD_N2: &'static str = "hello";
const FIELD_V2: &'static str = "world";
const BODY: &'static str = "ze little grey cells";
const REQUEST_ENCODING_2FB: &'static str = "\
    GET /foo/bar HTTP/1.1\r\n\
    david: suchet\r\n\
    hello: world\r\n\
    \r\n\
    ze little grey cells";
const REQUEST_ENCODING_1FB: &'static str = "\
    GET /foo/bar HTTP/1.1\r\n\
    david: suchet\r\n\
    \r\n\
    ze little grey cells";
const REQUEST_ENCODING_0FB: &'static str = "\
    GET /foo/bar HTTP/1.1\r\n\
    \r\n\
    ze little grey cells";
const REQUEST_ENCODING_0F: &'static str = "\
    GET /foo/bar HTTP/1.1\r\n\
    \r\n";
const RESPONSE_ENCODING_2FB: &'static str = "\
    HTTP/1.1 418 I'm a teapot\r\n\
    david: suchet\r\n\
    hello: world\r\n\
    \r\n\
    ze little grey cells";
const RESPONSE_ENCODING_1FB: &'static str = "\
    HTTP/1.1 418 I'm a teapot\r\n\
    david: suchet\r\n\
    \r\n\
    ze little grey cells";
const RESPONSE_ENCODING_0FB: &'static str = "\
    HTTP/1.1 418 I'm a teapot\r\n\
    \r\n\
    ze little grey cells";
const RESPONSE_ENCODING_0F: &'static str = "\
    HTTP/1.1 418 I'm a teapot\r\n\
    \r\n";

#[test]
fn request() {
    let mut builder = MessageBuilder::request(REQ_METHOD, String::from(REQ_TARGET));
    builder
        .add_field2(FIELD_N1, FIELD_V1)
        .add_field2(FIELD_N2, FIELD_V2)
        .add_body(String::from(BODY));
    assert_eq!(REQUEST_ENCODING_2FB.as_bytes(), builder.into_bytes().as_slice());

    let mut builder = MessageBuilder::request(REQ_METHOD, String::from(REQ_TARGET));
    builder.add_field2(FIELD_N1, FIELD_V1).add_body(String::from(BODY));
    assert_eq!(REQUEST_ENCODING_1FB.as_bytes(), builder.into_bytes().as_slice());

    let mut builder = MessageBuilder::request(REQ_METHOD, String::from(REQ_TARGET));
    builder.add_body(String::from(BODY));
    assert_eq!(REQUEST_ENCODING_0FB.as_bytes(), builder.into_bytes().as_slice());

    let builder = MessageBuilder::request(REQ_METHOD, String::from(REQ_TARGET));
    assert_eq!(REQUEST_ENCODING_0F.as_bytes(), builder.into_bytes().as_slice());
}

#[test]
fn response() {
    let mut builder = MessageBuilder::response(RSP_CODE);
    builder
        .add_field2(FIELD_N1, FIELD_V1)
        .add_field2(FIELD_N2, FIELD_V2)
        .add_body(String::from(BODY));
    assert_eq!(RESPONSE_ENCODING_2FB.as_bytes(), builder.into_bytes().as_slice());

    let mut builder = MessageBuilder::response(RSP_CODE);
    builder.add_field2(FIELD_N1, FIELD_V1).add_body(String::from(BODY));
    assert_eq!(RESPONSE_ENCODING_1FB.as_bytes(), builder.into_bytes().as_slice());

    let mut builder = MessageBuilder::response(RSP_CODE);
    builder.add_body(String::from(BODY));
    assert_eq!(RESPONSE_ENCODING_0FB.as_bytes(), builder.into_bytes().as_slice());

    let builder = MessageBuilder::response(RSP_CODE);
    assert_eq!(RESPONSE_ENCODING_0F.as_bytes(), builder.into_bytes().as_slice());
}

#[test]
fn add_fields_equivalent() {
    let mut builder1 = MessageBuilder::request(REQ_METHOD, String::from(REQ_TARGET));
    let mut builder2 = MessageBuilder::request(REQ_METHOD, String::from(REQ_TARGET));
    builder1.add_field(Field::new(String::from(FIELD_N1), String::from(FIELD_V1)));
    builder2.add_field2(FIELD_N1, FIELD_V1);
    assert_eq!(builder1, builder2);
}

#[test]
fn builder_keeps_the_order_of_fields_and_repeats() {
    let mut builder = MessageBuilder::response(StatusCode::OK);
    builder.add_field2("b", "2").add_field2("a", "1").add_field2("b", "2");
    assert_eq!(
        "HTTP/1.1 200 OK\r\nb: 2\r\na: 1\r\nb: 2\r\n\r\n".as_bytes(),
        builder.into_bytes().as_slice()
    );
}

#[test]
fn builder_body_is_replaced_and_written_verbatim() {
    let mut builder = MessageBuilder::response(StatusCode::NotFound);
    builder.add_body(String::from("first")).add_body(String::from("caf\u{e9}\r\n"));
    assert_eq!(
        "HTTP/1.1 404 Not Found\r\n\r\ncaf\u{e9}\r\n".as_bytes(),
        builder.into_bytes().as_slice()
    );
}

#[test]
fn builder_with_content_length_field() {
    let body = String::from("hello world");
    let mut builder = MessageBuilder::response(StatusCode::OK);
    builder.add_field(Field::ContentLength(body.len())).add_body(body);
    assert_eq!(
        "HTTP/1.1 200 OK\r\nContent-Length: 11\r\n\r\nhello world".as_bytes(),
        builder.into_bytes().as_slice()
    );
}

#[test]
fn built_request_is_read_back() {
    let mut builder = MessageBuilder::request(Method::POST, String::from("/upload?x=1"));
    builder
        .add_field2("Host", "localhost:9090")
        .add_field(Field::ContentLength(4))
        .add_body(String::from("a\r\n\r\nb: c\r\n"));
    let text = String::from_utf8(builder.into_bytes()).unwrap();
    let request = Request::parse(&text).unwrap();
    assert_eq!(&Method::POST, request.method());
    assert_eq!("/upload?x=1", request.target());
    assert_eq!(1, request.version().major());
    assert_eq!(1, request.version().minor());
    assert_eq!(2, request.fields().len());
    assert_eq!("Host", request.fields()[0].name());
    assert_eq!("localhost:9090", request.fields()[0].value());
    assert_eq!("Content-Length", request.fields()[1].name());
    assert_eq!("4", request.fields()[1].value());
}

#[test]
fn built_response_is_read_back() {
    for code in 0..=u16::MAX {
        if let Some(status) = StatusCode::from(code) {
            let mut builder = MessageBuilder::response(status);
            builder.add_field2("a", "b c").add_body(String::from("body"));
            let text = String::from_utf8(builder.into_bytes()).unwrap();
            let response = Response::parse(&text).unwrap();
            assert_eq!(&status, response.status());
            assert_eq!(1, response.fields().len());
            assert_eq!("a", response.fields()[0].name());
            assert_eq!("b c", response.fields()[0].value());
            assert_eq!(format!("HTTP/1.1 {} {}\r\na: b c\r\n\r\n", code, status.phrase()),
                response.to_string());
        }
    }
}
