use http_message::head::{
    read_fields, render_head, scan_fields, split_head_lines, split_lines, Progress,
};
use http_message::{ErrorKind, Field, Request, Response, StatusCode};

fn lines(parts: &[&str]) -> Vec<String> {
    parts.iter().map(|part| String::from(*part)).collect()
}

#[test]
fn split_lines_strips_line_breaks() {
    assert_eq!(lines(&["a", "b"]), split_lines("a\r\nb\r\n"));
    assert_eq!(lines(&["a", "b"]), split_lines("a\nb\n"));
    assert_eq!(lines(&["a", "", "b"]), split_lines("a\r\n\r\nb"));
    assert_eq!(lines(&["", ""]), split_lines("\n\n"));
}

#[test]
fn split_lines_keeps_what_is_not_a_line_break() {
    // A piece without a line feed is a line as it stands.
    assert_eq!(lines(&["a", "b\r"]), split_lines("a\r\nb\r"));
    assert_eq!(lines(&["\r"]), split_lines("\r"));
    // Only one carriage return goes with the line feed.
    assert_eq!(lines(&["a\r"]), split_lines("a\r\r\n"));
    // A carriage return inside a line stays.
    assert_eq!(lines(&["a\rb"]), split_lines("a\rb\n"));
}

#[test]
fn split_lines_of_nothing_is_nothing() {
    let none: Vec<String> = Vec::new();
    assert_eq!(none, split_lines(""));
}

#[test]
fn split_lines_agrees_with_the_standard_library() {
    let texts = [
        "",
        "\n",
        "\r",
        "\r\n",
        "\n\r",
        "a",
        "a\n",
        "a\r\n",
        "a\r\nb",
        "a\r\n\r\nb\r",
        "a\r\r\nb\n\n",
        "GET / HTTP/1.1\r\nfoo: bar\r\n\r\nbody",
        "\u{e9}\u{2603}\r\n\u{1F600}\n",
    ];
    for text in texts.iter() {
        let expected: Vec<String> = text.lines().map(String::from).collect();
        assert_eq!(expected, split_lines(text));
    }
}

#[test]
fn scan_fields_tells_an_early_end_from_a_bad_field() {
    let block = lines(&["first", "a: 1", "b: 2"]);
    assert_eq!(Err(ErrorKind::UnexpectedEof), scan_fields(&block, 1));
    assert_eq!(Err(ErrorKind::UnexpectedEof), scan_fields(&block, 3));
    assert_eq!(Err(ErrorKind::UnexpectedEof), scan_fields(&block, 7));
    assert_eq!(Err(ErrorKind::InvalidField), scan_fields(&block, 0));

    let block = lines(&["first", "a: 1", "b 2", ""]);
    assert_eq!(Err(ErrorKind::InvalidField), scan_fields(&block, 1));
}

#[test]
fn scan_fields_stops_at_the_empty_line() {
    let block = lines(&["first", "a: 1", "b:2", "", "c d", ""]);
    let fields = scan_fields(&block, 1).unwrap();
    assert_eq!(2, fields.len());
    assert_eq!("a", fields[0].name());
    assert_eq!("1", fields[0].value());
    assert_eq!("b", fields[1].name());
    assert_eq!("2", fields[1].value());

    let fields = scan_fields(&block, 3).unwrap();
    assert_eq!(0, fields.len());
}

#[test]
fn read_fields_reports_errors_by_description() {
    let block = lines(&["a: 1"]);
    let error = read_fields(&block, 0).unwrap_err();
    assert_eq!("HTTP parsing error: Unexpected end of stream", error.to_string());

    let block = lines(&["a 1", ""]);
    let error = read_fields(&block, 0).unwrap_err();
    assert_eq!("HTTP parsing error: Invalid field", error.to_string());

    let block = lines(&["a: 1", ""]);
    let fields = read_fields(&block, 0).unwrap();
    assert_eq!(vec![Field::new(String::from("a"), String::from("1"))], fields);
}

#[test]
fn render_head_ends_every_line_and_adds_an_empty_one() {
    let none: Vec<Field> = Vec::new();
    assert_eq!("first\r\n\r\n", render_head(String::from("first"), &none));

    let fields = vec![
        Field::new(String::from("a"), String::from("1")),
        Field::new(String::from("b"), String::from("")),
    ];
    assert_eq!("first\r\na: 1\r\nb: \r\n\r\n", render_head(String::from("first"), &fields));
}

#[test]
fn advance_asks_for_lines_until_the_head_is_whole() {
    let whole = lines(&["GET / HTTP/1.1", "a: 1", "b: 2", ""]);
    for count in 0..whole.len() {
        let read: Vec<String> = whole[..count].to_vec();
        assert!(matches!(Request::advance(&read, false), Progress::NeedLine));
    }
    match Request::advance(&whole, false) {
        Progress::Done(Ok(request)) => {
            assert_eq!(2, request.fields().len());
            assert_eq!("/", request.target());
        }
        other => panic!("unexpected {:?}", other),
    }
}

#[test]
fn advance_gives_up_at_once_on_a_bad_line() {
    let read = lines(&["GET /"]);
    match Request::advance(&read, false) {
        Progress::Done(Err(error)) => assert_eq!("Invalid request", error.description()),
        other => panic!("unexpected {:?}", other),
    }
    let read = lines(&["GET / HTTP/1.1", "a 1"]);
    match Request::advance(&read, false) {
        Progress::Done(Err(error)) => assert_eq!("Invalid field", error.description()),
        other => panic!("unexpected {:?}", other),
    }
    let read = lines(&["HTTP/1.1 999 x"]);
    match Response::advance(&read, false) {
        Progress::Done(Err(error)) => assert_eq!("Invalid status", error.description()),
        other => panic!("unexpected {:?}", other),
    }
}

#[test]
fn advance_reports_an_early_end_once_the_stream_has_ended() {
    let none: Vec<String> = Vec::new();
    match Request::advance(&none, true) {
        Progress::Done(Err(error)) => assert_eq!("Unexpected end of stream", error.description()),
        other => panic!("unexpected {:?}", other),
    }
    let read = lines(&["HTTP/1.1 200 OK", "a: 1"]);
    assert!(matches!(Response::advance(&read, false), Progress::NeedLine));
    match Response::advance(&read, true) {
        Progress::Done(Err(error)) => assert_eq!("Unexpected end of stream", error.description()),
        other => panic!("unexpected {:?}", other),
    }
}

#[test]
fn advance_ignores_lines_after_the_empty_one() {
    let read = lines(&["HTTP/1.1 204 x", "", "a b", "c"]);
    match Response::advance(&read, true) {
        Progress::Done(Ok(response)) => {
            assert_eq!(&StatusCode::NoContent, response.status());
            assert_eq!(0, response.fields().len());
        }
        other => panic!("unexpected {:?}", other),
    }
}

#[test]
fn split_head_lines_stops_after_the_empty_line() {
    assert_eq!(lines(&["a", "b", ""]), split_head_lines("a\r\nb\r\n\r\nc\r\nd"));
    assert_eq!(lines(&["a", ""]), split_head_lines("a\n\n\n\n"));
    // An empty first line does not end the head.
    assert_eq!(lines(&["", "a", ""]), split_head_lines("\r\na\r\n\r\nb"));
    assert_eq!(lines(&["", ""]), split_head_lines("\n\nb"));
}

#[test]
fn split_head_lines_without_an_empty_line_gives_every_line() {
    let none: Vec<String> = Vec::new();
    assert_eq!(none, split_head_lines(""));
    assert_eq!(lines(&["a", "b"]), split_head_lines("a\r\nb"));
    assert_eq!(lines(&["a", "b\r"]), split_head_lines("a\r\nb\r"));
    // A piece that is cut before its line feed is not an empty line.
    assert_eq!(lines(&["a", "\r"]), split_head_lines("a\r\n\r"));
}

#[test]
fn a_body_full_of_bad_lines_does_not_disturb_the_head() {
    let text = "GET / HTTP/1.1\r\na: 1\r\n\r\nno colon here\r\n\r\n : \n";
    let request = Request::parse(text).unwrap();
    assert_eq!(1, request.fields().len());
    assert_eq!(request, Request::from_lines(&split_lines(text)).unwrap());
}
