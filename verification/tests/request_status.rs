use http_message::{Method, ParseError, RequestStatus, Version};

fn assert_parse_error<T: std::fmt::Debug>(message: &str, result: Result<T, ParseError>) {
    assert!(result.is_err());
    let description = result.unwrap_err().to_string();
    assert_eq!(message, description);
}

fn assert_status_equals(
    version: &Version,
    method: &Method,
    target: &String,
    actual: &RequestStatus,
) {
    assert_eq!(version, &actual.version);
    assert_eq!(method, &actual.method);
    assert_eq!(target, &actual.target);
}

#[test]
fn request_status_new() {
    let target = String::from("/hello");
    let status = RequestStatus::new(Method::GET, target.clone());
    assert_status_equals(&Version::new(1, 1).unwrap(), &Method::GET, &target, &status);
}

#[test]
fn request_status_from_valid_string() {
    // Test an easy one.
    let input = String::from("GET /foo/bar HTTP/1.2");
    let status = RequestStatus::from(input).unwrap();
    assert_status_equals(
        &Version::new(1, 2).unwrap(),
        &Method::GET,
        &String::from("/foo/bar"),
        &status,
    );

    // Test a slightly harder one.
    let input = String::from("CONNECT / HTTP/0.0");
    let status = RequestStatus::from(input).unwrap();
    assert_status_equals(
        &Version::new(0, 0).unwrap(),
        &Method::CONNECT,
        &String::from("/"),
        &status,
    );
}

#[test]
fn request_status_from_invalid_empty_string() {
    // Empty string.
    let status = RequestStatus::from(String::from(""));
    assert_parse_error("HTTP parsing error: Invalid request", status);

    // String of empty parameters.
    let status = RequestStatus::from(String::from("  "));
    assert_parse_error("HTTP parsing error: Invalid method", status);
}

#[test]
fn request_status_from_invalid_too_few_args() {
    let status = RequestStatus::from(String::from("CONNECT /"));
    assert_parse_error("HTTP parsing error: Invalid request", status);
}

#[test]
fn from_invalid_too_many_args() {
    let status = RequestStatus::from(String::from("HEAD /a /b HTTP/1.1"));
    assert_parse_error("HTTP parsing error: Invalid request", status);
}

#[test]
fn from_invalid_method_arg() {
    // Non-existant method.
    let status = RequestStatus::from(String::from("FOO /foo HTTP/1.1"));
    assert_parse_error("HTTP parsing error: Invalid method", status);

    // Empty method.
    let status = RequestStatus::from(String::from(" /foo HTTP/1.1"));
    assert_parse_error("HTTP parsing error: Invalid method", status);
}

#[test]
fn from_invalid_target_arg() {
    // Empty target.
    let status = RequestStatus::from(String::from("GET  HTTP/1.1"));
    assert_parse_error("HTTP parsing error: Invalid target", status);
}

#[test]
fn request_status_from_invalid_version_arg() {
    // Non-numeric version.
    let status = RequestStatus::from(String::from("GET /foo HTTP/a.1"));
    assert_parse_error("HTTP parsing error: Invalid version", status);

    // Empty version.
    let status = RequestStatus::from(String::from("GET /foo "));
    assert_parse_error("HTTP parsing error: Invalid version", status);
}

#[test]
fn request_status_display() {
    let input = "OPTIONS * HTTP/1.1";
    let status = RequestStatus::from(String::from(input)).unwrap();
    assert_eq!(input, status.to_string());
}

#[test]
fn request_status_first_failure_wins() {
    // A bad method is reported before an empty target or a bad version.
    let status = RequestStatus::from(String::from("FOO  HTTP/x.1"));
    assert_parse_error("HTTP parsing error: Invalid method", status);

    // An empty target is reported before a bad version.
    let status = RequestStatus::from(String::from("GET  HTTP/x.1"));
    assert_parse_error("HTTP parsing error: Invalid target", status);

    // Four pieces are refused before any of them is looked at.
    let status = RequestStatus::from(String::from("FOO  HTTP/x.1 "));
    assert_parse_error("HTTP parsing error: Invalid request", status);
}

#[test]
fn request_status_target_is_opaque() {
    let status = RequestStatus::from(String::from("GET \u{2603}?q=\t#x HTTP/1.0")).unwrap();
    assert_eq!("\u{2603}?q=\t#x", status.target);
    assert_eq!("GET \u{2603}?q=\t#x HTTP/1.0", status.to_string());
}
