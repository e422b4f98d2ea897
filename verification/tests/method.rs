use http_message::{Method, ParseError};

fn assert_parse_error<T: std::fmt::Debug>(message: &str, result: Result<T, ParseError>) {
    assert!(result.is_err());
    let description = result.unwrap_err().to_string();
    assert_eq!(message, description);
}

#[test]
fn method_from_valid_string() {
    let names = ["CONNECT", "DELETE", "GET", "HEAD", "OPTIONS", "PATCH", "POST", "PUT", "TRACE"];
    let mut enums = [
        Method::CONNECT,
        Method::DELETE,
        Method::GET,
        Method::HEAD,
        Method::OPTIONS,
        Method::PATCH,
        Method::POST,
        Method::PUT,
        Method::TRACE,
    ];
    assert_eq!(names.len(), enums.len());
    for (value, expected) in names.iter().zip(enums.iter_mut()) {
        let mut actual = Method::from(value).unwrap();
        assert_eq!(expected, &mut actual);
        assert_eq!(value, &actual.to_string());
    }
}

#[test]
fn from_invalid_string() {
    // Test empty string.
    let result = Method::from("");
    assert_parse_error("HTTP parsing error: Invalid method", result);

    // Test lower case valid method.
    let result = Method::from("Get");
    assert_parse_error("HTTP parsing error: Invalid method", result);
}

#[test]
fn method_rejects_near_misses() {
    assert_parse_error("HTTP parsing error: Invalid method", Method::from("get"));
    assert_parse_error("HTTP parsing error: Invalid method", Method::from("GET "));
    assert_parse_error("HTTP parsing error: Invalid method", Method::from("GETS"));
    assert_parse_error("HTTP parsing error: Invalid method", Method::from("GE"));
    assert_parse_error("HTTP parsing error: Invalid method", Method::from("PROPFIND"));
}

#[test]
fn method_as_str_is_the_wire_name() {
    assert_eq!("OPTIONS", Method::OPTIONS.as_str());
    assert_eq!("PATCH", Method::PATCH.as_str());
}
