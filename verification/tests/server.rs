use http_message::{Method, Request};

fn parse(request: &'static str) -> Request {
    Request::parse(request).unwrap()
}

#[test]
fn full_parse() {
    let request = parse(
        "GET / HTTP/1.1\r\n\
        Host: www.foo.bar\r\n\
        User-Agent: Mozilla/5.0 (X11; Ubuntu; Linux x86_64; rv:60.0) Gecko/20100101 Firefox/60.0\r\n\
        Accept: text/html,application/xhtml+xml,application/xml;q=0.9,*/*;q=0.8\r\n\
        Accept-Language: en-GB,en;q=0.5\r\n\
        Accept-Encoding: gzip, deflate\r\n\
        Connection: keep-alive\r\n\
        Upgrade-Insecure-Requests: 1\r\n\
        Cache-Control: max-age=0\r\n\
        \r\n",
    );
    assert_eq!(Method::GET, *request.method());
    assert_eq!("/", request.target());
    assert_eq!(1, request.version().major());
    assert_eq!(1, request.version().minor());
}

#[test]
fn full_parse_keeps_every_field() {
    let request = parse(
        "GET / HTTP/1.1\r\n\
        Host: www.foo.bar\r\n\
        Accept: text/html,application/xhtml+xml,application/xml;q=0.9,*/*;q=0.8\r\n\
        Cache-Control: max-age=0\r\n\
        \r\n",
    );
    assert_eq!(3, request.fields().len());
    assert_eq!("Host", request.fields()[0].name());
    assert_eq!("www.foo.bar", request.fields()[0].value());
    assert_eq!("Accept", request.fields()[1].name());
    assert_eq!(
        "text/html,application/xhtml+xml,application/xml;q=0.9,*/*;q=0.8",
        request.fields()[1].value()
    );
    assert_eq!("Cache-Control", request.fields()[2].name());
    assert_eq!("max-age=0", request.fields()[2].value());
}
