use http_message::text::{char_is_whitespace, decimal_string};
use http_message::{Field, ResponseStatus};

#[test]
fn whitespace_is_what_the_standard_library_calls_whitespace() {
    let mut code: u32 = 0;
    while code <= 0x10FFFF {
        if let Some(c) = char::from_u32(code) {
            assert_eq!(c.is_whitespace(), char_is_whitespace(c));
        }
        code += 1;
    }
}

#[test]
fn whitespace_samples() {
    for c in [' ', '\t', '\n', '\r', '\u{b}', '\u{c}', '\u{85}', '\u{a0}', '\u{2028}', '\u{3000}']
        .iter()
    {
        assert!(char_is_whitespace(*c));
    }
    for c in ['a', '0', ':', '\u{0}', '\u{8}', '\u{e}', '\u{1f}', '\u{200b}', '\u{feff}'].iter() {
        assert!(!char_is_whitespace(*c));
    }
}

#[test]
fn names_are_refused_for_exactly_the_whitespace_characters() {
    let mut code: u32 = 0;
    while code <= 0x3100 {
        if let Some(c) = char::from_u32(code) {
            if c != ':' {
                let line = format!("a{}b:v", c);
                assert_eq!(c.is_whitespace(), Field::from(line).is_err());
            }
        }
        code += 1;
    }
}

#[test]
fn values_are_trimmed_as_the_standard_library_trims() {
    let values = [
        "",
        " ",
        "a",
        " a",
        "a ",
        "  a  b  ",
        "\t\ta\r",
        "\u{a0}a\u{2003}",
        "\u{200b}a\u{200b}",
        " \u{3000} ",
        "a\u{85}",
    ];
    for value in values.iter() {
        let field = Field::from(format!("name:{}", value)).unwrap();
        assert_eq!(value.trim(), field.value());
    }
}

#[test]
fn decimal_string_is_the_usual_decimal() {
    assert_eq!("0", decimal_string(0));
    assert_eq!("7", decimal_string(7));
    assert_eq!("10", decimal_string(10));
    assert_eq!("99", decimal_string(99));
    assert_eq!("100", decimal_string(100));
    assert_eq!("1234567890", decimal_string(1234567890));
    assert_eq!(format!("{}", usize::MAX), decimal_string(usize::MAX));
    for n in 0..2000usize {
        assert_eq!(format!("{}", n), decimal_string(n));
    }
}

#[test]
fn status_numbers_are_read_as_the_standard_library_reads_them() {
    for n in 0..700u32 {
        for token in [format!("{}", n), format!("+{}", n), format!("0{}", n)].iter() {
            let expected = token.parse::<u16>().ok().and_then(http_message::StatusCode::from);
            let line = format!("HTTP/1.1 {} x", token);
            let actual = ResponseStatus::from(line).ok().map(|status| status.status);
            assert_eq!(expected, actual);
        }
    }
}
