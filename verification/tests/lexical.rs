use concerto::common::{boolean_parser, token, token_parser};
use concerto::datetime::datetime_value;
use concerto::error::CErrorKind;
use concerto::numeric::{decimal_value, double_value, integer_value, long_value};
use concerto::strings::{regex_value, string_value, unicode_char};

fn chars(s: &str) -> Vec<char> {
    s.chars().collect()
}

fn rest(v: &[char], np: usize) -> String {
    v[np..].iter().collect()
}

#[test]
fn mod_test_token() {
    let v = chars("a123");
    assert_eq!(token(&v, 0), Ok((4, String::from("a123"))), "Should parse token starting with a letter");
    let v = chars("foo");
    assert_eq!(token(&v, 0), Ok((3, String::from("foo"))), "Should parse token with just letters");
    let v = chars("1foo");
    assert!(token(&v, 0).is_err(), "Should not parse token starting with number");
}

#[test]
fn common_test_token() {
    let v = chars("a123");
    assert_eq!(token_parser(&v, 0), Ok((4, String::from("a123"))), "Should parse token starting with a letter");
    let v = chars("foo");
    assert_eq!(token_parser(&v, 0), Ok((3, String::from("foo"))), "Should parse token with just letters");
    let v = chars("1foo");
    assert!(token_parser(&v, 0).is_err(), "Should not parse token starting with number");
}

#[test]
fn test_boolean() {
    let v = chars("true");
    assert_eq!(boolean_parser(&v, 0), Ok((4, true)), "Should parse `true` value");
    let v = chars("false");
    assert_eq!(boolean_parser(&v, 0), Ok((5, false)), "Should parse `false` value");
    let v = chars("unknown");
    assert!(boolean_parser(&v, 0).is_err(), "Should not parse values other than true or false");
}

#[test]
fn test_decimal() {
    let v = chars("-345763874568374568");
    assert_eq!(decimal_value(&v, 0), Ok((v.len(), String::from("-345763874568374568"))), "Should parse negative decimal");
    let v = chars("+345763874568374568");
    assert_eq!(decimal_value(&v, 0), Ok((v.len(), String::from("+345763874568374568"))), "Should parse explicitly positive decimal");
    let v = chars("345763874568374568");
    assert_eq!(decimal_value(&v, 0), Ok((v.len(), String::from("345763874568374568"))), "Should parse positive decimal");
}

#[test]
fn test_integer() {
    let v = chars("-147483647");
    assert_eq!(integer_value(&v, 0), Ok((v.len(), -147483647)), "Should parse negative integer");
    let v = chars("147483647");
    assert_eq!(integer_value(&v, 0), Ok((v.len(), 147483647)), "Should parse positive integer");
    let v = chars("+147483647");
    assert_eq!(integer_value(&v, 0), Ok((v.len(), 147483647)), "Should parse explicitly positive integer");
    let v = chars("-3147483647");
    assert!(integer_value(&v, 0).is_err(), "Should not parse negative long");
    let v = chars("3147483647");
    assert!(integer_value(&v, 0).is_err(), "Should not parse positive long");
    let v = chars("+3147483647");
    assert!(integer_value(&v, 0).is_err(), "Should not parse explicitly positive long");
}

#[test]
fn test_long() {
    let v = chars("-3147483647");
    assert_eq!(long_value(&v, 0), Ok((v.len(), -3147483647i64)), "Should parse negative long");
    let v = chars("3147483647");
    assert_eq!(long_value(&v, 0), Ok((v.len(), 3147483647i64)), "Should parse positive long");
    let v = chars("+3147483647");
    assert_eq!(long_value(&v, 0), Ok((v.len(), 3147483647i64)), "Should parse explicitly positive long");
}

fn double_of(text: &str) -> f64 {
    let v = chars(text);
    let (np, lit) = double_value(&v, 0).expect("should parse a double literal");
    assert_eq!(np, v.len(), "should consume the whole literal");
    lit.parse::<f64>().expect("matched text is a valid float literal")
}

#[test]
fn test_double_value() {
    assert_eq!(double_of(".42"), 0.42, "Should parse .42");
    assert_eq!(double_of(".42e43"), 0.42e43, "Should parse .42e43");
    assert_eq!(double_of(".42E43"), 0.42E43, "Should parse .42E43");
    assert_eq!(double_of(".42e-43"), 0.42e-43, "Should parse .42e-43");
    assert_eq!(double_of("42.42"), 42.42, "Should parse 42.42");
    assert_eq!(double_of("42.42e43"), 42.42e43, "Should parse 42.42e43");
    assert_eq!(double_of("42.42E43"), 42.42E43, "Should parse 42.42E43");
    assert_eq!(double_of("42.42e-43"), 42.42e-43, "Should parse 42.42e-43");
    assert_eq!(double_of("inf"), f64::INFINITY, "Should parse inf");
    assert_eq!(double_of("-infIniTY"), f64::NEG_INFINITY, "Should parse inf");
    assert_eq!(double_of("Infinity"), f64::INFINITY, "Should parse Infinity");
}

#[test]
fn test_datetime_value() {
    for text in [
        "2024-01-04",
        "2024-01-04T00:12:42Z",
        "2024-01-04T00:12:42-01:00",
        "2024-01-04T00:12:42+04:30",
        "2024-01-04T12:13:14.1Z",
        "2024-01-04T12:13:14.12Z",
        "2024-01-04T12:13:14.123Z",
        "2024-01-04T01:02:03.4+04:00",
        "2024-01-04T01:02:03.4-05:15",
        "2024-01-04T01:02:03.45+04:00",
        "2024-01-04T01:02:03.45-05:15",
        "2024-01-04T01:02:03.456+04:00",
        "2024-01-04T01:02:03.456-05:15",
    ] {
        let v = chars(text);
        assert_eq!(datetime_value(&v, 0), Ok((v.len(), String::from(text))), "Parses {}", text);
    }
}

#[test]
fn test_datetime_lexical_only_bounds() {
    // calendar fields are bounded only at the character level: month 19 passes
    let v = chars("2024-19-04");
    assert_eq!(datetime_value(&v, 0), Ok((v.len(), String::from("2024-19-04"))));
    // but month 29 does not
    let v = chars("2024-29-04");
    assert!(datetime_value(&v, 0).is_err());
}

#[test]
fn test_regex() {
    let v = chars("/abc.*/");
    assert_eq!(regex_value(&v, 0), Ok((v.len(), String::from("abc.*"))), "Should parse a regex");
    let v = chars("/abc.*\\//");
    assert_eq!(regex_value(&v, 0), Ok((v.len(), String::from("abc.*/"))), "Should parse a regex with escape");
}

#[test]
fn test_simple_string() {
    let v = chars("\"a simple string\"");
    assert_eq!(string_value(&v, 0), Ok((v.len(), String::from("a simple string"))), "Should parse a string with double quotes");
    let v = chars("'a simple string'");
    assert_eq!(string_value(&v, 0), Ok((v.len(), String::from("a simple string"))), "Should parse a string with single quotes");
}

#[test]
fn test_string_with_escaped() {
    let v = chars("\"an escaped \\\" and \\t and ' \\' string\"");
    assert_eq!(
        string_value(&v, 0),
        Ok((v.len(), String::from("an escaped \" and \t and ' ' string"))),
        "Should parse an escaped string with double quotes, espacing single quote optional"
    );
    let v = chars("'an escaped \" \\\" and \\t and \\' string'");
    assert_eq!(
        string_value(&v, 0),
        Ok((v.len(), String::from("an escaped \" \" and \t and ' string"))),
        "Should parse an escaped string with single quotes, espacing double quote optional"
    );
}

#[test]
fn test_nom_example() {
    let v = chars(
        "\"tab:\\tafter tab, newline:\\nnew line, quote: \\\", emoji: \\u{1F602}, newline:\\nescaped whitespace: \\    abc\"",
    );
    assert_eq!(
        string_value(&v, 0),
        Ok((v.len(), String::from("tab:\tafter tab, newline:\nnew line, quote: \", emoji: \u{1F602}, newline:\nescaped whitespace: abc"))),
        "Should parse nom example with double quotes"
    );
    let v = chars(
        "'tab:\\tafter tab, newline:\\nnew line, quote: \\\", emoji: \\u{1F602}, newline:\\nescaped whitespace: \\    abc'",
    );
    assert_eq!(
        string_value(&v, 0),
        Ok((v.len(), String::from("tab:\tafter tab, newline:\nnew line, quote: \", emoji: \u{1F602}, newline:\nescaped whitespace: abc"))),
        "Should parse nom example with single quotes"
    );
}

#[test]
fn test_unicode_escape_rejects_non_scalar() {
    // a surrogate code point is not a Unicode scalar value
    let v = chars("u{D800}");
    let r = unicode_char(&v, 0);
    assert!(r.is_err());
    assert_eq!(r.unwrap_err().kind, CErrorKind::MalformedEscape);
    // an out-of-range code point is rejected too
    let v = chars("u{110000}");
    assert!(unicode_char(&v, 0).is_err());
    // a valid code point comes back as its character
    let v = chars("u{1F602}");
    assert_eq!(unicode_char(&v, 0), Ok((v.len(), '\u{1F602}')));
}

#[test]
fn test_unclosed_string_fails() {
    let v = chars("\"no closing quote");
    assert!(string_value(&v, 0).is_err());
}

#[test]
fn test_integer_overflow_reports_conversion_error() {
    let v = chars("99999999999999999999");
    let r = integer_value(&v, 0);
    assert_eq!(r.unwrap_err().kind, CErrorKind::NumericConversion);
}

#[test]
fn test_double_value_leaves_rest() {
    let v = chars("42.5e-3 tail");
    let (np, lit) = double_value(&v, 0).unwrap();
    assert_eq!(lit, "42.5e-3");
    assert_eq!(rest(&v, np), " tail");
}
