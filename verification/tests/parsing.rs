//! The request accumulator and the text helpers, exercised on concrete
//! values.
use mockserver::eq_ignore_ascii_case;
use mockserver::parse_usize;
use mockserver::str_eq;
use mockserver::Request;

#[test]
fn str_eq_decides_exact_equality() {
    assert!(str_eq("GET", "GET"));
    assert!(!str_eq("GET", "PUT"));
    assert!(!str_eq("GET", "GETX"));
    assert!(str_eq("", ""));
}

#[test]
fn case_insensitive_equality_ignores_ascii_case_only() {
    assert!(eq_ignore_ascii_case("X-Mock-Id", "x-mock-id"));
    assert!(eq_ignore_ascii_case("x-MOCK-id", "X-mock-ID"));
    assert!(!eq_ignore_ascii_case("x-mock-id", "x-mock-1d"));
    assert!(!eq_ignore_ascii_case("x-mock-id", "x-mock-id-2"));
}

#[test]
fn parse_usize_reads_decimal_numerals() {
    assert_eq!(parse_usize("0"), Some(0));
    assert_eq!(parse_usize("42"), Some(42));
    assert_eq!(parse_usize("007"), Some(7));
    assert_eq!(parse_usize(""), None);
    assert_eq!(parse_usize("12a"), None);
    assert_eq!(parse_usize("-3"), None);
    assert_eq!(parse_usize("99999999999999999999999999"), None);
}

#[test]
fn url_event_sets_the_path() {
    let mut req = Request::default();
    req.on_url(b"/hello");
    assert_eq!(req.path_str(), "/hello");
}

#[test]
fn lossy_decoding_replaces_invalid_utf8() {
    let mut req = Request::default();
    req.on_url(&[0xff, 0x2f, 0x61]);
    assert_eq!(req.path_str(), "\u{FFFD}/a");
}

#[test]
fn header_events_build_the_mapping() {
    let mut req = Request::default();
    req.on_header_field(b"Content-Length");
    req.on_header_value(b"42");
    assert_eq!(req.headers().len(), 1);
    assert_eq!(req.headers().get("Content-Length"), Some(String::from("42")));
    assert_eq!(req.content_length(), 42);
}

#[test]
fn later_header_value_wins_for_the_same_name() {
    let mut req = Request::default();
    req.on_header_field(b"Content-Length");
    req.on_header_value(b"1");
    req.on_header_field(b"Content-Length");
    req.on_header_value(b"2");
    assert_eq!(req.headers().len(), 1);
    assert_eq!(req.headers().get("Content-Length"), Some(String::from("2")));
}

#[test]
fn header_value_without_pending_name_is_discarded() {
    let mut req = Request::default();
    req.on_header_value(b"stray");
    assert_eq!(req.headers().len(), 0);
}

#[test]
fn newer_header_field_overwrites_pending_name() {
    let mut req = Request::default();
    req.on_header_field(b"X-First");
    req.on_header_field(b"X-Second");
    req.on_header_value(b"v");
    assert_eq!(req.headers().len(), 1);
    assert_eq!(req.headers().get("X-First"), None);
    assert_eq!(req.headers().get("X-Second"), Some(String::from("v")));
}

#[test]
fn header_lookup_is_case_sensitive_for_content_length() {
    let mut req = Request::default();
    req.on_header_field(b"content-length");
    req.on_header_value(b"42");
    assert_eq!(req.content_length(), 0);
}

#[test]
fn content_length_defaults_to_zero() {
    let req = Request::default();
    assert_eq!(req.content_length(), 0);
    let mut req = Request::default();
    req.on_header_field(b"Content-Length");
    req.on_header_value(b"abc");
    assert_eq!(req.content_length(), 0);
}

#[test]
fn body_event_sets_the_body_and_later_body_wins() {
    let mut req = Request::default();
    req.on_body(b"first");
    req.on_body(b"second");
    assert_eq!(req.body_str(), "second");
}

#[test]
fn parse_lifecycle_flags() {
    let mut req = Request::default();
    assert!(!req.is_parsed());
    assert!(!req.has_error());
    req.on_message_begin();
    req.on_headers_complete();
    req.on_chunk_header();
    req.on_message_complete();
    assert!(req.is_parsed());
    req.finish_parsed(String::from("GET"), (1, 1));
    assert_eq!(req.method_str(), "GET");
    assert!(!req.has_error());
}

#[test]
fn engine_error_is_recorded() {
    let mut req = Request::default();
    req.finish_error(String::from("invalid constant string"));
    assert!(req.has_error());
    assert!(!req.is_parsed());
}
