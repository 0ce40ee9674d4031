use minihttp::error::HttpError;
use minihttp::numerals::{parse_u64, u64_to_string};
use minihttp::render::{render_error, render_head, render_response, Response};

fn header(k: &str, v: &str) -> (String, String) {
    (k.to_string(), v.to_string())
}

#[test]
fn head_has_status_line_headers_and_blank_line() {
    let hs = vec![header("Content-Type", "text/plain"), header("Content-Length", "3")];
    assert_eq!(
        render_head(200, &hs),
        "HTTP/1.1 200\r\nContent-Type: text/plain\r\nContent-Length: 3\r\n\r\n"
    );
}

#[test]
fn head_without_headers_is_status_line_and_blank_line() {
    assert_eq!(render_head(201, &vec![]), "HTTP/1.1 201\r\n\r\n");
}

#[test]
fn headers_keep_caller_order_and_duplicates() {
    let hs = vec![header("B", "2"), header("A", "1"), header("A", "1")];
    assert_eq!(render_head(200, &hs), "HTTP/1.1 200\r\nB: 2\r\nA: 1\r\nA: 1\r\n\r\n");
}

#[test]
fn response_appends_inline_body() {
    let resp = Response {
        status: 200,
        headers: vec![header("Content-Type", "text/plain"), header("Content-Length", "3")],
        body: "abc".to_string(),
    };
    assert_eq!(
        render_response(&resp),
        "HTTP/1.1 200\r\nContent-Type: text/plain\r\nContent-Length: 3\r\n\r\nabc"
    );
}

#[test]
fn error_response_is_status_line_and_message() {
    let e = HttpError::bad_request("xyz");
    assert_eq!(render_error(&e), "HTTP/1.1 400\r\n\r\nBad request: xyz");
    let e = HttpError::not_found();
    assert_eq!(render_error(&e), "HTTP/1.1 404\r\n\r\nNot found");
    let e = HttpError::method_not_allowed("DELETE");
    assert_eq!(render_error(&e), "HTTP/1.1 405\r\n\r\nMethod DELETE not allowed");
    let e = HttpError::internal("reading file metadata");
    assert_eq!(render_error(&e), "HTTP/1.1 500\r\n\r\nreading file metadata");
}

#[test]
fn numbers_render_in_decimal() {
    assert_eq!(u64_to_string(0), "0");
    assert_eq!(u64_to_string(7), "7");
    assert_eq!(u64_to_string(12345), "12345");
    assert_eq!(u64_to_string(u64::MAX), "18446744073709551615");
}

#[test]
fn numerals_parse_like_std() {
    assert_eq!(parse_u64("0"), Some(0));
    assert_eq!(parse_u64("123"), Some(123));
    assert_eq!(parse_u64("007"), Some(7));
    assert_eq!(parse_u64("+7"), Some(7));
    assert_eq!(parse_u64("18446744073709551615"), Some(u64::MAX));
    assert_eq!(parse_u64("18446744073709551616"), None);
    assert_eq!(parse_u64(""), None);
    assert_eq!(parse_u64("+"), None);
    assert_eq!(parse_u64("12a"), None);
    assert_eq!(parse_u64("-1"), None);
    assert_eq!(parse_u64(" 5"), None);
}

#[test]
fn rendered_lengths_read_back() {
    for n in [0u64, 1, 9, 10, 4221, u64::MAX] {
        assert_eq!(parse_u64(&u64_to_string(n)), Some(n));
    }
}
