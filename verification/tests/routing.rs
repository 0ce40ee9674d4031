use minihttp::error::HttpError;
use minihttp::render::render_response;
use minihttp::route::{
    file_get_reply, file_post_reply, handle_lines, route, FileReadEvent, FileWriteEvent,
    RouteAction,
};

fn header(k: &str, v: &str) -> (String, String) {
    (k.to_string(), v.to_string())
}

fn expect_reply(r: Result<RouteAction, HttpError>) -> minihttp::render::Response {
    match r {
        Ok(RouteAction::Reply(resp)) => resp,
        _ => panic!("expected an immediate reply"),
    }
}

fn expect_err(r: Result<RouteAction, HttpError>) -> HttpError {
    match r {
        Err(e) => e,
        _ => panic!("expected a rejection"),
    }
}

#[test]
fn echo_returns_body_and_length() {
    let resp = expect_reply(route("GET", "/echo/abc", &vec![]));
    assert_eq!(resp.status, 200);
    assert_eq!(
        resp.headers,
        vec![header("Content-Type", "text/plain"), header("Content-Length", "3")]
    );
    assert_eq!(resp.body, "abc");
}

#[test]
fn echo_empty_suffix() {
    let resp = expect_reply(route("GET", "/echo/", &vec![]));
    assert_eq!(resp.status, 200);
    assert_eq!(resp.headers[1], header("Content-Length", "0"));
    assert_eq!(resp.body, "");
}

#[test]
fn echo_keeps_further_slashes() {
    let resp = expect_reply(route("GET", "/echo/a/b", &vec![]));
    assert_eq!(resp.body, "a/b");
    assert_eq!(resp.headers[1], header("Content-Length", "3"));
}

#[test]
fn echo_content_length_counts_bytes() {
    // five characters, six bytes
    let resp = expect_reply(route("GET", "/echo/h\u{e9}llo", &vec![]));
    assert_eq!(resp.body, "h\u{e9}llo");
    assert_eq!(resp.headers[1], header("Content-Length", "6"));
}

#[test]
fn root_is_empty_200_whatever_headers_come() {
    let resp = expect_reply(route("GET", "/", &vec![]));
    assert_eq!(resp.status, 200);
    assert!(resp.headers.is_empty());
    assert_eq!(resp.body, "");

    let hs = vec![header("User-Agent", "x"), header("Accept", "*/*")];
    let resp = expect_reply(route("POST", "/", &hs));
    assert_eq!(resp.status, 200);
    assert_eq!(resp.body, "");
}

#[test]
fn user_agent_reflected() {
    let hs = vec![header("Host", "h"), header("User-Agent", "foo")];
    let resp = expect_reply(route("GET", "/user-agent", &hs));
    assert_eq!(resp.status, 200);
    assert_eq!(
        resp.headers,
        vec![header("Content-Type", "text/plain"), header("Content-Length", "3")]
    );
    assert_eq!(resp.body, "foo");
}

#[test]
fn user_agent_missing_is_400() {
    let e = expect_err(route("GET", "/user-agent", &vec![header("Host", "h")]));
    assert_eq!(e.status_code, 400);
    assert_eq!(e.message, "Bad request: no user agent header in request");
}

#[test]
fn user_agent_lookup_is_case_sensitive() {
    let e = expect_err(route("GET", "/user-agent", &vec![header("user-agent", "foo")]));
    assert_eq!(e.status_code, 400);
}

#[test]
fn user_agent_duplicate_header_last_wins() {
    let hs = vec![header("User-Agent", "first"), header("User-Agent", "second")];
    let resp = expect_reply(route("GET", "/user-agent", &hs));
    assert_eq!(resp.body, "second");
}

#[test]
fn files_get_becomes_read_action() {
    match route("GET", "/files/report.txt", &vec![]) {
        Ok(RouteAction::ReadFile(name)) => assert_eq!(name, "report.txt"),
        _ => panic!("expected a file read"),
    }
}

#[test]
fn files_post_becomes_write_action() {
    let hs = vec![header("Content-Length", "5")];
    match route("POST", "/files/report.txt", &hs) {
        Ok(RouteAction::WriteFile(name, len)) => {
            assert_eq!(name, "report.txt");
            assert_eq!(len, 5);
        },
        _ => panic!("expected a file write"),
    }
}

#[test]
fn files_post_accepts_plus_signed_length() {
    let hs = vec![header("Content-Length", "+12")];
    match route("POST", "/files/x", &hs) {
        Ok(RouteAction::WriteFile(_, len)) => assert_eq!(len, 12),
        _ => panic!("expected a file write"),
    }
}

#[test]
fn files_post_missing_length_is_400() {
    let e = expect_err(route("POST", "/files/x", &vec![]));
    assert_eq!(e.status_code, 400);
    assert_eq!(e.message, "Bad request: No valid Content-Length was provided");
}

#[test]
fn files_post_non_numeric_length_is_400() {
    let e = expect_err(route("POST", "/files/x", &vec![header("Content-Length", "abc")]));
    assert_eq!(e.status_code, 400);
}

#[test]
fn files_post_overflowing_length_is_400() {
    let hs = vec![header("Content-Length", "18446744073709551616")];
    let e = expect_err(route("POST", "/files/x", &hs));
    assert_eq!(e.status_code, 400);
}

#[test]
fn files_delete_is_405() {
    let e = expect_err(route("DELETE", "/files/x", &vec![]));
    assert_eq!(e.status_code, 405);
    assert_eq!(e.message, "Method DELETE not allowed");
}

#[test]
fn unmatched_path_is_404() {
    let e = expect_err(route("GET", "/nonexistent", &vec![]));
    assert_eq!(e.status_code, 404);
    assert_eq!(e.message, "Not found");
}

#[test]
fn upload_then_download_round_trip() {
    // the library's half of the round trip: a POST of five bytes is
    // stored under the name, acknowledged 201, and a GET of the same
    // name serves a five-byte body under the same announced length
    let hs = vec![header("Content-Length", "5")];
    let (name, len) = match route("POST", "/files/report.txt", &hs) {
        Ok(RouteAction::WriteFile(name, len)) => (name, len),
        _ => panic!("expected a file write"),
    };
    assert_eq!((name.as_str(), len), ("report.txt", 5));
    let ack = file_post_reply(&FileWriteEvent::Stored).unwrap();
    assert_eq!(ack, "HTTP/1.1 201\r\n\r\n");

    match route("GET", "/files/report.txt", &vec![]) {
        Ok(RouteAction::ReadFile(got)) => assert_eq!(got, name),
        _ => panic!("expected a file read"),
    }
    let head = file_get_reply(&FileReadEvent::Found(len)).unwrap();
    assert_eq!(
        head,
        "HTTP/1.1 200\r\nContent-Type: application/octet-stream\r\nContent-Length: 5\r\n\r\n"
    );
}

#[test]
fn missing_file_is_404() {
    let e = file_get_reply(&FileReadEvent::OpenFailed).unwrap_err();
    assert_eq!(e.status_code, 404);
    assert_eq!(e.message, "Not found");
}

#[test]
fn metadata_failure_is_500() {
    let e = file_get_reply(&FileReadEvent::MetadataFailed).unwrap_err();
    assert_eq!(e.status_code, 500);
    assert_eq!(e.message, "reading file metadata");
}

#[test]
fn create_failure_is_500() {
    let e = file_post_reply(&FileWriteEvent::CreateFailed).unwrap_err();
    assert_eq!(e.status_code, 500);
    assert_eq!(e.message, "opening file for write");
}

#[test]
fn copy_failure_is_500() {
    let e = file_post_reply(&FileWriteEvent::CopyFailed).unwrap_err();
    assert_eq!(e.status_code, 500);
    assert_eq!(e.message, "writing contents to file");
}

#[test]
fn whole_pipeline_for_echo() {
    let lines = vec!["Host: localhost\r\n".to_string()];
    let resp = expect_reply(handle_lines("GET /echo/hey HTTP/1.1\r\n", &lines));
    assert_eq!(render_response(&resp), "HTTP/1.1 200\r\nContent-Type: text/plain\r\nContent-Length: 3\r\n\r\nhey");
}

#[test]
fn malformed_request_line_is_400() {
    let e = expect_err(handle_lines("GARBAGE\r\n", &vec![]));
    assert_eq!(e.status_code, 400);
    assert_eq!(e.message, "Bad request: no path found in header");

    let e = expect_err(handle_lines("GET /\r\n", &vec![]));
    assert_eq!(e.status_code, 400);
    assert_eq!(e.message, "Bad request: no standard found in header");
}

#[test]
fn malformed_header_line_is_400() {
    let lines = vec!["Host: h\r\n".to_string(), "no colon here\r\n".to_string()];
    let e = expect_err(handle_lines("GET / HTTP/1.1\r\n", &lines));
    assert_eq!(e.status_code, 400);
    assert_eq!(e.message, "Bad request: invalid header format");
}
