//! The router and connection supervisor logic: map method, path and
//! headers to a plan — an immediate reply, a file read, a file write, or
//! a typed rejection — and turn file-system outcomes into replies. The
//! whole decision is pinned by the spec function [`route_model`], and the
//! end-to-end pipeline (parse, then route) by [`plan_model`].

use vstd::prelude::*;
use vstd::string::StrSliceExecFns;
use vstd::string::StringExecFns;
use vstd::utf8::encode_utf8;

use crate::error::bad_request_msg;
use crate::error::HttpError;
use crate::numerals::dec_digits_of;
use crate::numerals::dec_value;
use crate::numerals::is_u64_numeral;
use crate::numerals::numeral_body;
use crate::numerals::parse_u64;
use crate::numerals::u64_to_string;
use crate::parse::header_lookup;
use crate::parse::headers_model;
use crate::parse::lookup_spec;
use crate::parse::parse_headers;
use crate::parse::parse_request_line;
use crate::parse::request_line_model;
use crate::parse::RequestLineShape;
use crate::render::head_chars;
use crate::render::header_views;
use crate::render::render_head;
use crate::render::Response;
use crate::text::has_prefix;
use crate::text::starts_with_str;
use crate::text::str_eq;

verus! {

/// What the connection must do next: write a finished reply, stream a
/// file out, or receive a body of a known length into a file.
pub enum RouteAction {
    Reply(Response),
    ReadFile(String),
    WriteFile(String, u64),
}

/// The spec-level picture of a routing outcome.
pub enum Plan {
    Reply { status: nat, headers: Seq<(Seq<char>, Seq<char>)>, body: Seq<char> },
    ReadFile { name: Seq<char> },
    WriteFile { name: Seq<char>, len: u64 },
    Reject { status: nat, message: Seq<char> },
}

/// The routing result `r` realizes exactly the plan `p`.
pub open spec fn action_matches(r: Result<RouteAction, HttpError>, p: Plan) -> bool {
    match p {
        Plan::Reply { status, headers, body } => r matches Ok(RouteAction::Reply(resp))
            && resp.status as nat == status && header_views(resp.headers@) == headers
            && resp.body@ == body,
        Plan::ReadFile { name } => r matches Ok(RouteAction::ReadFile(n)) && n@ == name,
        Plan::WriteFile { name, len } => r matches Ok(RouteAction::WriteFile(n, l)) && n@ == name
            && l == len,
        Plan::Reject { status, message } => r matches Err(e) && e.status_code as nat == status
            && e.message@ == message,
    }
}

/// The headers of a `text/plain` reply: content type, then the byte
/// length of the body as `Content-Length`.
pub open spec fn text_headers(body: Seq<char>) -> Seq<(Seq<char>, Seq<char>)> {
    seq![
        ("Content-Type"@, "text/plain"@),
        ("Content-Length"@, dec_digits_of(encode_utf8(body).len())),
    ]
}

/// The headers of a streamed file reply of `len` bytes.
pub open spec fn octet_headers(len: u64) -> Seq<(Seq<char>, Seq<char>)> {
    seq![
        ("Content-Type"@, "application/octet-stream"@),
        ("Content-Length"@, dec_digits_of(len as nat)),
    ]
}

/// The routing table, first match wins: `/`, `/echo/<rest>`,
/// `/user-agent`, `/files/<name>` by verb, then 404.
pub open spec fn route_model(
    method: Seq<char>,
    path: Seq<char>,
    hs: Seq<(Seq<char>, Seq<char>)>,
) -> Plan {
    if path == "/"@ {
        Plan::Reply { status: 200, headers: Seq::empty(), body: Seq::empty() }
    } else if has_prefix(path, "/echo/"@) {
        let rest = path.subrange("/echo/"@.len() as int, path.len() as int);
        Plan::Reply { status: 200, headers: text_headers(rest), body: rest }
    } else if path == "/user-agent"@ {
        match lookup_spec(hs, "User-Agent"@) {
            Some(v) => Plan::Reply { status: 200, headers: text_headers(v), body: v },
            None => Plan::Reject {
                status: 400,
                message: bad_request_msg("no user agent header in request"@),
            },
        }
    } else if has_prefix(path, "/files/"@) {
        let name = path.subrange("/files/"@.len() as int, path.len() as int);
        if method == "GET"@ {
            Plan::ReadFile { name }
        } else if method == "POST"@ {
            match lookup_spec(hs, "Content-Length"@) {
                Some(v) => if is_u64_numeral(v) {
                    Plan::WriteFile { name, len: dec_value(numeral_body(v)) as u64 }
                } else {
                    Plan::Reject {
                        status: 400,
                        message: bad_request_msg("No valid Content-Length was provided"@),
                    }
                },
                None => Plan::Reject {
                    status: 400,
                    message: bad_request_msg("No valid Content-Length was provided"@),
                },
            }
        } else {
            Plan::Reject { status: 405, message: "Method "@ + method + " not allowed"@ }
        }
    } else {
        Plan::Reject { status: 404, message: "Not found"@ }
    }
}

/// The plan for a whole request: parse the request line and the header
/// block, then route; parse failures become 400 rejections.
pub open spec fn plan_model(line: Seq<char>, header_lines: Seq<Seq<char>>) -> Plan {
    match request_line_model(line) {
        RequestLineShape::NoPath => Plan::Reject {
            status: 400,
            message: bad_request_msg("no path found in header"@),
        },
        RequestLineShape::NoVersion => Plan::Reject {
            status: 400,
            message: bad_request_msg("no standard found in header"@),
        },
        RequestLineShape::Parsed { method, path, version } => match headers_model(header_lines) {
            None => Plan::Reject {
                status: 400,
                message: bad_request_msg("invalid header format"@),
            },
            Some(hs) => route_model(method, path, hs),
        },
    }
}

/// Build the header pair list of a `text/plain` reply for `body`.
fn text_header_vec(body: &str) -> (hs: Vec<(String, String)>)
    ensures
        header_views(hs@) == text_headers(body@),
{
    let byte_len = body.as_bytes().len();
    let cl = u64_to_string(byte_len as u64);
    let mut hs: Vec<(String, String)> = Vec::new();
    hs.push((String::from_str("Content-Type"), String::from_str("text/plain")));
    hs.push((String::from_str("Content-Length"), cl));
    proof {
        assert(header_views(hs@) =~= text_headers(body@));
    }
    hs
}

/// Select the one behavior for a request, or reject it.
pub fn route(method: &str, path: &str, headers: &Vec<(String, String)>) -> (r: Result<
    RouteAction,
    HttpError,
>)
    ensures
        action_matches(r, route_model(method@, path@, header_views(headers@))),
{
    if str_eq(path, "/") {
        let resp = Response { status: 200, headers: Vec::new(), body: String::new() };
        proof {
            assert(header_views(resp.headers@) =~= Seq::<(Seq<char>, Seq<char>)>::empty());
        }
        Ok(RouteAction::Reply(resp))
    } else if starts_with_str(path, "/echo/") {
        proof {
            reveal_strlit("/echo/");
        }
        let n = path.unicode_len();
        let rest = path.substring_char(6, n);
        let hs = text_header_vec(rest);
        Ok(RouteAction::Reply(Response { status: 200, headers: hs, body: rest.to_owned() }))
    } else if str_eq(path, "/user-agent") {
        match header_lookup(headers, "User-Agent") {
            Some(v) => {
                let hs = text_header_vec(v.as_str());
                Ok(
                    RouteAction::Reply(
                        Response { status: 200, headers: hs, body: v.as_str().to_owned() },
                    ),
                )
            },
            None => Err(HttpError::bad_request("no user agent header in request")),
        }
    } else if starts_with_str(path, "/files/") {
        proof {
            reveal_strlit("/files/");
        }
        let n = path.unicode_len();
        let name = path.substring_char(7, n);
        if str_eq(method, "GET") {
            Ok(RouteAction::ReadFile(name.to_owned()))
        } else if str_eq(method, "POST") {
            match header_lookup(headers, "Content-Length") {
                Some(v) => match parse_u64(v.as_str()) {
                    Some(len) => Ok(RouteAction::WriteFile(name.to_owned(), len)),
                    None => Err(HttpError::bad_request("No valid Content-Length was provided")),
                },
                None => Err(HttpError::bad_request("No valid Content-Length was provided")),
            }
        } else {
            Err(HttpError::method_not_allowed(method))
        }
    } else {
        Err(HttpError::not_found())
    }
}

/// Parse the request line and header block, then route: the verified
/// core of serving one connection. The caller reads the lines, carries
/// out the action, and writes the reply.
pub fn handle_lines(request_line: &str, header_lines: &Vec<String>) -> (r: Result<
    RouteAction,
    HttpError,
>)
    ensures
        action_matches(r, plan_model(request_line@, header_lines.deep_view())),
{
    let parsed = match parse_request_line(request_line) {
        Ok(parsed) => parsed,
        Err(e) => {
            return Err(e);
        },
    };
    let headers = match parse_headers(header_lines) {
        Ok(headers) => headers,
        Err(e) => {
            return Err(e);
        },
    };
    route(parsed.method.as_str(), parsed.path.as_str(), &headers)
}

/// What the file system said to a GET of a file.
pub enum FileReadEvent {
    /// The file opened and its metadata gave this byte length.
    Found(u64),
    /// The file could not be opened.
    OpenFailed,
    /// The file opened but its metadata could not be read.
    MetadataFailed,
}

/// What the file system said to a POST upload.
pub enum FileWriteEvent {
    /// The body was copied into the newly created file.
    Stored,
    /// The file could not be created.
    CreateFailed,
    /// Copying the body into the file failed.
    CopyFailed,
}

/// The reply owed for each outcome of a file GET: on success the head of
/// a streamed reply (the caller copies the file bytes after it), a 404
/// when the file would not open, a 500 when its metadata failed.
pub fn file_get_reply(event: &FileReadEvent) -> (r: Result<String, HttpError>)
    ensures
        event matches FileReadEvent::Found(len) ==> (r matches Ok(head) && head@ == head_chars(
            200,
            octet_headers(*len),
        )),
        event is OpenFailed ==> (r matches Err(e) && e.status_code == 404 && e.message@
            == "Not found"@),
        event is MetadataFailed ==> (r matches Err(e) && e.status_code == 500 && e.message@
            == "reading file metadata"@),
{
    match event {
        FileReadEvent::Found(len) => {
            let cl = u64_to_string(*len);
            let mut hs: Vec<(String, String)> = Vec::new();
            hs.push(
                (String::from_str("Content-Type"), String::from_str("application/octet-stream")),
            );
            hs.push((String::from_str("Content-Length"), cl));
            proof {
                assert(header_views(hs@) =~= octet_headers(*len));
            }
            Ok(render_head(200, &hs))
        },
        FileReadEvent::OpenFailed => Err(HttpError::not_found()),
        FileReadEvent::MetadataFailed => Err(HttpError::internal("reading file metadata")),
    }
}

/// The reply owed for each outcome of a file POST: a bare 201 head on
/// success, a 500 naming the failed step otherwise.
pub fn file_post_reply(event: &FileWriteEvent) -> (r: Result<String, HttpError>)
    ensures
        event is Stored ==> (r matches Ok(head) && head@ == head_chars(201, Seq::empty())),
        event is CreateFailed ==> (r matches Err(e) && e.status_code == 500 && e.message@
            == "opening file for write"@),
        event is CopyFailed ==> (r matches Err(e) && e.status_code == 500 && e.message@
            == "writing contents to file"@),
{
    match event {
        FileWriteEvent::Stored => {
            let hs: Vec<(String, String)> = Vec::new();
            proof {
                assert(header_views(hs@) =~= Seq::<(Seq<char>, Seq<char>)>::empty());
            }
            Ok(render_head(201, &hs))
        },
        FileWriteEvent::CreateFailed => Err(HttpError::internal("opening file for write")),
        FileWriteEvent::CopyFailed => Err(HttpError::internal("writing contents to file")),
    }
}

} // verus!
