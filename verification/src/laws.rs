//! The guarantees the routing table gives, stated once and for all
//! inputs, over the same spec models that the executable functions are
//! proved against.

use vstd::prelude::*;
use vstd::utf8::encode_utf8;

use crate::error::bad_request_msg;
use crate::numerals::dec_digits_of;
use crate::numerals::dec_value;
use crate::numerals::is_u64_numeral;
use crate::numerals::lemma_dec_digits_value;
use crate::numerals::numeral_body;
use crate::parse::lookup_spec;
use crate::parse::request_line_model;
use crate::parse::RequestLineShape;
use crate::route::octet_headers;
use crate::route::plan_model;
use crate::route::route_model;
use crate::route::text_headers;
use crate::route::Plan;
use crate::text::has_prefix;

verus! {

/// Echoing: for every method, header set and suffix `s`, a request for
/// `/echo/<s>` is answered 200 with body exactly `s` and a
/// `Content-Length` of the byte length of `s`.
pub proof fn law_echo(method: Seq<char>, s: Seq<char>, hs: Seq<(Seq<char>, Seq<char>)>)
    ensures
        route_model(method, "/echo/"@ + s, hs) == (Plan::Reply {
            status: 200 as nat,
            headers: text_headers(s),
            body: s,
        }),
        text_headers(s)[1] == ("Content-Length"@, dec_digits_of(encode_utf8(s).len())),
{
    let p = "/echo/"@ + s;
    reveal_strlit("/echo/");
    reveal_strlit("/");
    assert(p != "/"@);
    assert(p.subrange(0, 6) =~= "/echo/"@);
    assert(has_prefix(p, "/echo/"@));
    assert(p.subrange(6, p.len() as int) =~= s);
}

/// The root route: `/` is answered 200 with no headers and no body,
/// whatever the method and headers are.
pub proof fn law_root(method: Seq<char>, hs: Seq<(Seq<char>, Seq<char>)>)
    ensures
        route_model(method, "/"@, hs) == (Plan::Reply {
            status: 200 as nat,
            headers: Seq::<(Seq<char>, Seq<char>)>::empty(),
            body: Seq::<char>::empty(),
        }),
{
}

proof fn user_agent_path_is_distinct()
    ensures
        "/user-agent"@ != "/"@,
        !has_prefix("/user-agent"@, "/echo/"@),
{
    reveal_strlit("/user-agent");
    reveal_strlit("/");
    reveal_strlit("/echo/");
    assert("/user-agent"@.len() == 11);
    if has_prefix("/user-agent"@, "/echo/"@) {
        assert("/user-agent"@.subrange(0, 6)[1] == "/echo/"@[1]);
        assert(false);
    }
}

/// User-agent reflection, when the header is present: the reply is 200
/// with the header's value as body and its byte length as
/// `Content-Length`.
pub proof fn law_user_agent(method: Seq<char>, hs: Seq<(Seq<char>, Seq<char>)>, v: Seq<char>)
    requires
        lookup_spec(hs, "User-Agent"@) == Some(v),
    ensures
        route_model(method, "/user-agent"@, hs) == (Plan::Reply {
            status: 200 as nat,
            headers: text_headers(v),
            body: v,
        }),
{
    user_agent_path_is_distinct();
}

/// User-agent reflection, when the header is absent: the request is
/// rejected with 400.
pub proof fn law_user_agent_missing(method: Seq<char>, hs: Seq<(Seq<char>, Seq<char>)>)
    requires
        lookup_spec(hs, "User-Agent"@) is None,
    ensures
        route_model(method, "/user-agent"@, hs) == (Plan::Reject {
            status: 400 as nat,
            message: bad_request_msg("no user agent header in request"@),
        }),
{
    user_agent_path_is_distinct();
}

proof fn files_path_is_distinct(name: Seq<char>)
    ensures
        "/files/"@ + name != "/"@,
        !has_prefix("/files/"@ + name, "/echo/"@),
        "/files/"@ + name != "/user-agent"@,
        has_prefix("/files/"@ + name, "/files/"@),
        ("/files/"@ + name).subrange(
            "/files/"@.len() as int,
            ("/files/"@ + name).len() as int,
        ) == name,
{
    let p = "/files/"@ + name;
    reveal_strlit("/files/");
    reveal_strlit("/");
    reveal_strlit("/echo/");
    reveal_strlit("/user-agent");
    assert(p[1] == 'f');
    if has_prefix(p, "/echo/"@) {
        assert(p.subrange(0, 6)[1] == "/echo/"@[1]);
        assert(false);
    }
    if p == "/user-agent"@ {
        assert(p[1] == 'u');
        assert(false);
    }
    assert(p.subrange(0, 7) =~= "/files/"@);
    assert(p.subrange(7, p.len() as int) =~= name);
}

/// A recognized `/files/` resource with an unsupported verb is rejected
/// 405, naming the verb.
pub proof fn law_files_method_not_allowed(
    method: Seq<char>,
    name: Seq<char>,
    hs: Seq<(Seq<char>, Seq<char>)>,
)
    requires
        method != "GET"@,
        method != "POST"@,
    ensures
        route_model(method, "/files/"@ + name, hs) == (Plan::Reject {
            status: 405 as nat,
            message: "Method "@ + method + " not allowed"@,
        }),
{
    files_path_is_distinct(name);
}

/// A path outside the routing table is rejected 404, whatever the
/// method and headers are.
pub proof fn law_unmatched_path(
    method: Seq<char>,
    path: Seq<char>,
    hs: Seq<(Seq<char>, Seq<char>)>,
)
    requires
        path != "/"@,
        !has_prefix(path, "/echo/"@),
        path != "/user-agent"@,
        !has_prefix(path, "/files/"@),
    ensures
        route_model(method, path, hs) == (Plan::Reject {
            status: 404 as nat,
            message: "Not found"@,
        }),
{
}

/// A GET of `/files/<name>` becomes a file read of exactly `<name>`,
/// and a POST with a valid `Content-Length` a file write of exactly the
/// announced number of bytes.
pub proof fn law_files_routing(name: Seq<char>, hs: Seq<(Seq<char>, Seq<char>)>, v: Seq<char>)
    requires
        lookup_spec(hs, "Content-Length"@) == Some(v),
        is_u64_numeral(v),
    ensures
        route_model("GET"@, "/files/"@ + name, hs) == (Plan::ReadFile { name }),
        route_model("POST"@, "/files/"@ + name, hs) == (Plan::WriteFile {
            name,
            len: dec_value(numeral_body(v)) as u64,
        }),
{
    files_path_is_distinct(name);
    reveal_strlit("GET");
    reveal_strlit("POST");
    assert("GET"@.len() == 3);
    assert("POST"@.len() == 4);
    if "GET"@ == "POST"@ {
        assert(false);
    }
}

/// Upload and download announce the same count: serving a file of `len`
/// bytes advertises a `Content-Length` whose numeral reads back as
/// exactly `len`, so bytes stored by a POST of length `len` are served
/// again under the same length.
pub proof fn law_file_length_round_trip(len: u64)
    ensures
        octet_headers(len)[1] == ("Content-Length"@, dec_digits_of(len as nat)),
        dec_value(dec_digits_of(len as nat)) == len as nat,
{
    lemma_dec_digits_value(len as nat);
}

/// Every immediate reply the router builds keeps the response-plan
/// invariant: it either carries no headers at all, or exactly a content
/// type and a `Content-Length` equal to the byte length of its body.
pub proof fn law_reply_length_invariant(
    method: Seq<char>,
    path: Seq<char>,
    hs: Seq<(Seq<char>, Seq<char>)>,
)
    ensures
        route_model(method, path, hs) matches Plan::Reply { headers, body, .. } ==> (headers.len()
            == 0 || (headers.len() == 2 && headers[1] == (
            "Content-Length"@,
            dec_digits_of(encode_utf8(body).len()),
        ))),
{
}

/// A malformed request line — fewer than three space-separated tokens —
/// is rejected with 400, whatever else the request holds.
pub proof fn law_malformed_request_line(line: Seq<char>, header_lines: Seq<Seq<char>>)
    requires
        !(request_line_model(line) is Parsed),
    ensures
        plan_model(line, header_lines) matches Plan::Reject { status, message } && status == 400,
{
}

} // verus!
