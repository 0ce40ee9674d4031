//! The response writer: turns a status code, ordered header pairs, and an
//! inline body into the exact wire text `HTTP/1.1 <status>\r\n` followed by
//! `Key: Value\r\n` lines, a blank line, and the body. Bodies streamed from
//! a file are written by the caller after the head produced here.

use vstd::prelude::*;
use vstd::string::StringExecFns;

use crate::error::HttpError;
use crate::numerals::dec_digits_of;
use crate::numerals::u64_to_string;

verus! {

/// A response plan with an inline body: status, headers in the order they
/// will be written (no sorting, no deduplication), and the body text.
pub struct Response {
    pub status: u16,
    pub headers: Vec<(String, String)>,
    pub body: String,
}

/// The views of a header list, pair by pair.
pub open spec fn header_views(hs: Seq<(String, String)>) -> Seq<(Seq<char>, Seq<char>)> {
    hs.map_values(|p: (String, String)| (p.0@, p.1@))
}

/// The `Key: Value\r\n` lines of a header list, in the given order.
pub open spec fn headers_chars(hs: Seq<(Seq<char>, Seq<char>)>) -> Seq<char>
    decreases hs.len(),
{
    if hs.len() == 0 {
        Seq::empty()
    } else {
        headers_chars(hs.drop_last()) + hs.last().0 + ": "@ + hs.last().1 + "\r\n"@
    }
}

/// The head of a response: status line, header lines, and the blank line
/// that ends the head. The status line carries no reason phrase.
pub open spec fn head_chars(status: nat, hs: Seq<(Seq<char>, Seq<char>)>) -> Seq<char> {
    "HTTP/1.1 "@ + dec_digits_of(status) + "\r\n"@ + headers_chars(hs) + "\r\n"@
}

/// The whole wire text of a response whose body is inline.
pub open spec fn response_chars(
    status: nat,
    hs: Seq<(Seq<char>, Seq<char>)>,
    body: Seq<char>,
) -> Seq<char> {
    head_chars(status, hs) + body
}

proof fn lemma_headers_chars_snoc(hs: Seq<(Seq<char>, Seq<char>)>, i: int)
    requires
        0 <= i < hs.len(),
    ensures
        headers_chars(hs.take(i + 1)) == headers_chars(hs.take(i)) + hs[i].0 + ": "@ + hs[i].1
            + "\r\n"@,
{
    assert(hs.take(i + 1).drop_last() =~= hs.take(i));
    assert(hs.take(i + 1).last() == hs[i]);
}

/// Serialize the head of a response and nothing more.
pub fn render_head(status: u16, headers: &Vec<(String, String)>) -> (r: String)
    ensures
        r@ == head_chars(status as nat, header_views(headers@)),
{
    let mut out = String::from_str("HTTP/1.1 ");
    let digits = u64_to_string(status as u64);
    out.append(digits.as_str());
    out.append("\r\n");
    let ghost hv = header_views(headers@);
    let ghost lead = "HTTP/1.1 "@ + dec_digits_of(status as nat) + "\r\n"@;
    proof {
        assert(hv.take(0) =~= Seq::<(Seq<char>, Seq<char>)>::empty());
        assert(out@ =~= lead + headers_chars(hv.take(0)));
    }
    let mut i: usize = 0;
    while i < headers.len()
        invariant
            hv == header_views(headers@),
            lead == "HTTP/1.1 "@ + dec_digits_of(status as nat) + "\r\n"@,
            i <= headers.len(),
            hv.len() == headers.len(),
            out@ == lead + headers_chars(hv.take(i as int)),
        decreases headers.len() - i,
    {
        let pair = &headers[i];
        out.append(pair.0.as_str());
        out.append(": ");
        out.append(pair.1.as_str());
        out.append("\r\n");
        proof {
            lemma_headers_chars_snoc(hv, i as int);
            assert(hv[i as int] == (headers@[i as int].0@, headers@[i as int].1@));
            assert(out@ =~= lead + headers_chars(hv.take(i + 1)));
        }
        i = i + 1;
    }
    out.append("\r\n");
    proof {
        assert(hv.take(headers@.len() as int) =~= hv);
        assert(out@ =~= head_chars(status as nat, hv));
    }
    out
}

/// Serialize a whole response plan, head then inline body.
pub fn render_response(resp: &Response) -> (r: String)
    ensures
        r@ == response_chars(resp.status as nat, header_views(resp.headers@), resp.body@),
{
    let mut out = render_head(resp.status, &resp.headers);
    out.append(resp.body.as_str());
    out
}

/// The best-effort error reply: a bare status line, no headers, and the
/// error's message as the body.
pub fn render_error(e: &HttpError) -> (r: String)
    ensures
        r@ == response_chars(e.status_code as nat, Seq::empty(), e.message@),
{
    let empty: Vec<(String, String)> = Vec::new();
    let mut out = render_head(e.status_code, &empty);
    proof {
        assert(header_views(empty@) =~= Seq::<(Seq<char>, Seq<char>)>::empty());
    }
    out.append(e.message.as_str());
    out
}

} // verus!
