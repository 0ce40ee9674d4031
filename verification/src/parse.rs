//! The request parser: the request line split into method, path and
//! version, and the header block split into trimmed key/value pairs.
//! Each function's outcome is pinned by a spec-level model of the same
//! text, including which malformed inputs yield which 400 message.

use vstd::prelude::*;
use vstd::string::StrSliceExecFns;

use crate::error::bad_request_msg;
use crate::error::HttpError;
use crate::render::header_views;
use crate::text::find_char;
use crate::text::find_char_in;
use crate::text::lemma_find_char_props;
use crate::text::str_eq;
use crate::text::trim_chars;
use crate::text::trim_str;

verus! {

/// A parsed request line. The version token is kept but never drives
/// behavior.
#[derive(Debug)]
pub struct RequestLine {
    pub method: String,
    pub path: String,
    pub version: String,
}

/// What a raw request line means: three tokens, or which one is missing.
/// Splitting happens on the first two spaces of the trimmed line, so the
/// version token may itself contain spaces.
pub enum RequestLineShape {
    Parsed { method: Seq<char>, path: Seq<char>, version: Seq<char> },
    NoPath,
    NoVersion,
}

/// The model of request-line parsing over the raw characters.
pub open spec fn request_line_model(line: Seq<char>) -> RequestLineShape {
    let t = trim_chars(line);
    match find_char(t, ' ') {
        None => RequestLineShape::NoPath,
        Some(i) => {
            let rest = t.subrange(i + 1, t.len() as int);
            match find_char(rest, ' ') {
                None => RequestLineShape::NoVersion,
                Some(j) => RequestLineShape::Parsed {
                    method: t.subrange(0, i),
                    path: rest.subrange(0, j),
                    version: rest.subrange(j + 1, rest.len() as int),
                },
            }
        },
    }
}

/// The model of one header line: split at the first `:`, both sides
/// trimmed; a line without `:` is malformed.
pub open spec fn header_line_model(line: Seq<char>) -> Option<(Seq<char>, Seq<char>)> {
    match find_char(line, ':') {
        None => None,
        Some(i) => Some(
            (trim_chars(line.subrange(0, i)), trim_chars(line.subrange(i + 1, line.len() as int))),
        ),
    }
}

/// The model of a whole header block; `None` as soon as any line is
/// malformed.
pub open spec fn headers_model(lines: Seq<Seq<char>>) -> Option<Seq<(Seq<char>, Seq<char>)>>
    decreases lines.len(),
{
    if lines.len() == 0 {
        Some(Seq::empty())
    } else {
        match headers_model(lines.drop_last()) {
            None => None,
            Some(hs) => match header_line_model(lines.last()) {
                None => None,
                Some(kv) => Some(hs.push(kv)),
            },
        }
    }
}

/// Header lookup as a hash-map insert/get behaves on duplicates: the
/// last pair with the key wins.
pub open spec fn lookup_spec(hs: Seq<(Seq<char>, Seq<char>)>, k: Seq<char>) -> Option<Seq<char>>
    decreases hs.len(),
{
    if hs.len() == 0 {
        None
    } else if hs.last().0 == k {
        Some(hs.last().1)
    } else {
        lookup_spec(hs.drop_last(), k)
    }
}

/// Split a request line into method, path and version, or say what is
/// missing.
pub fn parse_request_line(line: &str) -> (r: Result<RequestLine, HttpError>)
    ensures
        ({
            match request_line_model(line@) {
                RequestLineShape::Parsed { method, path, version } => r matches Ok(rl)
                    && rl.method@ == method && rl.path@ == path && rl.version@ == version,
                RequestLineShape::NoPath => r matches Err(e) && e.status_code == 400 && e.message@
                    == bad_request_msg("no path found in header"@),
                RequestLineShape::NoVersion => r matches Err(e) && e.status_code == 400
                    && e.message@ == bad_request_msg("no standard found in header"@),
            }
        }),
{
    let t = trim_str(line);
    match find_char_in(t, ' ') {
        None => Err(HttpError::bad_request("no path found in header")),
        Some(i) => {
            let n = t.unicode_len();
            proof {
                lemma_find_char_props(t@, ' ');
            }
            let method = t.substring_char(0, i).to_owned();
            let rest = t.substring_char(i + 1, n);
            match find_char_in(rest, ' ') {
                None => Err(HttpError::bad_request("no standard found in header")),
                Some(j) => {
                    let m = rest.unicode_len();
                    proof {
                        lemma_find_char_props(rest@, ' ');
                    }
                    let path = rest.substring_char(0, j).to_owned();
                    let version = rest.substring_char(j + 1, m).to_owned();
                    Ok(RequestLine { method, path, version })
                },
            }
        },
    }
}

/// Split one header line at its first `:` and trim both sides.
pub fn parse_header_line(line: &str) -> (r: Result<(String, String), HttpError>)
    ensures
        ({
            match header_line_model(line@) {
                Some(kv) => r matches Ok(p) && p.0@ == kv.0 && p.1@ == kv.1,
                None => r matches Err(e) && e.status_code == 400 && e.message@ == bad_request_msg(
                    "invalid header format"@,
                ),
            }
        }),
{
    match find_char_in(line, ':') {
        None => Err(HttpError::bad_request("invalid header format")),
        Some(i) => {
            let n = line.unicode_len();
            proof {
                lemma_find_char_props(line@, ':');
            }
            let k = trim_str(line.substring_char(0, i)).to_owned();
            let v = trim_str(line.substring_char(i + 1, n)).to_owned();
            Ok((k, v))
        },
    }
}

/// One malformed line poisons the whole block.
proof fn lemma_headers_model_bad(lines: Seq<Seq<char>>, k: int)
    requires
        0 <= k < lines.len(),
        header_line_model(lines[k]) is None,
    ensures
        headers_model(lines) is None,
    decreases lines.len(),
{
    if k < lines.len() - 1 {
        lemma_headers_model_bad(lines.drop_last(), k);
    }
}

/// Parse every header line, in order; fail on the first malformed line.
pub fn parse_headers(lines: &Vec<String>) -> (r: Result<Vec<(String, String)>, HttpError>)
    ensures
        ({
            match headers_model(lines.deep_view()) {
                Some(hs) => r matches Ok(v) && header_views(v@) == hs,
                None => r matches Err(e) && e.status_code == 400 && e.message@ == bad_request_msg(
                    "invalid header format"@,
                ),
            }
        }),
{
    let ghost dv = lines.deep_view();
    let mut out: Vec<(String, String)> = Vec::new();
    proof {
        assert(dv.take(0) =~= Seq::<Seq<char>>::empty());
        assert(header_views(out@) =~= Seq::<(Seq<char>, Seq<char>)>::empty());
    }
    let mut i: usize = 0;
    while i < lines.len()
        invariant
            dv == lines.deep_view(),
            dv.len() == lines@.len(),
            i <= lines.len(),
            headers_model(dv.take(i as int)) == Some(header_views(out@)),
        decreases lines.len() - i,
    {
        let line = &lines[i];
        let ghost prev = out@;
        match parse_header_line(line.as_str()) {
            Ok(kv) => {
                let ghost kvv = (kv.0@, kv.1@);
                out.push(kv);
                proof {
                    assert(dv[i as int] == lines@[i as int]@);
                    assert(dv.take(i + 1).drop_last() =~= dv.take(i as int));
                    assert(dv.take(i + 1).last() == dv[i as int]);
                    assert(header_views(out@) =~= header_views(prev).push(kvv));
                }
            },
            Err(e) => {
                proof {
                    assert(dv[i as int] == lines@[i as int]@);
                    lemma_headers_model_bad(dv, i as int);
                }
                return Err(e);
            },
        }
        i = i + 1;
    }
    proof {
        assert(dv.take(lines@.len() as int) =~= dv);
    }
    Ok(out)
}

proof fn lemma_lookup_skip(hs: Seq<(Seq<char>, Seq<char>)>, k: Seq<char>, i: int)
    requires
        0 <= i <= hs.len(),
        forall|j: int| i <= j < hs.len() ==> hs[j].0 != k,
    ensures
        lookup_spec(hs, k) == lookup_spec(hs.take(i), k),
    decreases hs.len() - i,
{
    if i == hs.len() {
        assert(hs.take(i) =~= hs);
    } else {
        let t = hs.drop_last();
        assert(hs.last().0 != k);
        lemma_lookup_skip(t, k, i);
        assert(t.take(i) =~= hs.take(i));
    }
}

/// Find a header by exact, case-sensitive key; on duplicates the last
/// pair wins, as a map filled by insertion would behave.
pub fn header_lookup<'a>(headers: &'a Vec<(String, String)>, key: &str) -> (r: Option<
    &'a String,
>)
    ensures
        ({
            match r {
                Some(v) => lookup_spec(header_views(headers@), key@) == Some(v@),
                None => lookup_spec(header_views(headers@), key@) is None,
            }
        }),
{
    let ghost hv = header_views(headers@);
    let mut i: usize = headers.len();
    while i > 0
        invariant
            hv == header_views(headers@),
            hv.len() == headers@.len(),
            i <= headers.len(),
            forall|j: int| i <= j < hv.len() ==> hv[j].0 != key@,
        decreases i,
    {
        i = i - 1;
        if str_eq(headers[i].0.as_str(), key) {
            proof {
                lemma_lookup_skip(hv, key@, i + 1);
                assert(hv.take(i + 1).last() == hv[i as int]);
                assert(hv.take(i + 1).drop_last() =~= hv.take(i as int));
            }
            return Some(&headers[i].1);
        }
    }
    proof {
        lemma_lookup_skip(hv, key@, 0);
        assert(hv.take(0) =~= Seq::<(Seq<char>, Seq<char>)>::empty());
    }
    None
}

} // verus!
