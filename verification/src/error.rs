//! The error taxonomy of the server: a status code plus a human-readable
//! message, terminal for the connection that produced it.

use vstd::prelude::*;
use vstd::string::StringExecFns;

verus! {

/// The message a 400 reply carries for a given cause.
pub open spec fn bad_request_msg(cause: Seq<char>) -> Seq<char> {
    "Bad request: "@ + cause
}

/// A per-connection HTTP failure. It carries exactly what is needed to
/// write a minimal error response: the numeric status and a message that
/// becomes the response body.
#[derive(Debug)]
pub struct HttpError {
    pub status_code: u16,
    pub message: String,
}

impl HttpError {
    /// 400: the request line, a header line, or a required header was
    /// missing or malformed.
    pub fn bad_request(msg: &str) -> (e: Self)
        ensures
            e.status_code == 400,
            e.message@ == bad_request_msg(msg@),
    {
        HttpError { status_code: 400, message: String::from_str("Bad request: ").concat(msg) }
    }

    /// 404: no route matched, or the requested file does not exist.
    pub fn not_found() -> (e: Self)
        ensures
            e.status_code == 404,
            e.message@ == "Not found"@,
    {
        HttpError { status_code: 404, message: String::from_str("Not found") }
    }

    /// 405: the path named a recognized resource, but the verb is not
    /// supported for it.
    pub fn method_not_allowed(method: &str) -> (e: Self)
        ensures
            e.status_code == 405,
            e.message@ == "Method "@ + method@ + " not allowed"@,
    {
        let m = String::from_str("Method ").concat(method);
        let m = m.concat(" not allowed");
        HttpError { status_code: 405, message: m }
    }

    /// 500: an I/O step failed mid-pipeline; `msg` names the step.
    pub fn internal(msg: &str) -> (e: Self)
        ensures
            e.status_code == 500,
            e.message@ == msg@,
    {
        HttpError { status_code: 500, message: String::from_str(msg) }
    }
}

} // verus!
