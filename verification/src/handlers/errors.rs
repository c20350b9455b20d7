//! The JSON bodies that replace the default bodies of error responses.

use vstd::prelude::*;
use vstd::string::*;

use crate::errors::{AppErrorMessage, ErrorBody};

verus! {

/// A JSON error body with this code and message.
pub fn render_error(code: u16, message: String) -> (res: ErrorBody)
    ensures
        res.body_is(code, message@),
{
    ErrorBody {
        content_type: String::from_str("application/json"),
        message: AppErrorMessage { code, message },
    }
}

/// The body of a 401 answer.
pub fn render_401() -> (res: ErrorBody)
    ensures
        res.body_is(401, "Unauthorized"@),
{
    render_error(401, String::from_str("Unauthorized"))
}

/// The body of a 403 answer.
pub fn render_403() -> (res: ErrorBody)
    ensures
        res.body_is(403, "Forbidden"@),
{
    render_error(403, String::from_str("Forbidden"))
}

/// The body of a 408 answer.
pub fn render_408() -> (res: ErrorBody)
    ensures
        res.body_is(408, "Request Time-out"@),
{
    render_error(408, String::from_str("Request Time-out"))
}

/// The body of a 502 answer.
pub fn render_502() -> (res: ErrorBody)
    ensures
        res.body_is(502, "Bad Gateway"@),
{
    render_error(502, String::from_str("Bad Gateway"))
}

/// The body of a 503 answer.
pub fn render_503() -> (res: ErrorBody)
    ensures
        res.body_is(503, "Service Unavailable"@),
{
    render_error(503, String::from_str("Service Unavailable"))
}

/// The body of a 504 answer.
pub fn render_504() -> (res: ErrorBody)
    ensures
        res.body_is(504, "Gateway Time-out"@),
{
    render_error(504, String::from_str("Gateway Time-out"))
}

} // verus!
