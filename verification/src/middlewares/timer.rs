//! The middleware that reports how long the server took to answer.

use vstd::prelude::*;
use vstd::string::*;

use crate::middlewares::{is_header_value, is_valid_header_value, HeaderEntry};

verus! {

/// Name of the header that reports the processing time in seconds.
pub open spec fn process_time_header_name() -> Seq<char> {
    "x-process-time-s"@
}

/// Middleware factory that reports how long each request took.
#[derive(Debug, Clone, Copy)]
pub struct Timer;

/// The middleware that [`Timer`] builds around a service.
#[derive(Debug, Clone, Copy)]
pub struct TimerMiddleware;

impl Timer {
    /// Builds the middleware.
    pub fn new_transform(&self) -> (res: TimerMiddleware) {
        TimerMiddleware
    }
}

impl TimerMiddleware {
    /// The header added to a response, given the elapsed time already written
    /// out in seconds (`None` when the clock could not say how much time has
    /// passed). A header is added exactly when the time is known and the text
    /// is a valid header value.
    pub fn process_time_header(&self, elapsed_secs: Option<&str>) -> (res: Option<HeaderEntry>)
        ensures
            res is Some <==> (elapsed_secs matches Some(t) && is_header_value(t@)),
            res matches Some(h) ==> h.name@ == process_time_header_name() && h.value@
                == elapsed_secs->0@,
    {
        match elapsed_secs {
            Some(text) => {
                if is_valid_header_value(text) {
                    Some(
                        HeaderEntry {
                            name: String::from_str("x-process-time-s"),
                            value: String::from_str(text),
                        },
                    )
                } else {
                    None
                }
            },
            None => None,
        }
    }
}

} // verus!
