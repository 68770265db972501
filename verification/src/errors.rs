//! Structured errors carried by the controller: a numeric code and a message.
//!
//! The distinguished aborted-query error marks a query that was stopped by an
//! explicit cancellation request, as opposed to a failure of its own
//! execution.

use vstd::prelude::*;
use vstd::string::StringExecFns;

verus! {

/// Code of the distinguished error reported when a query is stopped by an
/// explicit cancellation request.
pub const ABORTED_QUERY: u32 = 43;

/// A structured execution error: a stable numeric code and a human-readable
/// message.
#[derive(Clone, Debug)]
pub struct ErrorCode {
    pub code: u32,
    pub message: String,
}

/// True exactly of the error that the cancellation path reports.
pub open spec fn is_aborted_error(e: ErrorCode) -> bool {
    &&& e.code == ABORTED_QUERY
    &&& e.message@ == "query aborted"@
}

impl ErrorCode {
    /// An error with an arbitrary code and message.
    pub fn create(code: u32, message: String) -> (r: ErrorCode)
        ensures
            r.code == code,
            r.message == message,
    {
        ErrorCode { code, message }
    }

    /// The distinguished error reported when a query is aborted on request.
    pub fn aborted_query() -> (r: ErrorCode)
        ensures
            is_aborted_error(r),
    {
        ErrorCode { code: ABORTED_QUERY, message: String::from_str("query aborted") }
    }
}

} // verus!
