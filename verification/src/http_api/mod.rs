//! What the transport is answered with.

pub mod data;

use vstd::prelude::*;
use vstd::string::*;
use crate::result::Error;

verus! {

/// A failure as the transport reports it: a status and a short reason.
pub struct ErrorResponse {
    pub status: u16,
    pub reason: String,
}

impl View for ErrorResponse {
    type V = (u16, Seq<char>);

    open spec fn view(&self) -> (u16, Seq<char>) {
        (self.status, self.reason@)
    }
}

/// The status and reason that stand for an error kind.
pub open spec fn failure(e: Error) -> (u16, Seq<char>) {
    (e.spec_status(), e.spec_reason())
}

/// Builds the report of a failure.
pub fn error_response(e: Error) -> (r: ErrorResponse)
    ensures
        r@ == failure(e),
{
    ErrorResponse { status: e.status(), reason: e.reason().to_owned() }
}

} // verus!
