//! The error kinds that the core reports.

use vstd::prelude::*;

verus! {

/// Why an operation of the core failed.
#[derive(Clone, Copy, Debug, PartialEq, Eq, Structural)]
pub enum Error {
    /// An argument is outside the domain of the operation (a zero id, a
    /// transfer to oneself).
    InvalidArgument,
    /// The identity is unknown or the secret hash does not match.
    AuthenticationFailed,
    /// The requesting user may not perform the operation.
    PermissionDenied,
    /// The identity is already registered.
    DuplicateIdentity,
    /// The store refused or could not carry out the statement.
    BackendError,
    /// The store answered outside its contract.
    FatalBackendInconsistency,
    /// The session token carries a bad signature.
    Unauthenticated,
    /// The session token has outlived its lifetime.
    Expired,
    /// The request could not be decoded at the boundary.
    BadRequest,
}

impl Error {
    /// The protocol status that stands for this kind.
    pub open spec fn spec_status(&self) -> u16 {
        match self {
            Error::InvalidArgument => 400,
            Error::AuthenticationFailed => 401,
            Error::PermissionDenied => 403,
            Error::DuplicateIdentity => 409,
            Error::BackendError => 500,
            Error::FatalBackendInconsistency => 500,
            Error::Unauthenticated => 401,
            Error::Expired => 401,
            Error::BadRequest => 400,
        }
    }

    /// The short reason that accompanies the status.
    pub open spec fn spec_reason(&self) -> Seq<char> {
        match self {
            Error::InvalidArgument => "invalid argument"@,
            Error::AuthenticationFailed => "authentication failed"@,
            Error::PermissionDenied => "permission denied"@,
            Error::DuplicateIdentity => "identity already registered"@,
            Error::BackendError => "backend error"@,
            Error::FatalBackendInconsistency => "backend broke its contract"@,
            Error::Unauthenticated => "not authenticated"@,
            Error::Expired => "session expired"@,
            Error::BadRequest => "bad request"@,
        }
    }

    /// Maps the kind to its protocol status.
    #[verifier::when_used_as_spec(spec_status)]
    pub fn status(&self) -> (s: u16)
        ensures
            s == self.spec_status(),
    {
        match self {
            Error::InvalidArgument => 400,
            Error::AuthenticationFailed => 401,
            Error::PermissionDenied => 403,
            Error::DuplicateIdentity => 409,
            Error::BackendError => 500,
            Error::FatalBackendInconsistency => 500,
            Error::Unauthenticated => 401,
            Error::Expired => 401,
            Error::BadRequest => 400,
        }
    }

    /// Maps the kind to its short reason.
    pub fn reason(&self) -> (r: &'static str)
        ensures
            r@ == self.spec_reason(),
    {
        match self {
            Error::InvalidArgument => "invalid argument",
            Error::AuthenticationFailed => "authentication failed",
            Error::PermissionDenied => "permission denied",
            Error::DuplicateIdentity => "identity already registered",
            Error::BackendError => "backend error",
            Error::FatalBackendInconsistency => "backend broke its contract",
            Error::Unauthenticated => "not authenticated",
            Error::Expired => "session expired",
            Error::BadRequest => "bad request",
        }
    }
}

} // verus!
