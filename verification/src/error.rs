//! The failures the node distinguishes, and the transport codes they end in.

use vstd::prelude::*;

verus! {

/// Why an operation of this crate failed.
#[derive(Clone, Copy, Debug, PartialEq, Eq, Structural)]
pub enum FederationError {
    /// A lookup matched no row.
    NotFound,
    /// An identifier, a URI or a webfinger resource could not be read.
    MalformedInput,
    /// A claimed identity is hosted elsewhere than the origin it came from.
    VerificationFailure,
    /// A referenced actor could not be fetched or read.
    DereferenceError,
    /// The storage backend failed, or held data that breaks its own rules.
    StorageError,
}

/// The outcome of a request, as the transport reports it.
#[derive(Clone, Copy, Debug, PartialEq, Eq, Structural)]
pub enum Status {
    BadRequest,
    NotFound,
    InternalServerError,
}

impl Status {
    /// The numeric status code.
    pub open spec fn spec_code(self) -> u16 {
        match self {
            Status::BadRequest => 400,
            Status::NotFound => 404,
            Status::InternalServerError => 500,
        }
    }

    /// The numeric status code.
    #[verifier::when_used_as_spec(spec_code)]
    pub fn code(self) -> (c: u16)
        ensures
            c == self.spec_code(),
    {
        match self {
            Status::BadRequest => 400,
            Status::NotFound => 404,
            Status::InternalServerError => 500,
        }
    }
}

impl FederationError {
    /// The status a failed request ends in: a miss is 404, unreadable input is
    /// 400, everything else is fatal for the request.
    pub open spec fn spec_status(self) -> Status {
        match self {
            FederationError::NotFound => Status::NotFound,
            FederationError::MalformedInput => Status::BadRequest,
            FederationError::VerificationFailure => Status::InternalServerError,
            FederationError::DereferenceError => Status::InternalServerError,
            FederationError::StorageError => Status::InternalServerError,
        }
    }

    /// The status a failed request ends in.
    #[verifier::when_used_as_spec(spec_status)]
    pub fn status(self) -> (s: Status)
        ensures
            s == self.spec_status(),
    {
        match self {
            FederationError::NotFound => Status::NotFound,
            FederationError::MalformedInput => Status::BadRequest,
            FederationError::VerificationFailure => Status::InternalServerError,
            FederationError::DereferenceError => Status::InternalServerError,
            FederationError::StorageError => Status::InternalServerError,
        }
    }
}

} // verus!
