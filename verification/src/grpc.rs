//! gRPC utilities for managing request's headers and conversions.
//!
//! Statuses and header lookups are kept as plain values here; the transport
//! turns them into its own types.

use crate::result::Error;
use vstd::prelude::*;
use vstd::std_specs::convert::FromSpecImpl;

verus! {

/// The status categories this service answers with.
#[derive(Clone, Copy, Debug, PartialEq, Eq, Structural)]
pub enum Code {
    Unknown,
    NotFound,
    Unavailable,
    PermissionDenied,
    InvalidArgument,
    Unauthenticated,
    FailedPrecondition,
    AlreadyExists,
}

/// The answer to a call that failed: a category and the error's name.
#[derive(Clone, Copy, Debug, PartialEq, Eq)]
pub struct Status {
    pub code: Code,
    pub message: &'static str,
}

impl Error {
    /// The status category that tells a remote caller of this error.
    pub open spec fn code(self) -> Code {
        match self {
            Error::Unknown => Code::Unknown,
            Error::NotFound => Code::NotFound,
            Error::NotAvailable => Code::Unavailable,
            Error::Unauthorized => Code::PermissionDenied,
            Error::InvalidToken | Error::InvalidFormat | Error::InvalidHeader
            | Error::MissingFields => Code::InvalidArgument,
            Error::WrongCredentials => Code::Unauthenticated,
            Error::RegexNotMatch => Code::FailedPrecondition,
            Error::AlreadyExists => Code::AlreadyExists,
        }
    }
}

impl Error {
    /// The status that tells a remote caller of this error.
    pub open spec fn status(self) -> Status {
        Status { code: self.code(), message: self.name() }
    }
}

impl From<Error> for Status {
    fn from(value: Error) -> (status: Self) {
        let code = match value {
            Error::Unknown => Code::Unknown,
            Error::NotFound => Code::NotFound,
            Error::NotAvailable => Code::Unavailable,
            Error::Unauthorized => Code::PermissionDenied,
            Error::InvalidToken | Error::InvalidFormat | Error::InvalidHeader => {
                Code::InvalidArgument
            },
            Error::WrongCredentials => Code::Unauthenticated,
            Error::RegexNotMatch => Code::FailedPrecondition,
            Error::AlreadyExists => Code::AlreadyExists,
            Error::MissingFields => Code::InvalidArgument,
        };
        Status { code, message: value.as_str() }
    }
}

impl FromSpecImpl<Error> for Status {
    open spec fn obeys_from_spec() -> bool {
        true
    }

    open spec fn from_spec(value: Error) -> Status {
        value.status()
    }
}

/// What a request carries under the name of a header.
#[derive(Debug)]
pub enum HeaderLookup {
    /// The request has no such header.
    Missing,
    /// The header is there and its value is no readable text.
    Unreadable,
    /// The header's value.
    Text(String),
}

/// Given what a gRPC request carries under a header's key, returns the
/// value if any. Otherwise an error is returned: permission denied for a
/// missing header, invalid argument for an unreadable one. No caller is
/// taken for anonymous.
pub fn get_header(found: HeaderLookup) -> (value: Result<String, Status>)
    ensures
        value == (match found {
            HeaderLookup::Missing => Err::<String, Status>(
                Error::Unauthorized.status(),
            ),
            HeaderLookup::Unreadable => Err::<String, Status>(
                Error::InvalidHeader.status(),
            ),
            HeaderLookup::Text(text) => Ok::<String, Status>(text),
        }),
{
    match found {
        HeaderLookup::Missing => Err(Status::from(Error::Unauthorized)),
        HeaderLookup::Unreadable => Err(Status::from(Error::InvalidHeader)),
        HeaderLookup::Text(text) => Ok(text),
    }
}

} // verus!
