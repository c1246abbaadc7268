//! Error kinds shared by every layer of the service.

use vstd::prelude::*;

verus! {

/// What went wrong, by kind. Callers branch on the kind only; the cause of an
/// `Unknown` (store, broker or codec) is deliberately not carried.
#[derive(Clone, Copy, Debug, PartialEq, Eq, Structural)]
pub enum Error {
    Unknown,
    NotFound,
    NotAvailable,
    Unauthorized,
    InvalidToken,
    InvalidFormat,
    InvalidHeader,
    WrongCredentials,
    RegexNotMatch,
    AlreadyExists,
    MissingFields,
}

pub type Result<T> = std::result::Result<T, Error>;

impl Error {
    /// The error's name, as it is shown to callers and written to logs.
    pub open spec fn name(self) -> &'static str {
        match self {
            Error::Unknown => "unknown",
            Error::NotFound => "not found",
            Error::NotAvailable => "not available",
            Error::Unauthorized => "unauthorized",
            Error::InvalidToken => "invalid token",
            Error::InvalidFormat => "invalid format",
            Error::InvalidHeader => "invalid header",
            Error::WrongCredentials => "wrong credentials",
            Error::RegexNotMatch => "regex not match",
            Error::AlreadyExists => "already exists",
            Error::MissingFields => "missing fields",
        }
    }

    pub fn as_str(&self) -> (name: &'static str)
        ensures
            name == self.name(),
    {
        match self {
            Error::Unknown => "unknown",
            Error::NotFound => "not found",
            Error::NotAvailable => "not available",
            Error::Unauthorized => "unauthorized",
            Error::InvalidToken => "invalid token",
            Error::InvalidFormat => "invalid format",
            Error::InvalidHeader => "invalid header",
            Error::WrongCredentials => "wrong credentials",
            Error::RegexNotMatch => "regex not match",
            Error::AlreadyExists => "already exists",
            Error::MissingFields => "missing fields",
        }
    }
}

} // verus!
