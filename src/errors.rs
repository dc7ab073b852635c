use vstd::prelude::*;

verus! {

/// The failures of the registry's operations.
#[derive(Copy, Clone, Debug, PartialEq, Eq, Structural)]
pub enum Error {
    AlreadyInitialized,
    NotAdmin,
    NotIssuer,
    CertificateNotFound,
    Unauthorized,
    InvalidSignature,
    IssuerAlreadySet,
    IssuerNotFound,
    NoPendingAdmin,
    InvalidData,
}

/// The numeric code by which each failure is reported to callers.
pub open spec fn error_code(e: Error) -> u32 {
    match e {
        Error::AlreadyInitialized => 100,
        Error::NotAdmin => 101,
        Error::NotIssuer => 102,
        Error::CertificateNotFound => 103,
        Error::Unauthorized => 104,
        Error::InvalidSignature => 105,
        Error::IssuerAlreadySet => 106,
        Error::IssuerNotFound => 107,
        Error::NoPendingAdmin => 108,
        Error::InvalidData => 109,
    }
}

impl Error {
    /// The numeric code by which this failure is reported to callers.
    pub fn code(&self) -> (r: u32)
        ensures
            r == error_code(*self),
    {
        match self {
            Error::AlreadyInitialized => 100,
            Error::NotAdmin => 101,
            Error::NotIssuer => 102,
            Error::CertificateNotFound => 103,
            Error::Unauthorized => 104,
            Error::InvalidSignature => 105,
            Error::IssuerAlreadySet => 106,
            Error::IssuerNotFound => 107,
            Error::NoPendingAdmin => 108,
            Error::InvalidData => 109,
        }
    }
}

} // verus!
