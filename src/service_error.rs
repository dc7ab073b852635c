use vstd::prelude::*;
use crate::keypair::Secp256k1Error;

verus! {

/// The failures of the certificate service, each with the HTTP status it is answered
/// with. Failures of outside services keep their message.
#[derive(Debug)]
pub enum Error {
    General(String, u16),
    ParamMissing(String),
    ParamError(String),
    BodyMissing,
    ParseError(String),
    HttpError(String),
    ConfigError(String),
    DatabaseError(String),
    CryptoError(Secp256k1Error),
    SignatureValidationError(String),
    HexError(hex::FromHexError),
    HttpClientError(String),
    Base64Error(String),
    UuidParseError(String),
    UrlParseError(String),
    ArweaveError(String),
}

/// HTTP 400.
pub const BAD_REQUEST: u16 = 400;

/// HTTP 500.
pub const INTERNAL_SERVER_ERROR: u16 = 500;

/// The HTTP status a failure is answered with: its own for a general failure, 500 for
/// failures of the server's own services (HTTP, configuration, database, remote calls,
/// archival), 400 for everything the request got wrong.
pub open spec fn status_of(e: Error) -> u16 {
    match e {
        Error::General(_, status) => status,
        Error::HttpError(_) => INTERNAL_SERVER_ERROR,
        Error::ConfigError(_) => INTERNAL_SERVER_ERROR,
        Error::DatabaseError(_) => INTERNAL_SERVER_ERROR,
        Error::HttpClientError(_) => INTERNAL_SERVER_ERROR,
        Error::ArweaveError(_) => INTERNAL_SERVER_ERROR,
        _ => BAD_REQUEST,
    }
}

impl Error {
    /// The HTTP status this failure is answered with.
    pub fn http_status(&self) -> (r: u16)
        ensures
            r == status_of(*self),
    {
        match self {
            Error::General(_, status) => *status,
            Error::ParamMissing(_) => BAD_REQUEST,
            Error::ParamError(_) => BAD_REQUEST,
            Error::BodyMissing => BAD_REQUEST,
            Error::ParseError(_) => BAD_REQUEST,
            Error::HttpError(_) => INTERNAL_SERVER_ERROR,
            Error::ConfigError(_) => INTERNAL_SERVER_ERROR,
            Error::DatabaseError(_) => INTERNAL_SERVER_ERROR,
            Error::CryptoError(_) => BAD_REQUEST,
            Error::HexError(_) => BAD_REQUEST,
            Error::HttpClientError(_) => INTERNAL_SERVER_ERROR,
            Error::SignatureValidationError(_) => BAD_REQUEST,
            Error::Base64Error(_) => BAD_REQUEST,
            Error::UuidParseError(_) => BAD_REQUEST,
            Error::UrlParseError(_) => BAD_REQUEST,
            Error::ArweaveError(_) => INTERNAL_SERVER_ERROR,
        }
    }
}

} // verus!
