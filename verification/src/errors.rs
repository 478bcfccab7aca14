//! Error module

use vstd::prelude::*;

verus! {

#[derive(Debug)]
pub enum Error {
    /// The HTTP client could not be built, or the transfer failed.
    /// Carries the transport's message.
    ClientCreation(String),
    /// A stream ended, with a handler present, before any final record.
    EmptyResponse,
    /// The server answered with a status code that the operation does not expect.
    ErrorStatus(u16),
    /// An event reached an exchange that was not waiting for it.
    Event,
    /// A stream was opened without a handler to consume it.
    NoCallback,
    /// The blob or model named in the request does not exist.
    NotExists,
    /// Incremental delivery was asked of a request that switches streaming off.
    StreamingOff,
    /// The host or an endpoint is not a URL. Carries the parser's message.
    UrlParsing(String),
    /// A chunk or body is not a JSON document of a shape that the operation
    /// knows. Carries the decoder's message.
    JsonDecoding(String),
}

/// The kind of an [`Error`], without what it carries.
#[derive(Debug, Clone, Copy, PartialEq, Eq, Structural)]
pub enum ErrorKind {
    ClientCreation,
    EmptyResponse,
    ErrorStatus,
    Event,
    NoCallback,
    NotExists,
    StreamingOff,
    UrlParsing,
    JsonDecoding,
}

impl Error {
    /// The kind of this error.
    pub open spec fn spec_kind(&self) -> ErrorKind {
        match self {
            Error::ClientCreation(_) => ErrorKind::ClientCreation,
            Error::EmptyResponse => ErrorKind::EmptyResponse,
            Error::ErrorStatus(_) => ErrorKind::ErrorStatus,
            Error::Event => ErrorKind::Event,
            Error::NoCallback => ErrorKind::NoCallback,
            Error::NotExists => ErrorKind::NotExists,
            Error::StreamingOff => ErrorKind::StreamingOff,
            Error::UrlParsing(_) => ErrorKind::UrlParsing,
            Error::JsonDecoding(_) => ErrorKind::JsonDecoding,
        }
    }

    /// The status code that an `ErrorStatus` carries.
    pub open spec fn spec_status_code(&self) -> Option<u16> {
        match self {
            Error::ErrorStatus(code) => Some(*code),
            _ => None,
        }
    }

    /// The status code that an `ErrorStatus` carries; `None` for an error of
    /// another kind.
    #[verifier::when_used_as_spec(spec_status_code)]
    pub fn status_code(&self) -> (code: Option<u16>)
        ensures
            code == self.spec_status_code(),
    {
        match self {
            Error::ErrorStatus(code) => Some(*code),
            _ => None,
        }
    }

    /// The kind of this error.
    #[verifier::when_used_as_spec(spec_kind)]
    pub fn kind(&self) -> (k: ErrorKind)
        ensures
            k == self.spec_kind(),
    {
        match self {
            Error::ClientCreation(_) => ErrorKind::ClientCreation,
            Error::EmptyResponse => ErrorKind::EmptyResponse,
            Error::ErrorStatus(_) => ErrorKind::ErrorStatus,
            Error::Event => ErrorKind::Event,
            Error::NoCallback => ErrorKind::NoCallback,
            Error::NotExists => ErrorKind::NotExists,
            Error::StreamingOff => ErrorKind::StreamingOff,
            Error::UrlParsing(_) => ErrorKind::UrlParsing,
            Error::JsonDecoding(_) => ErrorKind::JsonDecoding,
        }
    }
}

} // verus!
