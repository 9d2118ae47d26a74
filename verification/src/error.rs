//! The errors of the service, and the response that reports one.

use vstd::prelude::*;
use vstd::string::*;

verus! {

/// What went wrong, without the message.
#[derive(Clone, Copy, Debug, PartialEq, Eq, Structural)]
pub enum ErrorKind {
    /// The request could not be read: it never entered the pipeline.
    BadRequest,
    /// The engine refused the transaction; no state changed.
    ValidationRejected,
    /// The store failed on I/O or found its data corrupt.
    StorageIo,
    /// Stored bytes are not the encoding of a state value.
    Decode,
    /// A state value could not be encoded.
    Encode,
    /// The engine produced no write set.
    ExecutionFailure,
    /// The worker that ran offloaded work crashed or was lost.
    TaskFailure,
    /// Any other internal failure.
    Other,
}

/// An error of the service: its kind, and the message of the failure
/// behind it.
#[derive(Debug, PartialEq, Eq)]
pub enum Error {
    /// The request could not be read.
    BadRequest(String),
    /// The engine refused the transaction.
    ValidationRejected(String),
    /// The store failed.
    StorageIo(String),
    /// Stored bytes did not decode.
    Decode(String),
    /// A state value did not encode.
    Encode(String),
    /// The engine produced no write set.
    ExecutionFailure(String),
    /// A worker crashed or was lost.
    TaskFailure(String),
    /// Any other internal failure.
    Other(String),
}

impl View for Error {
    type V = (ErrorKind, Seq<char>);

    open spec fn view(&self) -> (ErrorKind, Seq<char>) {
        match self {
            Error::BadRequest(m) => (ErrorKind::BadRequest, m@),
            Error::ValidationRejected(m) => (ErrorKind::ValidationRejected, m@),
            Error::StorageIo(m) => (ErrorKind::StorageIo, m@),
            Error::Decode(m) => (ErrorKind::Decode, m@),
            Error::Encode(m) => (ErrorKind::Encode, m@),
            Error::ExecutionFailure(m) => (ErrorKind::ExecutionFailure, m@),
            Error::TaskFailure(m) => (ErrorKind::TaskFailure, m@),
            Error::Other(m) => (ErrorKind::Other, m@),
        }
    }
}

impl Clone for Error {
    fn clone(&self) -> (error: Error)
        ensures
            error@ == self@,
    {
        match self {
            Error::BadRequest(m) => Error::BadRequest(m.clone()),
            Error::ValidationRejected(m) => Error::ValidationRejected(m.clone()),
            Error::StorageIo(m) => Error::StorageIo(m.clone()),
            Error::Decode(m) => Error::Decode(m.clone()),
            Error::Encode(m) => Error::Encode(m.clone()),
            Error::ExecutionFailure(m) => Error::ExecutionFailure(m.clone()),
            Error::TaskFailure(m) => Error::TaskFailure(m.clone()),
            Error::Other(m) => Error::Other(m.clone()),
        }
    }
}

/// The message of the error that ends a sequence of steps which was handed
/// an event out of order.
pub const UNEXPECTED_EVENT: &'static str = "unexpected event";

/// The status of the response to a request that succeeded.
pub const OK: u16 = 200;

/// The status of every error response: an internal server error.
pub const INTERNAL_SERVER_ERROR: u16 = 500;

/// The parts of the response that reports an error to the caller. The body
/// is the message; on the wire it is written as a JSON string.
#[derive(Debug, PartialEq, Eq)]
pub struct ErrorResponse {
    pub status: u16,
    pub content_type: String,
    pub body: String,
}

impl Error {
    /// The error's kind.
    pub fn kind(&self) -> (kind: ErrorKind)
        ensures
            kind == self@.0,
    {
        match self {
            Error::BadRequest(_) => ErrorKind::BadRequest,
            Error::ValidationRejected(_) => ErrorKind::ValidationRejected,
            Error::StorageIo(_) => ErrorKind::StorageIo,
            Error::Decode(_) => ErrorKind::Decode,
            Error::Encode(_) => ErrorKind::Encode,
            Error::ExecutionFailure(_) => ErrorKind::ExecutionFailure,
            Error::TaskFailure(_) => ErrorKind::TaskFailure,
            Error::Other(_) => ErrorKind::Other,
        }
    }

    /// The error's message.
    pub fn message(&self) -> (message: &String)
        ensures
            message@ == self@.1,
    {
        match self {
            Error::BadRequest(m) => m,
            Error::ValidationRejected(m) => m,
            Error::StorageIo(m) => m,
            Error::Decode(m) => m,
            Error::Encode(m) => m,
            Error::ExecutionFailure(m) => m,
            Error::TaskFailure(m) => m,
            Error::Other(m) => m,
        }
    }

    /// The status code that reports the error: whatever its kind, an
    /// internal server error.
    pub fn status_code(&self) -> (status: u16)
        ensures
            status == INTERNAL_SERVER_ERROR,
    {
        INTERNAL_SERVER_ERROR
    }

    /// The response that reports the error: an internal server error whose
    /// JSON body is the message.
    pub fn error_response(&self) -> (response: ErrorResponse)
        ensures
            response.status == INTERNAL_SERVER_ERROR,
            response.content_type@ == "application/json"@,
            response.body@ == self@.1,
    {
        ErrorResponse {
            status: self.status_code(),
            content_type: String::from_str("application/json"),
            body: self.message().clone(),
        }
    }
}

/// The status of the response that answers a request with `result`: `OK`
/// with the value for its body, or else the status of the error response.
pub fn response_status<T>(result: &Result<T, Error>) -> (status: u16)
    ensures
        status == if result is Ok {
            OK
        } else {
            INTERNAL_SERVER_ERROR
        },
{
    match result {
        Ok(_) => OK,
        Err(e) => e.status_code(),
    }
}

} // verus!
