//! The outcome of a failed call: a gRPC status code, a message, and the
//! serialization error that caused it, where there is one.

use vstd::prelude::*;

verus! {

/// `serde_json::Error`, the error of a failed JSON read or write; it is only
/// carried, never looked into.
#[verifier::external_type_specification]
#[verifier::external_body]
pub struct ExJsonError(serde_json::Error);

/// The gRPC status codes that a failed call can carry.
#[derive(Clone, Copy, Debug, PartialEq, Eq, Structural)]
pub enum Code {
    Cancelled,
    Unknown,
    InvalidArgument,
    DeadlineExceeded,
    NotFound,
    AlreadyExists,
    PermissionDenied,
    ResourceExhausted,
    FailedPrecondition,
    Aborted,
    OutOfRange,
    Unimplemented,
    Internal,
    Unavailable,
    DataLoss,
    Unauthenticated,
}

/// The error a call ends with.
#[derive(Debug)]
pub struct Status {
    pub code: Code,
    pub message: String,
    pub source: Option<serde_json::Error>,
}

impl Status {
    /// A status with the given code and message, and no source.
    pub fn new(code: Code, message: &str) -> (status: Status)
        ensures
            status.code == code,
            status.message@ == message@,
            status.source is None,
    {
        Status { code, message: message.to_owned(), source: None }
    }

    /// The operation is not implemented or not supported by the server.
    pub fn unimplemented(message: &str) -> (status: Status)
        ensures
            status.code == Code::Unimplemented,
            status.message@ == message@,
            status.source is None,
    {
        Status::new(Code::Unimplemented, message)
    }

    /// An invariant of the underlying system has been broken.
    pub fn internal(message: &str) -> (status: Status)
        ensures
            status.code == Code::Internal,
            status.message@ == message@,
            status.source is None,
    {
        Status::new(Code::Internal, message)
    }

    /// Records the error that caused this status; code and message stay.
    pub fn set_source(&mut self, source: serde_json::Error)
        ensures
            final(self).code == old(self).code,
            final(self).message@ == old(self).message@,
            final(self).source == Some(source),
    {
        self.source = Some(source);
    }

    /// The status code.
    pub fn code(&self) -> (code: Code)
        ensures
            code == self.code,
    {
        self.code
    }

    /// The text of the message.
    pub fn message(&self) -> (message: &str)
        ensures
            message@ == self.message@,
    {
        self.message.as_str()
    }
}

} // verus!
