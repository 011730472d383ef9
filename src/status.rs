//! The status with which a Flight call fails.
use vstd::prelude::*;

verus! {

/// The gRPC status codes.
#[derive(Clone, Copy, Debug, PartialEq, Eq, Structural)]
pub enum Code {
    /// The call completed (gRPC code OK).
    Success,
    Cancelled,
    Unknown,
    InvalidArgument,
    DeadlineExceeded,
    NotFound,
    AlreadyExists,
    PermissionDenied,
    ResourceExhausted,
    FailedPrecondition,
    Aborted,
    OutOfRange,
    Unimplemented,
    Internal,
    Unavailable,
    DataLoss,
    Unauthenticated,
}

/// A failed call: a status code and a message for the client.
#[derive(Clone, Debug)]
pub struct Status {
    pub code: Code,
    pub message: String,
}

impl Status {
    pub fn new(code: Code, message: String) -> (r: Status)
        ensures
            r.code == code,
            r.message@ == message@,
    {
        Status { code, message }
    }

    /// The operation is not supported by this service.
    pub fn unimplemented(message: String) -> (r: Status)
        ensures
            r.code == Code::Unimplemented,
            r.message@ == message@,
    {
        Status::new(Code::Unimplemented, message)
    }

    /// The client sent a malformed or unrecognised request.
    pub fn invalid_argument(message: String) -> (r: Status)
        ensures
            r.code == Code::InvalidArgument,
            r.message@ == message@,
    {
        Status::new(Code::InvalidArgument, message)
    }
}

} // verus!
