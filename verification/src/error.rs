//! Failure classification shared by every capability, and the
//! transport-level status that a client sees.

use vstd::prelude::*;
use vstd::string::*;

verus! {

/// The class of a capability failure.
#[derive(Clone, Copy, Debug, PartialEq, Eq, Structural)]
pub enum ErrorCode {
    /// Catch-all; never retried.
    Unknown,
    /// The backend lacks the capability.
    NotImplemented,
    /// Malformed or out-of-range request content.
    InvalidArgument,
    /// The underlying device reported a fault or did not answer.
    HardwareFailure,
    /// The operation exceeded its expected bound.
    Timeout,
    /// A permission or safety interlock denied the call.
    Unauthorized,
}

impl ErrorCode {
    /// Only device faults and timeouts may sensibly be repeated by a caller.
    pub open spec fn spec_is_retryable(self) -> bool {
        self == ErrorCode::HardwareFailure || self == ErrorCode::Timeout
    }

    /// Whether a caller may sensibly repeat the failed call.
    #[verifier::when_used_as_spec(spec_is_retryable)]
    pub fn is_retryable(self) -> (r: bool)
        ensures
            r == self.spec_is_retryable(),
    {
        match self {
            ErrorCode::HardwareFailure => true,
            ErrorCode::Timeout => true,
            _ => false,
        }
    }
}

/// A classified failure as a pair of class and detail.
pub struct ErrorView {
    pub code: ErrorCode,
    pub message: Seq<char>,
}

/// A classified failure as it is reported inside a response.
#[derive(Debug)]
pub struct Error {
    pub code: ErrorCode,
    pub message: String,
}

impl View for Error {
    type V = ErrorView;

    open spec fn view(&self) -> ErrorView {
        ErrorView { code: self.code, message: self.message@ }
    }
}

impl Clone for Error {
    fn clone(&self) -> (r: Self)
        ensures
            r@ == self@,
    {
        Error { code: self.code, message: self.message.clone() }
    }
}

/// A classified failure returned by a capability operation.
#[derive(Debug)]
pub enum HalError {
    Unknown(String),
    NotImplemented(String),
    InvalidArgument(String),
    HardwareFailure(String),
    Timeout(String),
    Unauthorized(String),
}

impl View for HalError {
    type V = ErrorView;

    open spec fn view(&self) -> ErrorView {
        match self {
            HalError::Unknown(m) => ErrorView { code: ErrorCode::Unknown, message: m@ },
            HalError::NotImplemented(m) => ErrorView {
                code: ErrorCode::NotImplemented,
                message: m@,
            },
            HalError::InvalidArgument(m) => ErrorView {
                code: ErrorCode::InvalidArgument,
                message: m@,
            },
            HalError::HardwareFailure(m) => ErrorView {
                code: ErrorCode::HardwareFailure,
                message: m@,
            },
            HalError::Timeout(m) => ErrorView { code: ErrorCode::Timeout, message: m@ },
            HalError::Unauthorized(m) => ErrorView { code: ErrorCode::Unauthorized, message: m@ },
        }
    }
}

impl Clone for HalError {
    fn clone(&self) -> (r: Self)
        ensures
            r@ == self@,
    {
        HalError::new(self.code(), self.message())
    }
}

impl HalError {
    /// A failure of class `code` with detail `message`.
    pub fn new(code: ErrorCode, message: String) -> (e: HalError)
        ensures
            e@ == (ErrorView { code, message: message@ }),
    {
        match code {
            ErrorCode::Unknown => HalError::Unknown(message),
            ErrorCode::NotImplemented => HalError::NotImplemented(message),
            ErrorCode::InvalidArgument => HalError::InvalidArgument(message),
            ErrorCode::HardwareFailure => HalError::HardwareFailure(message),
            ErrorCode::Timeout => HalError::Timeout(message),
            ErrorCode::Unauthorized => HalError::Unauthorized(message),
        }
    }

    /// The class of this failure.
    pub fn code(&self) -> (c: ErrorCode)
        ensures
            c == self@.code,
    {
        match self {
            HalError::Unknown(_) => ErrorCode::Unknown,
            HalError::NotImplemented(_) => ErrorCode::NotImplemented,
            HalError::InvalidArgument(_) => ErrorCode::InvalidArgument,
            HalError::HardwareFailure(_) => ErrorCode::HardwareFailure,
            HalError::Timeout(_) => ErrorCode::Timeout,
            HalError::Unauthorized(_) => ErrorCode::Unauthorized,
        }
    }

    /// The detail carried by this failure.
    pub fn message(&self) -> (m: String)
        ensures
            m@ == self@.message,
    {
        match self {
            HalError::Unknown(m) => m.clone(),
            HalError::NotImplemented(m) => m.clone(),
            HalError::InvalidArgument(m) => m.clone(),
            HalError::HardwareFailure(m) => m.clone(),
            HalError::Timeout(m) => m.clone(),
            HalError::Unauthorized(m) => m.clone(),
        }
    }

    /// The same failure as it is reported inside a response.
    pub fn to_error(&self) -> (e: Error)
        ensures
            e@ == self@,
    {
        Error { code: self.code(), message: self.message() }
    }

    /// The same class of failure, its detail prefixed by what was being
    /// attempted: `context`, a colon, a space, then the detail as it was.
    pub fn with_context(&self, context: &str) -> (e: HalError)
        ensures
            e@ == wrapped(context@, self@),
    {
        let mut text = String::from_str(context);
        text.append(": ");
        let detail = self.message();
        text.append(detail.as_str());
        HalError::new(self.code(), text)
    }
}

/// A failure with its detail prefixed by the attempted operation.
pub open spec fn wrapped(context: Seq<char>, e: ErrorView) -> ErrorView {
    ErrorView { code: e.code, message: context + ": "@ + e.message }
}

/// The class of a transport-level failure.
#[derive(Clone, Copy, Debug, PartialEq, Eq, Structural)]
pub enum StatusCode {
    Unknown,
    InvalidArgument,
    DeadlineExceeded,
    NotFound,
    PermissionDenied,
    /// The request cannot be served in the state the system is in.
    FailedPrecondition,
    Unimplemented,
    Internal,
}

/// The transport class that stands for a capability failure class. Distinct
/// failure classes map to distinct transport classes.
pub open spec fn spec_status_code_of(code: ErrorCode) -> StatusCode {
    match code {
        ErrorCode::Unknown => StatusCode::Unknown,
        ErrorCode::NotImplemented => StatusCode::Unimplemented,
        ErrorCode::InvalidArgument => StatusCode::InvalidArgument,
        ErrorCode::HardwareFailure => StatusCode::Internal,
        ErrorCode::Timeout => StatusCode::DeadlineExceeded,
        ErrorCode::Unauthorized => StatusCode::PermissionDenied,
    }
}

/// The transport class that stands for a capability failure class.
#[verifier::when_used_as_spec(spec_status_code_of)]
pub fn status_code_of(code: ErrorCode) -> (s: StatusCode)
    ensures
        s == spec_status_code_of(code),
{
    match code {
        ErrorCode::Unknown => StatusCode::Unknown,
        ErrorCode::NotImplemented => StatusCode::Unimplemented,
        ErrorCode::InvalidArgument => StatusCode::InvalidArgument,
        ErrorCode::HardwareFailure => StatusCode::Internal,
        ErrorCode::Timeout => StatusCode::DeadlineExceeded,
        ErrorCode::Unauthorized => StatusCode::PermissionDenied,
    }
}

/// The failure class is recoverable from the transport class: no two
/// capability failure classes share a transport class.
pub proof fn lemma_classification_preserved(a: ErrorCode, b: ErrorCode)
    requires
        spec_status_code_of(a) == spec_status_code_of(b),
    ensures
        a == b,
{
}

/// A transport-level failure as a pair of class and message.
pub struct StatusView {
    pub code: StatusCode,
    pub message: Seq<char>,
}

/// A transport-level failure: what a client sees when a request fails.
#[derive(Debug)]
pub struct Status {
    pub code: StatusCode,
    pub message: String,
}

impl View for Status {
    type V = StatusView;

    open spec fn view(&self) -> StatusView {
        StatusView { code: self.code, message: self.message@ }
    }
}

impl Clone for Status {
    fn clone(&self) -> (r: Self)
        ensures
            r@ == self@,
    {
        Status { code: self.code, message: self.message.clone() }
    }
}

/// The client-visible status for a capability failure met while doing
/// `context`: the class is carried over, and the message is the context, a
/// comma, a space, then the failure's own detail.
pub open spec fn failure_status(context: Seq<char>, e: ErrorView) -> StatusView {
    StatusView { code: spec_status_code_of(e.code), message: context + ", "@ + e.message }
}

/// Whether `status` is the client-visible status of some capability
/// failure met while doing `context`.
pub open spec fn is_failure_of(status: StatusView, context: Seq<char>) -> bool {
    exists|e: ErrorView| status == #[trigger] failure_status(context, e)
}

impl Status {
    /// A status of class `code` with the given message.
    pub fn new(code: StatusCode, message: &str) -> (s: Status)
        ensures
            s@ == (StatusView { code, message: message@ }),
    {
        Status { code, message: String::from_str(message) }
    }

    /// An internal failure with the given message.
    pub fn internal(message: &str) -> (s: Status)
        ensures
            s@ == (StatusView { code: StatusCode::Internal, message: message@ }),
    {
        Status::new(StatusCode::Internal, message)
    }

    /// A lookup failure with the given message.
    pub fn not_found(message: &str) -> (s: Status)
        ensures
            s@ == (StatusView { code: StatusCode::NotFound, message: message@ }),
    {
        Status::new(StatusCode::NotFound, message)
    }

    /// A refusal of an operation that is not offered.
    pub fn unimplemented(message: &str) -> (s: Status)
        ensures
            s@ == (StatusView { code: StatusCode::Unimplemented, message: message@ }),
    {
        Status::new(StatusCode::Unimplemented, message)
    }

    /// A refusal of a malformed request.
    pub fn invalid_argument(message: &str) -> (s: Status)
        ensures
            s@ == (StatusView { code: StatusCode::InvalidArgument, message: message@ }),
    {
        Status::new(StatusCode::InvalidArgument, message)
    }

    /// The client-visible status for a capability failure met while doing
    /// `context`.
    pub fn from_failure(context: &str, e: &HalError) -> (s: Status)
        ensures
            s@ == failure_status(context@, e@),
            is_failure_of(s@, context@),
    {
        let mut text = String::from_str(context);
        text.append(", ");
        let detail = e.message();
        text.append(detail.as_str());
        Status { code: status_code_of(e.code()), message: text }
    }
}

/// Whether `r` is the outcome of a request whose capability call, made
/// while doing `context`, ended in `outcome`: success is passed through, a
/// failure becomes its client-visible status.
pub open spec fn replied<T>(
    context: Seq<char>,
    outcome: Result<T, HalError>,
    r: Result<T, Status>,
) -> bool {
    match outcome {
        Ok(v) => r == Ok::<T, Status>(v),
        Err(e) => r is Err && r->Err_0@ == failure_status(context, e@),
    }
}

/// Turns the outcome of a capability call into the outcome of a request:
/// success is passed through, a failure becomes its client-visible status.
pub fn reply<T>(context: &str, outcome: Result<T, HalError>) -> (r: Result<T, Status>)
    ensures
        replied(context@, outcome, r),
        r is Err ==> is_failure_of(r->Err_0@, context@),
{
    match outcome {
        Ok(v) => Ok(v),
        Err(e) => Err(Status::from_failure(context, &e)),
    }
}

} // verus!
