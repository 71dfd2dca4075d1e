use vstd::prelude::*;

verus! {

/// The failure taxonomy of the twin core.
///
/// Every fallible operation of the library reports one of these kinds
/// together with a safe, user-facing message; raw backend error text never
/// reaches a caller.
#[derive(Clone, Copy, Debug, PartialEq, Eq, Structural)]
pub enum ErrorKind {
    /// A twin, policy or model is missing, or is not owned by the caller.
    NotFound,
    /// An illegal status transition, or an operation on a twin whose
    /// status does not admit it.
    InvalidState,
    /// A usage quota was exhausted; the request was denied before any
    /// network call was made.
    QuotaExceeded,
    /// A container or network create or start step failed; partially
    /// provisioned twin state may remain.
    ResourceProvisioningError,
    /// No free host port was found within the bounded number of attempts.
    ResourceExhausted,
    /// The forwarded call to the twin failed or timed out.
    UpstreamUnavailable,
    /// The requested deployment kind has no provisioner.
    NotImplemented,
    /// A request payload failed validation.
    ValidationFailed,
    /// A persistence or cache failure, wrapped with a safe message.
    Internal,
}

impl ErrorKind {
    /// The HTTP status equivalent of this kind.
    pub fn status_code(self) -> (code: u16)
        ensures
            code == self.spec_status_code(),
    {
        match self {
            ErrorKind::NotFound => 404,
            ErrorKind::InvalidState => 400,
            ErrorKind::QuotaExceeded => 451,
            ErrorKind::ResourceProvisioningError => 500,
            ErrorKind::ResourceExhausted => 503,
            ErrorKind::UpstreamUnavailable => 502,
            ErrorKind::NotImplemented => 501,
            ErrorKind::ValidationFailed => 400,
            ErrorKind::Internal => 500,
        }
    }

    pub open spec fn spec_status_code(self) -> u16 {
        match self {
            ErrorKind::NotFound => 404,
            ErrorKind::InvalidState => 400,
            ErrorKind::QuotaExceeded => 451,
            ErrorKind::ResourceProvisioningError => 500,
            ErrorKind::ResourceExhausted => 503,
            ErrorKind::UpstreamUnavailable => 502,
            ErrorKind::NotImplemented => 501,
            ErrorKind::ValidationFailed => 400,
            ErrorKind::Internal => 500,
        }
    }
}

/// An error of the twin core: a kind and a safe user-facing message.
#[derive(Debug)]
pub struct AppError {
    pub kind: ErrorKind,
    pub message: String,
}

impl AppError {
    pub fn new(kind: ErrorKind, message: &str) -> (e: AppError)
        ensures
            e.kind() == kind,
            e.message_view() == message@,
    {
        AppError { kind, message: message.to_owned() }
    }

    pub open spec fn kind(self) -> ErrorKind {
        self.kind
    }

    pub open spec fn message_view(self) -> Seq<char> {
        self.message@
    }

    pub fn error_kind(&self) -> (k: ErrorKind)
        ensures
            k == self.kind(),
    {
        self.kind
    }

    /// The safe message; never raw backend error text.
    pub fn message(&self) -> (m: &str)
        ensures
            m@ == self.message_view(),
    {
        self.message.as_str()
    }

    /// The HTTP status equivalent of this error.
    pub fn status_code(&self) -> (code: u16)
        ensures
            code == self.kind().spec_status_code(),
    {
        self.kind.status_code()
    }
}

} // verus!
