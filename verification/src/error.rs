//! Error kinds and the failures of the link operations.

use vstd::prelude::*;
use vstd::string::*;
use crate::links::PaymentLinkStatus;

verus! {

/// HTTP status of a successful read or update.
pub const STATUS_OK: u16 = 200;

/// HTTP status of a successful creation.
pub const STATUS_CREATED: u16 = 201;

/// HTTP status of a malformed or inadmissible request.
pub const STATUS_BAD_REQUEST: u16 = 400;

/// HTTP status of a request by someone who may not make it.
pub const STATUS_FORBIDDEN: u16 = 403;

/// HTTP status of a request for something that does not exist.
pub const STATUS_NOT_FOUND: u16 = 404;

/// HTTP status of a request that collides with what exists.
pub const STATUS_CONFLICT: u16 = 409;

/// HTTP status of a failure inside the node.
pub const STATUS_INTERNAL: u16 = 500;

/// The category of a failure.
#[derive(Clone, Copy, Debug, PartialEq, Eq, Structural)]
pub enum ErrorKind {
    /// The request is malformed or breaks a rule on its parameters.
    Validation,
    /// The requester may not do what was asked.
    Authorization,
    /// No payment link has the given identifier.
    NotFound,
    /// The link is not in a state that admits the operation.
    StateConflict,
    /// The proof engine or the note store failed.
    Engine,
}

/// Why an operation on a payment link failed.
#[derive(Clone, Copy, Debug, PartialEq, Eq, Structural)]
pub enum LinkError {
    /// No link has the given identifier.
    NotFound,
    /// A link with the given identifier exists already.
    AlreadyExists,
    /// The expiry time of a new link is not in the future.
    AlreadyExpired,
    /// The link, as read now, has the given status, which is not pending.
    NotPending(PaymentLinkStatus),
    /// The requester is not the recipient recorded in the link.
    NotRecipient,
    /// The link has been claimed and cannot be cancelled any more.
    AlreadyClaimed,
}

impl LinkError {
    /// The category the failure falls under.
    pub open spec fn kind_of(self) -> ErrorKind {
        match self {
            LinkError::NotFound => ErrorKind::NotFound,
            LinkError::AlreadyExists => ErrorKind::StateConflict,
            LinkError::AlreadyExpired => ErrorKind::Validation,
            LinkError::NotPending(_) => ErrorKind::StateConflict,
            LinkError::NotRecipient => ErrorKind::Authorization,
            LinkError::AlreadyClaimed => ErrorKind::StateConflict,
        }
    }

    /// The HTTP status the failure is answered with.
    pub open spec fn status_of(self) -> u16 {
        match self {
            LinkError::NotFound => STATUS_NOT_FOUND,
            LinkError::AlreadyExists => STATUS_CONFLICT,
            LinkError::AlreadyExpired => STATUS_BAD_REQUEST,
            LinkError::NotPending(_) => STATUS_BAD_REQUEST,
            LinkError::NotRecipient => STATUS_FORBIDDEN,
            LinkError::AlreadyClaimed => STATUS_BAD_REQUEST,
        }
    }

    /// The message the failure is answered with. A state conflict names the
    /// status that stands in the way.
    pub open spec fn text_of(self) -> Seq<char> {
        match self {
            LinkError::NotFound => "Payment link not found"@,
            LinkError::AlreadyExists => "Payment link already exists"@,
            LinkError::AlreadyExpired => "Payment link already expired"@,
            LinkError::NotPending(status) => if status == PaymentLinkStatus::Expired {
                "Payment link has expired"@
            } else {
                "Payment link is already "@ + status.label()
            },
            LinkError::NotRecipient => "Only the creator can cancel this payment link"@,
            LinkError::AlreadyClaimed => "Cannot cancel a claimed payment link"@,
        }
    }

    /// The category the failure falls under.
    pub fn kind(&self) -> (kind: ErrorKind)
        ensures
            kind == self.kind_of(),
    {
        match self {
            LinkError::NotFound => ErrorKind::NotFound,
            LinkError::AlreadyExists => ErrorKind::StateConflict,
            LinkError::AlreadyExpired => ErrorKind::Validation,
            LinkError::NotPending(_) => ErrorKind::StateConflict,
            LinkError::NotRecipient => ErrorKind::Authorization,
            LinkError::AlreadyClaimed => ErrorKind::StateConflict,
        }
    }

    /// The HTTP status the failure is answered with.
    pub fn status_code(&self) -> (status: u16)
        ensures
            status == self.status_of(),
    {
        match self {
            LinkError::NotFound => STATUS_NOT_FOUND,
            LinkError::AlreadyExists => STATUS_CONFLICT,
            LinkError::AlreadyExpired => STATUS_BAD_REQUEST,
            LinkError::NotPending(_) => STATUS_BAD_REQUEST,
            LinkError::NotRecipient => STATUS_FORBIDDEN,
            LinkError::AlreadyClaimed => STATUS_BAD_REQUEST,
        }
    }

    /// The message the failure is answered with.
    pub fn message(&self) -> (text: String)
        ensures
            text@ == self.text_of(),
    {
        match self {
            LinkError::NotFound => "Payment link not found".to_string(),
            LinkError::AlreadyExists => "Payment link already exists".to_string(),
            LinkError::AlreadyExpired => "Payment link already expired".to_string(),
            LinkError::NotPending(status) => {
                if *status == PaymentLinkStatus::Expired {
                    "Payment link has expired".to_string()
                } else {
                    "Payment link is already ".to_string().concat(status.debug_name())
                }
            },
            LinkError::NotRecipient => "Only the creator can cancel this payment link".to_string(),
            LinkError::AlreadyClaimed => "Cannot cancel a claimed payment link".to_string(),
        }
    }
}

/// A failure as it is reported to a caller: its category, the HTTP status
/// and a message.
#[derive(Debug)]
pub struct ApiError {
    pub kind: ErrorKind,
    pub status: u16,
    pub message: String,
}

impl ApiError {
    /// The report of a failed link operation.
    pub fn from_link_error(err: LinkError) -> (report: ApiError)
        ensures
            report.kind == err.kind_of(),
            report.status == err.status_of(),
            report.message@ == err.text_of(),
    {
        ApiError { kind: err.kind(), status: err.status_code(), message: err.message() }
    }
}

} // verus!
