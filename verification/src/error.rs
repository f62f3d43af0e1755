//! The error taxonomy of the write path, and the classifier that turns a
//! non-success HTTP status into a typed error.

use vstd::prelude::*;
use vstd::string::StringExecFns;

use crate::digits::{dec_digits, u64_to_string};

verus! {

/// The kinds of failure the write path distinguishes.
#[derive(Clone, Copy, Debug, PartialEq, Eq, Structural)]
pub enum ErrorKind {
    /// A required response field (an ETag, a Content-Length, an upload id)
    /// was absent despite a success status.  Always fatal to the current
    /// operation and never retried.
    InvariantViolation,
    /// The addressed object does not exist.
    NotFound,
    /// The service refused the request for lack of permission.
    PermissionDenied,
    /// A precondition did not hold at the service, e.g. an append offset
    /// that does not match the object's current length.
    ConditionNotMatch,
    /// Any other non-success status reported by the backend.
    Backend,
    /// The request produced no status at all (network or I/O failure).
    Transport,
}

/// A typed error surfaced to callers of the write path.
#[derive(Debug)]
pub struct ObsError {
    pub kind: ErrorKind,
    /// The HTTP status that produced the error, where one was obtained.
    pub status: Option<u16>,
    pub message: String,
}

/// The classifier's verdict for a non-success HTTP status.
pub open spec fn classify_kind(status: u16) -> ErrorKind {
    if status == 404 {
        ErrorKind::NotFound
    } else if status == 403 {
        ErrorKind::PermissionDenied
    } else if status == 409 || status == 412 {
        ErrorKind::ConditionNotMatch
    } else {
        ErrorKind::Backend
    }
}

impl ObsError {
    /// Turns a non-success response status into a typed error; never
    /// panics, whatever the status.
    pub fn classified(status: u16) -> (e: ObsError)
        ensures
            e.kind == classify_kind(status),
            e.status == Some(status),
            e.message@ == "unexpected response status "@ + dec_digits(status as nat),
    {
        let kind = if status == 404 {
            ErrorKind::NotFound
        } else if status == 403 {
            ErrorKind::PermissionDenied
        } else if status == 409 || status == 412 {
            ErrorKind::ConditionNotMatch
        } else {
            ErrorKind::Backend
        };
        let mut message = String::from_str("unexpected response status ");
        let digits = u64_to_string(status as u64);
        message.append(digits.as_str());
        ObsError { kind, status: Some(status), message }
    }

    /// An error for a required response field that is absent despite a
    /// success status.
    pub fn invariant_violation(message: &str) -> (e: ObsError)
        ensures
            e.kind == ErrorKind::InvariantViolation,
            e.status is None,
            e.message@ == message@,
    {
        ObsError { kind: ErrorKind::InvariantViolation, status: None, message: String::from_str(message) }
    }

    /// An error for a request that never produced a status.
    pub fn transport(message: &str) -> (e: ObsError)
        ensures
            e.kind == ErrorKind::Transport,
            e.status is None,
            e.message@ == message@,
    {
        ObsError { kind: ErrorKind::Transport, status: None, message: String::from_str(message) }
    }

    /// A readable rendering of the error, for diagnostics.
    pub fn describe(&self) -> (s: String)
        ensures
            s@ == self.message@,
    {
        self.message.clone()
    }
}

} // verus!
