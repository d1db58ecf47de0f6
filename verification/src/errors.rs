//! The error taxonomy of the library: a policy violation found while
//! validating a claims set, or a failure of the underlying serialization.

use vstd::prelude::*;

verus! {

/// Which rule an [`Error`] reports.
#[derive(Clone, Copy, Debug, PartialEq, Eq, Structural)]
pub enum ErrorKind {
    /// A policy invariant was violated: the expiry was not later than the
    /// issuance. Surfaced directly to the caller, never retried.
    Validation,
    /// The underlying JSON encoding failed. Not expected in practice, since
    /// every field is a plain scalar, but it must surface rather than panic.
    Serialization,
}

/// An error returned by the encoders, carrying its kind and a descriptive
/// message.
#[derive(Debug)]
pub struct Error {
    pub kind: ErrorKind,
    pub message: String,
}

impl Error {
    /// Build an error of the given kind with the given message.
    pub fn new(message: &str, kind: ErrorKind) -> (r: Error)
        ensures
            r.kind == kind,
            r.message@ == message@,
    {
        Error { kind, message: String::from_str(message) }
    }

    /// The descriptive message, for callers that log or display the error.
    pub fn message(&self) -> (r: &str)
        ensures
            r@ == self.message@,
    {
        self.message.as_str()
    }
}

} // verus!
