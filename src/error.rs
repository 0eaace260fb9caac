//! Errors of the repository operations, tagged by kind.
use vstd::prelude::*;

verus! {

/// What went wrong, so that a caller can branch without matching on text.
#[derive(Clone, Copy, Debug, PartialEq, Eq, Structural)]
pub enum ErrorKind {
    /// A required connection parameter is missing or malformed.
    Configuration,
    /// The storage engine could not be reached or refused the credentials.
    Connection,
    /// Caller-supplied input violates a precondition.
    Validation,
    /// The requested entity or relation does not exist.
    NotFound,
    /// A write violates a storage-level constraint.
    Integrity,
}

/// An error of a repository operation: its kind and a readable message.
#[derive(Debug)]
pub struct StringError {
    pub kind: ErrorKind,
    pub message: String,
}

impl StringError {
    pub fn new(kind: ErrorKind, message: &str) -> (r: Self)
        ensures
            r.kind == kind,
            r.message@ == message@,
    {
        StringError { kind, message: message.to_owned() }
    }

    /// The readable message.
    pub fn message(&self) -> (r: &str)
        ensures
            r@ == self.message@,
    {
        self.message.as_str()
    }
}

} // verus!
