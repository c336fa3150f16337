//! The errors of the two sides of document synchronisation.

use vstd::prelude::*;

verus! {

/// An error on the client side.
#[derive(Debug, PartialEq, Eq)]
pub enum FlowyError {
    /// The machinery around the document failed; the text describes the cause.
    Internal(String),
    /// A collaborator (data provider, consumer, decoder) reported a failure.
    Reported(String),
}

/// An error on the server side.
#[derive(Debug, PartialEq, Eq)]
pub enum CollaborateError {
    /// The machinery around the document failed; the text describes the cause.
    Internal(String),
}

/// The result of a server side operation.
pub type CollaborateResult<T> = Result<T, CollaborateError>;

/// The result of a client side operation.
pub type FlowyResult<T> = Result<T, FlowyError>;

/// A failure of operational transformation: a delta that does not decode, or a
/// revision that does not apply.
#[derive(Debug, PartialEq, Eq)]
pub struct OTError {
    /// The failure as it reads in a log.
    pub text: String,
}

impl FlowyError {
    /// The error that stands for a failure described by `cause`.
    pub fn internal_error(cause: String) -> (e: FlowyError)
        ensures
            e == FlowyError::Internal(cause),
    {
        FlowyError::Internal(cause)
    }
}

impl CollaborateError {
    /// The error that stands for a failure described by `cause`.
    pub fn internal_error(cause: String) -> (e: CollaborateError)
        ensures
            e == CollaborateError::Internal(cause),
    {
        CollaborateError::Internal(cause)
    }
}

} // verus!
