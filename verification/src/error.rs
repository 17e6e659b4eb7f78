//! The ways in which resolving a release can fail.

use vstd::prelude::*;

verus! {

/// Why a release could not be resolved.
#[derive(Clone, Debug, PartialEq, Eq)]
pub enum RzupError {
    /// The release index refused the request because too many were made; the
    /// text tells the user to try again later.
    RateLimited(String),
    /// A release tag did not denote a version; the text is the part of the tag
    /// that could not be read.
    InvalidVersion(String),
    /// The request or the decoding of its answer failed; the text is the
    /// cause, as the caller reported it.
    Other(String),
}

/// The mathematical content of an `RzupError`.
pub enum Failure {
    RateLimited(Seq<char>),
    InvalidVersion(Seq<char>),
    Other(Seq<char>),
}

impl View for RzupError {
    type V = Failure;

    open spec fn view(&self) -> Failure {
        match self {
            RzupError::RateLimited(hint) => Failure::RateLimited(hint@),
            RzupError::InvalidVersion(text) => Failure::InvalidVersion(text@),
            RzupError::Other(cause) => Failure::Other(cause@),
        }
    }
}

} // verus!
