//! What can go wrong, and how it is reported.

use vstd::prelude::*;

verus! {

/// A failure, in the classes that the platform distinguishes.
#[derive(Clone, Copy, Debug, PartialEq, Eq, Structural)]
pub enum Failure {
    /// A general failure.
    Fail,
    /// The request does not fit the state that the fan is in.
    InvalidState,
    /// Nothing of that name could be found.
    NotFound,
    /// A server gave an answer that cannot be used.
    InvalidResponse,
    /// A firmware image cannot be right.
    ImageInvalid,
    /// An error code that the platform itself gave.
    Platform(i32),
}

} // verus!
