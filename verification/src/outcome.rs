//! Tagged two-variant result carried across the boundary.

use vstd::prelude::*;

verus! {

/// The result of every boundary operation that can fail.
///
/// Exactly one variant is populated, by construction: a success payload
/// (a compiled program handle, or an owned JSON string) or an owned,
/// human-readable error message.  The receiver must branch on the tag
/// before touching the payload.
pub enum Outcome<T> {
    Success(T),
    Failure(String),
}

impl<T> Outcome<T> {
    /// True exactly when this outcome carries the success payload.
    pub fn is_success(&self) -> (r: bool)
        ensures
            r == (self is Success),
    {
        match self {
            Outcome::Success(_) => true,
            Outcome::Failure(_) => false,
        }
    }
}

} // verus!
