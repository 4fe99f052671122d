//! The error taxonomy of the layer.
//!
//! Only the verified conversion produces an error value; everything else
//! either cannot fail or propagates through the host runtime's own
//! control-flow mechanism, outside this layer.

use vstd::prelude::*;

verus! {

/// A failure of the safe, runtime-checked conversion: the candidate
/// handle's runtime class did not match the target wrapper type's
/// verification predicate.  Carries the target type's fixed message.
#[derive(Debug, PartialEq, Eq)]
pub enum Error {
    TypeError(String),
}

impl Error {
    /// The message carried by this error.
    pub open spec fn message(&self) -> Seq<char> {
        match self {
            Error::TypeError(s) => s@,
        }
    }

    /// The carried message, for reporting.
    pub fn message_str(&self) -> (r: &str)
        ensures
            r@ == self.message(),
    {
        match self {
            Error::TypeError(s) => s.as_str(),
        }
    }
}

} // verus!
