//! The opt-in verification trait for safe downcasts.
//!
//! A wrapper type's existence proves nothing about its handle's runtime
//! class; only a check against the runtime's own records does.  A type
//! opts into the safe conversion path by stating, as a predicate over the
//! modelled runtime state, when a handle really is one of its values.

use vstd::prelude::*;

use crate::object::Wrapper;
use crate::runtime::Runtime;
use crate::runtime::RuntimeView;
use crate::types::Value;

verus! {

/// Enables `try_convert_to::<Self>()`: a runtime-checked downcast from any
/// wrapper to `Self`.
pub trait VerifiedObject: Wrapper {
    /// The verification predicate: whether the runtime state records
    /// `value` as a value of this wrapper type.  It speaks of the handle's
    /// runtime class, never of any static wrapper type.
    spec fn accepts(rt: RuntimeView, value: Value) -> bool;

    /// The fixed message carried by the `TypeError` when verification
    /// fails.
    spec fn error_message_spec() -> Seq<char>;

    /// Checks the candidate's handle against the runtime's records.
    fn is_correct_type<T: Wrapper>(object: &T, vm: &Runtime) -> (r: bool)
        ensures
            r == Self::accepts(vm@, object.value_spec()),
    ;

    /// The fixed, human-readable description used when verification fails.
    fn error_message() -> (r: &'static str)
        ensures
            r@ == Self::error_message_spec(),
    ;
}

} // verus!
