//! The host runtime's native-call primitive.
//!
//! Resolution (which callback a name reaches) is modelled and verified in
//! [`crate::runtime`].  Actually running the native code a [`Callback`]
//! token names is the one step only the host's dispatcher can perform, so
//! it stands behind this trait, which the embedding program implements.
//! Native code may read and change any runtime state before returning —
//! re-entry into this layer included — so nothing is promised of its
//! result.  The one obligation an implementor owes is the runtime's own:
//! a callback, however reentrant, must not corrupt the shared state, so
//! `dispatch` receives a valid state and must leave a valid state.

use vstd::prelude::*;

use crate::any_object::AnyObject;
use crate::runtime::wf;
use crate::runtime::Runtime;
use crate::types::Callback;

verus! {

/// Implemented by the embedding program: runs the native function that
/// `callback` names, with the call's receiver and positional arguments,
/// and returns the call's result.
///
/// The contract is the callback contract of the layer: whatever the
/// native code reads, writes or re-enters, it must hand the runtime state
/// back valid.
pub trait Dispatcher {
    fn dispatch(
        &self,
        callback: Callback,
        itself: AnyObject,
        arguments: Vec<AnyObject>,
        vm: &mut Runtime,
    ) -> (r: AnyObject)
        requires
            wf(old(vm)@),
        ensures
            wf(final(vm)@),
    ;
}

} // verus!
