//! The plain value types shared by the whole layer: the opaque handle, the
//! coarse runtime value kinds, and the token under which a native callback is
//! registered.

use vstd::prelude::*;

verus! {

/// The token of the host runtime's absence singleton (`nil`).  The model
/// never hands this token out for a freshly created value.
pub const NIL_TOKEN: u64 = 0;

/// The token of the runtime's base class object, present from the start.
/// It serves as the class of every class object the layer creates.
pub const BASE_CLASS_TOKEN: u64 = 1;

/// An opaque handle to a value owned and managed by the host runtime.
///
/// A handle is a fixed-width, copyable token.  It carries no ownership: the
/// host runtime's collector is the sole authority over the referenced
/// value's lifetime, and creating or dropping any number of handles to the
/// same value has no effect on it.
#[derive(Clone, Copy, Debug, PartialEq, Eq, Structural, Hash)]
pub struct Value {
    pub value: u64,
}

impl Value {
    /// True exactly when this handle is the absence singleton.
    pub open spec fn spec_is_nil(self) -> bool {
        self.value == NIL_TOKEN
    }

    /// Checks whether this handle is the absence singleton.
    pub fn is_nil(&self) -> (r: bool)
        ensures
            r == self.spec_is_nil(),
    {
        self.value == NIL_TOKEN
    }
}

/// The closed enumeration of coarse runtime value kinds, for low-level
/// branching when neither a full conversion nor a dynamic send is wanted.
#[derive(Clone, Copy, Debug, PartialEq, Eq, Structural)]
pub enum ValueType {
    Nil,
    Object,
    Class,
    Module,
    RString,
    Array,
    Hash,
    Symbol,
    Fixnum,
    True,
    False,
}

/// A native callback registered as a method.
///
/// To the host runtime a callback is nothing but a fixed-width token naming
/// native code; resolution stores and returns the token, and only the host's
/// dispatcher (see [`crate::dispatch::Dispatcher`]) can turn it back into a
/// call.  Registering under an equal token means registering the same native
/// function.
#[derive(Clone, Copy, Debug, PartialEq, Eq, Structural, Hash)]
pub struct Callback {
    pub id: u64,
}

} // verus!
