//! The generic, type-erased wrapper: the conversion source and target for
//! all dynamic dispatch.

use vstd::prelude::*;

use crate::object::Object;
use crate::object::Wrapper;
use crate::types::Value;
use crate::types::NIL_TOKEN;

verus! {

/// A typed wrapper with no type assertion at all — the universal wrapper
/// for dynamic values.
#[derive(Clone, Copy, Debug, PartialEq, Eq, Structural)]
pub struct AnyObject {
    pub value: Value,
}

impl Wrapper for AnyObject {
    open spec fn value_spec(&self) -> Value {
        self.value
    }

    fn value(&self) -> (v: Value)
        ensures
            v == self.value_spec(),
    {
        self.value
    }

    fn from_value(value: Value) -> (r: Self)
        ensures
            r.value_spec() == value,
    {
        AnyObject { value }
    }

}

impl Object for AnyObject {

}

impl From<Value> for AnyObject {
    fn from(value: Value) -> (r: AnyObject) {
        AnyObject { value }
    }
}

impl vstd::std_specs::convert::FromSpecImpl<Value> for AnyObject {
    open spec fn obeys_from_spec() -> bool {
        true
    }

    open spec fn from_spec(value: Value) -> AnyObject {
        AnyObject { value }
    }
}

impl AnyObject {
    /// The absence singleton, wrapped.
    pub fn nil() -> (r: AnyObject)
        ensures
            r.value.spec_is_nil(),
    {
        AnyObject { value: Value { value: NIL_TOKEN } }
    }
}

} // verus!
