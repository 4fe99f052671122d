//! The wrapper for container-kind values.
//!
//! The layer itself never reads a container's elements — element access
//! goes through dynamic dispatch like any other method — so the model
//! records only the value's kind.

use vstd::prelude::*;

use crate::object::Object;
use crate::object::Wrapper;
use crate::runtime::kind_at;
use crate::runtime::live;
use crate::runtime::singleton_at;
use crate::runtime::wf;
use crate::runtime::with_object;
use crate::runtime::Runtime;
use crate::runtime::RuntimeView;
use crate::types::Value;
use crate::types::ValueType;
use crate::types::BASE_CLASS_TOKEN;
use crate::verified_object::VerifiedObject;

verus! {

/// A handle expected to denote a container-kind value.
#[derive(Clone, Copy, Debug, PartialEq, Eq, Structural)]
pub struct Array {
    pub value: Value,
}

impl Wrapper for Array {
    open spec fn value_spec(&self) -> Value {
        self.value
    }

    fn value(&self) -> (v: Value)
        ensures
            v == self.value_spec(),
    {
        self.value
    }

    fn from_value(value: Value) -> (r: Self)
        ensures
            r.value_spec() == value,
    {
        Array { value }
    }

}

impl Object for Array {

}

impl From<Value> for Array {
    fn from(value: Value) -> (r: Array) {
        Array { value }
    }
}

impl vstd::std_specs::convert::FromSpecImpl<Value> for Array {
    open spec fn obeys_from_spec() -> bool {
        true
    }

    open spec fn from_spec(value: Value) -> Array {
        Array { value }
    }
}

impl VerifiedObject for Array {
    open spec fn accepts(rt: RuntimeView, value: Value) -> bool {
        kind_at(rt, value.value) == ValueType::Array
    }

    open spec fn error_message_spec() -> Seq<char> {
        "Error converting to Array"@
    }

    fn is_correct_type<T: Wrapper>(object: &T, vm: &Runtime) -> (r: bool)
        ensures
            r == Self::accepts(vm@, object.value_spec()),
    {
        vm.kind_of_any(object.value()) == ValueType::Array
    }

    fn error_message() -> (r: &'static str)
        ensures
            r@ == Self::error_message_spec(),
    {
        "Error converting to Array"
    }
}

impl Array {
    /// Asks the runtime for a fresh, empty container value.
    pub fn new(vm: &mut Runtime) -> (r: Array)
        requires
            wf(old(vm)@),
            old(vm)@.next_token < u64::MAX,
        ensures
            final(vm)@ == with_object(old(vm)@, BASE_CLASS_TOKEN, ValueType::Array, None),
            wf(final(vm)@),
            r.value.value == old(vm)@.next_token,
            live(final(vm)@, r.value.value),
            kind_at(final(vm)@, r.value.value) == ValueType::Array,
            singleton_at(final(vm)@, r.value.value) is None,
            !r.value.spec_is_nil(),
    {
        let base = vm.base_class();
        let v = vm.new_object(base, ValueType::Array, None);
        Array { value: v }
    }
}

} // verus!
