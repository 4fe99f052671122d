//! The wrapper for class-kind values: the registration target for
//! callbacks and the result of "class of" queries.

use vstd::prelude::*;

use crate::any_object::AnyObject;
use crate::object::Object;
use crate::object::Wrapper;
use crate::runtime::class_at;
use crate::runtime::is_class;
use crate::runtime::kind_at;
use crate::runtime::live;
use crate::runtime::singleton_at;
use crate::runtime::wf;
use crate::runtime::with_object;
use crate::runtime::Runtime;
use crate::runtime::RuntimeView;
use crate::types::Value;
use crate::types::ValueType;
use crate::types::BASE_CLASS_TOKEN;
use crate::verified_object::VerifiedObject;

verus! {

/// A handle denoting a class or a singleton class.
#[derive(Clone, Copy, Debug, PartialEq, Eq, Structural)]
pub struct Class {
    pub value: Value,
}

impl Wrapper for Class {
    open spec fn value_spec(&self) -> Value {
        self.value
    }

    fn value(&self) -> (v: Value)
        ensures
            v == self.value_spec(),
    {
        self.value
    }

    fn from_value(value: Value) -> (r: Self)
        ensures
            r.value_spec() == value,
    {
        Class { value }
    }

}

impl Object for Class {

}

impl From<Value> for Class {
    fn from(value: Value) -> (r: Class) {
        Class { value }
    }
}

impl vstd::std_specs::convert::FromSpecImpl<Value> for Class {
    open spec fn obeys_from_spec() -> bool {
        true
    }

    open spec fn from_spec(value: Value) -> Class {
        Class { value }
    }
}

impl VerifiedObject for Class {
    open spec fn accepts(rt: RuntimeView, value: Value) -> bool {
        kind_at(rt, value.value) == ValueType::Class
    }

    open spec fn error_message_spec() -> Seq<char> {
        "Error converting to Class"@
    }

    fn is_correct_type<T: Wrapper>(object: &T, vm: &Runtime) -> (r: bool)
        ensures
            r == Self::accepts(vm@, object.value_spec()),
    {
        vm.kind_of_any(object.value()) == ValueType::Class
    }

    fn error_message() -> (r: &'static str)
        ensures
            r@ == Self::error_message_spec(),
    {
        "Error converting to Class"
    }
}

impl Class {
    /// Asks the runtime for a fresh class.
    pub fn new(vm: &mut Runtime) -> (r: Class)
        requires
            wf(old(vm)@),
            old(vm)@.next_token < u64::MAX,
        ensures
            final(vm)@ == with_object(old(vm)@, BASE_CLASS_TOKEN, ValueType::Class, None),
            wf(final(vm)@),
            r.value.value == old(vm)@.next_token,
            is_class(final(vm)@, r.value.value),
            singleton_at(final(vm)@, r.value.value) is None,
            !r.value.spec_is_nil(),
    {
        let base = vm.base_class();
        let v = vm.new_object(base, ValueType::Class, None);
        Class { value: v }
    }

    /// Asks the runtime for a fresh instance of this class.
    pub fn new_instance(&self, vm: &mut Runtime) -> (r: AnyObject)
        requires
            wf(old(vm)@),
            is_class(old(vm)@, self.value.value),
            old(vm)@.next_token < u64::MAX,
        ensures
            final(vm)@ == with_object(old(vm)@, self.value.value, ValueType::Object, None),
            wf(final(vm)@),
            r.value.value == old(vm)@.next_token,
            live(final(vm)@, r.value.value),
            class_at(final(vm)@, r.value.value) == self.value.value,
            kind_at(final(vm)@, r.value.value) == ValueType::Object,
            singleton_at(final(vm)@, r.value.value) is None,
            !r.value.spec_is_nil(),
    {
        let v = vm.new_object(self.value, ValueType::Object, None);
        AnyObject { value: v }
    }
}

} // verus!
