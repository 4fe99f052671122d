//! The wrapper for string-kind values.

use vstd::prelude::*;

use crate::object::Object;
use crate::object::Wrapper;
use crate::runtime::kind_at;
use crate::runtime::live;
use crate::runtime::singleton_at;
use crate::runtime::text_at;
use crate::runtime::wf;
use crate::runtime::with_object;
use crate::runtime::Runtime;
use crate::runtime::RuntimeView;
use crate::types::Value;
use crate::types::ValueType;
use crate::types::BASE_CLASS_TOKEN;
use crate::verified_object::VerifiedObject;

verus! {

/// A handle expected to denote a string-kind value.
#[derive(Clone, Copy, Debug, PartialEq, Eq, Structural)]
pub struct RString {
    pub value: Value,
}

impl Wrapper for RString {
    open spec fn value_spec(&self) -> Value {
        self.value
    }

    fn value(&self) -> (v: Value)
        ensures
            v == self.value_spec(),
    {
        self.value
    }

    fn from_value(value: Value) -> (r: Self)
        ensures
            r.value_spec() == value,
    {
        RString { value }
    }

}

impl Object for RString {

}

impl From<Value> for RString {
    fn from(value: Value) -> (r: RString) {
        RString { value }
    }
}

impl vstd::std_specs::convert::FromSpecImpl<Value> for RString {
    open spec fn obeys_from_spec() -> bool {
        true
    }

    open spec fn from_spec(value: Value) -> RString {
        RString { value }
    }
}

impl VerifiedObject for RString {
    open spec fn accepts(rt: RuntimeView, value: Value) -> bool {
        kind_at(rt, value.value) == ValueType::RString
    }

    open spec fn error_message_spec() -> Seq<char> {
        "Error converting to String"@
    }

    fn is_correct_type<T: Wrapper>(object: &T, vm: &Runtime) -> (r: bool)
        ensures
            r == Self::accepts(vm@, object.value_spec()),
    {
        vm.kind_of_any(object.value()) == ValueType::RString
    }

    fn error_message() -> (r: &'static str)
        ensures
            r@ == Self::error_message_spec(),
    {
        "Error converting to String"
    }
}

impl RString {
    /// Asks the runtime for a fresh string value with the given content.
    pub fn new(vm: &mut Runtime, string: &str) -> (r: RString)
        requires
            wf(old(vm)@),
            old(vm)@.next_token < u64::MAX,
        ensures
            final(vm)@ == with_object(
                old(vm)@,
                BASE_CLASS_TOKEN,
                ValueType::RString,
                Some(string@),
            ),
            wf(final(vm)@),
            r.value.value == old(vm)@.next_token,
            live(final(vm)@, r.value.value),
            kind_at(final(vm)@, r.value.value) == ValueType::RString,
            text_at(final(vm)@, r.value.value) == Some(string@),
            singleton_at(final(vm)@, r.value.value) is None,
            !r.value.spec_is_nil(),
    {
        let base = vm.base_class();
        let v = vm.new_object(base, ValueType::RString, Some(string.to_owned()));
        RString { value: v }
    }

    /// The character content the runtime records for this string value.
    pub fn to_string(&self, vm: &Runtime) -> (r: String)
        requires
            live(vm@, self.value.value),
            text_at(vm@, self.value.value) is Some,
        ensures
            Some(r@) == text_at(vm@, self.value.value),
    {
        match vm.text_of(self.value) {
            Some(s) => s,
            None => unreached(),
        }
    }
}

} // verus!
