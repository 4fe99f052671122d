//! The capability trait: everything a typed wrapper can do with its handle.

use vstd::prelude::*;

use crate::any_object::AnyObject;
use crate::class::Class;
use crate::dispatch::Dispatcher;
use crate::error::Error;
use crate::runtime::class_at;
use crate::runtime::is_class;
use crate::runtime::ivar_or_nil;
use crate::runtime::kind_at;
use crate::runtime::live;
use crate::runtime::responds;
use crate::runtime::singleton_after;
use crate::runtime::wf;
use crate::runtime::with_ivar;
use crate::runtime::with_method;
use crate::runtime::with_singleton;
use crate::runtime::Runtime;
use crate::types::Callback;
use crate::types::Value;
use crate::types::ValueType;
use crate::verified_object::VerifiedObject;

verus! {

/// A typed wrapper: a nominal type holding exactly one handle, from which
/// the handle can always be recovered and which can always be built from a
/// handle.
///
/// Building a wrapper asserts nothing about the handle's runtime class;
/// see [`Object::try_convert_to`] for the checked conversion.
pub trait Wrapper: Sized {
    /// The handle this wrapper holds.
    spec fn value_spec(&self) -> Value;

    /// Returns the internal handle of the current object.
    fn value(&self) -> (v: Value)
        ensures
            v == self.value_spec(),
    ;

    /// Wraps a handle as `Self`.
    fn from_value(value: Value) -> (r: Self)
        ensures
            r.value_spec() == value,
    ;
}

/// Wraps a handle as any wrapper type; the reinterpretation step shared by
/// the unchecked and the checked conversion paths.
pub fn convert_handle<T: Wrapper>(value: Value) -> (r: T)
    ensures
        r.value_spec() == value,
{
    T::from_value(value)
}

/// The capability trait implemented by every typed wrapper.
///
/// All behaviour below is uniform over the wrapped handle.  Operations
/// that read or change runtime-managed state take the modelled [`Runtime`]
/// explicitly — the host, not the wrapper, owns that state.
pub trait Object: Wrapper {
    /// Returns the class of the current object.
    fn class(&self, vm: &Runtime) -> (r: Class)
        requires
            live(vm@, self.value_spec().value),
        ensures
            r.value.value == class_at(vm@, self.value_spec().value),
    {
        let v = vm.class_of(self.value());
        Class { value: v }
    }

    /// Returns the singleton class of the current object, creating it on
    /// first use.
    fn singleton_class(&self, vm: &mut Runtime) -> (r: Class)
        requires
            wf(old(vm)@),
            live(old(vm)@, self.value_spec().value),
            old(vm)@.next_token < u64::MAX,
        ensures
            final(vm)@ == with_singleton(old(vm)@, self.value_spec().value),
            wf(final(vm)@),
            r.value.value == singleton_after(old(vm)@, self.value_spec().value),
            is_class(final(vm)@, r.value.value),
    {
        let v = vm.singleton_class_of(self.value());
        Class { value: v }
    }

    /// Wraps calls to the object: applies `f` to the wrapper and hands the
    /// result back, for fluent, nested definition of classes and methods.
    fn define<F: FnOnce(Self) -> Self>(self, f: F) -> (r: Self)
        requires
            call_requires(f, (self,)),
        ensures
            call_ensures(f, (self,), r),
    {
        f(self)
    }

    /// Defines an instance method on the receiver, which must be a class
    /// (or a singleton class).  Re-registration under the same name
    /// overwrites: the last write wins.
    ///
    /// The host runtime raises when a method is defined directly on a
    /// value that is not class-kind; that input is excluded here.
    fn define_method(&mut self, vm: &mut Runtime, name: &str, callback: Callback)
        requires
            wf(old(vm)@),
            is_class(old(vm)@, old(self).value_spec().value),
        ensures
            final(vm)@ == with_method(old(vm)@, old(self).value_spec().value, name@, callback),
            wf(final(vm)@),
            final(self).value_spec() == old(self).value_spec(),
    {
        let v = self.value();
        vm.define_method(v, name, callback);
    }

    /// Defines a class method of a class, or a singleton method of any
    /// object: the registration target is the receiver's singleton class,
    /// created on first use.  Last write wins.
    fn define_singleton_method(&mut self, vm: &mut Runtime, name: &str, callback: Callback)
        requires
            wf(old(vm)@),
            live(old(vm)@, old(self).value_spec().value),
            old(vm)@.next_token < u64::MAX,
        ensures
            final(vm)@ == with_method(
                with_singleton(old(vm)@, old(self).value_spec().value),
                singleton_after(old(vm)@, old(self).value_spec().value),
                name@,
                callback,
            ),
            wf(final(vm)@),
            final(self).value_spec() == old(self).value_spec(),
    {
        let v = self.value();
        vm.define_singleton_method(v, name, callback);
    }

    /// An alias for [`Object::define_method`].
    fn def(&mut self, vm: &mut Runtime, name: &str, callback: Callback)
        requires
            wf(old(vm)@),
            is_class(old(vm)@, old(self).value_spec().value),
        ensures
            final(vm)@ == with_method(old(vm)@, old(self).value_spec().value, name@, callback),
            wf(final(vm)@),
            final(self).value_spec() == old(self).value_spec(),
    {
        self.define_method(vm, name, callback);
    }

    /// An alias for [`Object::define_singleton_method`].
    fn def_self(&mut self, vm: &mut Runtime, name: &str, callback: Callback)
        requires
            wf(old(vm)@),
            live(old(vm)@, old(self).value_spec().value),
            old(vm)@.next_token < u64::MAX,
        ensures
            final(vm)@ == with_method(
                with_singleton(old(vm)@, old(self).value_spec().value),
                singleton_after(old(vm)@, old(self).value_spec().value),
                name@,
                callback,
            ),
            wf(final(vm)@),
            final(self).value_spec() == old(self).value_spec(),
    {
        self.define_singleton_method(vm, name, callback);
    }

    /// Dynamic dispatch: invokes `method` on the receiver with positional
    /// arguments.  Resolution picks the callback most recently registered
    /// under the name (singleton class first, then class); the host's
    /// dispatcher then runs that native code, which may read and change
    /// any runtime state, so nothing is promised of the result.  What the
    /// state keeps is the dispatcher's one obligation: its validity.
    ///
    /// The host runtime raises when the method is absent; that input is
    /// excluded here.  See [`Object::respond_to`] to probe first.
    fn send<D: Dispatcher>(
        &self,
        vm: &mut Runtime,
        dispatcher: &D,
        method: &str,
        arguments: Vec<AnyObject>,
    ) -> (r: AnyObject)
        requires
            wf(old(vm)@),
            responds(old(vm)@, self.value_spec().value, method@),
        ensures
            wf(final(vm)@),
    {
        let receiver = AnyObject { value: self.value() };
        match vm.resolve(self.value(), method) {
            Some(callback) => dispatcher.dispatch(callback, receiver, arguments, vm),
            None => unreached(),
        }
    }

    /// Checks whether the object responds to the given method.
    fn respond_to(&self, vm: &Runtime, method: &str) -> (r: bool)
        ensures
            r == responds(vm@, self.value_spec().value, method@),
    {
        vm.respond_to(self.value(), method)
    }

    /// Checks whether the object is the absence singleton.
    fn is_nil(&self) -> (r: bool)
        ensures
            r == self.value_spec().spec_is_nil(),
    {
        self.value().is_nil()
    }

    /// Converts the wrapper to the generic wrapper: same handle, erased
    /// static type.
    fn to_any_object(&self) -> (r: AnyObject)
        ensures
            r.value == self.value_spec(),
    {
        AnyObject { value: self.value() }
    }

    /// Gets an instance variable of the object; a slot never written reads
    /// as the absence singleton.
    fn instance_variable_get(&self, vm: &Runtime, variable: &str) -> (r: AnyObject)
        ensures
            r.value == ivar_or_nil(vm@, self.value_spec().value, variable@),
    {
        AnyObject { value: vm.instance_variable_get(self.value(), variable) }
    }

    /// Sets an instance variable of the object and returns the stored
    /// value.  Last write wins.
    fn instance_variable_set<T: Wrapper>(&mut self, vm: &mut Runtime, variable: &str, value: T) -> (r:
        AnyObject)
        requires
            wf(old(vm)@),
            live(old(vm)@, old(self).value_spec().value),
        ensures
            final(vm)@ == with_ivar(
                old(vm)@,
                old(self).value_spec().value,
                variable@,
                value.value_spec(),
            ),
            wf(final(vm)@),
            r.value == value.value_spec(),
            final(self).value_spec() == old(self).value_spec(),
    {
        let v = value.value();
        let s = self.value();
        vm.instance_variable_set(s, variable, v);
        AnyObject { value: v }
    }

    /// Reinterprets the receiver's handle as wrapper type `T` without any
    /// check against the runtime's records — the explicit, unchecked
    /// trust boundary.  The caller asserts that the underlying value
    /// really is a `T`; on a mismatched value the wrapper's declared type
    /// is a lie, and the first native operation that trusts it misbehaves
    /// at the host.  Prefer [`Object::try_convert_to`].
    fn to<T: Wrapper>(&self) -> (r: T)
        ensures
            r.value_spec() == self.value_spec(),
    {
        convert_handle::<T>(self.value())
    }

    /// Safely casts the receiver to wrapper type `T`: succeeds exactly
    /// when the runtime's records match `T`'s verification predicate, and
    /// then returns the same handle; otherwise returns the `TypeError`
    /// carrying `T`'s fixed message.
    fn try_convert_to<T: VerifiedObject>(&self, vm: &Runtime) -> (r: Result<T, Error>)
        ensures
            match r {
                Ok(t) => T::accepts(vm@, self.value_spec()) && t.value_spec()
                    == self.value_spec(),
                Err(e) => !T::accepts(vm@, self.value_spec()) && e.message()
                    == T::error_message_spec(),
            },
    {
        let any = AnyObject { value: self.value() };
        if T::is_correct_type(&any, vm) {
            Ok(convert_handle::<T>(self.value()))
        } else {
            Err(Error::TypeError(T::error_message().to_owned()))
        }
    }

    /// Determines the coarse runtime kind of the object.
    fn ty(&self, vm: &Runtime) -> (r: ValueType)
        requires
            live(vm@, self.value_spec().value),
        ensures
            r == kind_at(vm@, self.value_spec().value),
    {
        vm.kind_of(self.value())
    }
}

} // verus!
