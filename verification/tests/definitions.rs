use std::cell::Cell;

use ruru::AnyObject;
use ruru::Callback;
use ruru::Class;
use ruru::Dispatcher;
use ruru::Object;
use ruru::RString;
use ruru::Runtime;
use ruru::Wrapper;

/// A dispatcher that records which native callback the runtime invoked and
/// answers with the absence singleton.
struct Recorder {
    invoked: Cell<u64>,
}

impl Dispatcher for Recorder {
    fn dispatch(
        &self,
        callback: Callback,
        _itself: AnyObject,
        _arguments: Vec<AnyObject>,
        _vm: &mut Runtime,
    ) -> AnyObject {
        self.invoked.set(callback.id);
        AnyObject::nil()
    }
}

/// A dispatcher for one native function: a greeting that builds and
/// returns a fixed string value.
struct Greeter;

impl Dispatcher for Greeter {
    fn dispatch(
        &self,
        callback: Callback,
        _itself: AnyObject,
        _arguments: Vec<AnyObject>,
        vm: &mut Runtime,
    ) -> AnyObject {
        if callback.id == 42 {
            RString::new(vm, "Greeting from class").to_any_object()
        } else {
            AnyObject::nil()
        }
    }
}

#[test]
fn respond_to_is_true_right_after_define_method() {
    let mut vm = Runtime::new();
    let mut class = Class::new(&mut vm);
    class.define_method(&mut vm, "push", Callback { id: 7 });
    let inst = class.new_instance(&mut vm);
    assert!(inst.respond_to(&vm, "push"));
    assert!(!inst.respond_to(&vm, "something_else"));
    // an instance method is reached through instances, not the class itself
    assert!(!class.respond_to(&vm, "push"));
}

#[test]
fn respond_to_is_true_right_after_define_singleton_method() {
    let mut vm = Runtime::new();
    let class = Class::new(&mut vm);
    let mut obj = class.new_instance(&mut vm);
    let another = class.new_instance(&mut vm);
    obj.define_singleton_method(&mut vm, "modified", Callback { id: 3 });
    assert!(obj.respond_to(&vm, "modified"));
    assert!(!another.respond_to(&vm, "modified"));
}

#[test]
fn def_and_def_self_register_like_their_long_forms() {
    let mut vm = Runtime::new();
    let mut class = Class::new(&mut vm);
    class.def(&mut vm, "plain", Callback { id: 10 });
    class.def_self(&mut vm, "classwide", Callback { id: 11 });
    let inst = class.new_instance(&mut vm);
    assert!(inst.respond_to(&vm, "plain"));
    assert!(!inst.respond_to(&vm, "classwide"));
    assert!(class.respond_to(&vm, "classwide"));
}

#[test]
fn registration_is_per_class() {
    let mut vm = Runtime::new();
    let mut a = Class::new(&mut vm);
    let b = Class::new(&mut vm);
    a.define_method(&mut vm, "m", Callback { id: 4 });
    assert!(a.new_instance(&mut vm).respond_to(&vm, "m"));
    assert!(!b.new_instance(&mut vm).respond_to(&vm, "m"));
}

#[test]
fn empty_names_are_ordinary_names() {
    let mut vm = Runtime::new();
    let mut class = Class::new(&mut vm);
    class.define_method(&mut vm, "", Callback { id: 6 });
    let mut inst = class.new_instance(&mut vm);
    assert!(inst.respond_to(&vm, ""));
    let v = RString::new(&mut vm, "");
    inst.instance_variable_set(&mut vm, "", v);
    assert_eq!(inst.instance_variable_get(&vm, "").value(), v.value());
}

#[test]
fn instance_variable_set_then_get_returns_the_stored_handle() {
    let mut vm = Runtime::new();
    let class = Class::new(&mut vm);
    let mut obj = class.new_instance(&mut vm);
    let stored = RString::new(&mut vm, "state");
    let echoed = obj.instance_variable_set(&mut vm, "@state", stored);
    assert_eq!(echoed.value(), stored.value());
    let read = obj.instance_variable_get(&vm, "@state");
    assert_eq!(read.value(), stored.value());
    assert!(obj.instance_variable_get(&vm, "@never_written").is_nil());
}

#[test]
fn instance_variable_last_write_wins_per_slot() {
    let mut vm = Runtime::new();
    let class = Class::new(&mut vm);
    let mut obj = class.new_instance(&mut vm);
    let first = RString::new(&mut vm, "first");
    let second = RString::new(&mut vm, "second");
    obj.instance_variable_set(&mut vm, "@slot", first);
    obj.instance_variable_set(&mut vm, "@slot", second);
    obj.instance_variable_set(&mut vm, "@other", first);
    assert_eq!(obj.instance_variable_get(&vm, "@slot").value(), second.value());
    assert_eq!(obj.instance_variable_get(&vm, "@other").value(), first.value());
}

#[test]
fn redefining_a_method_replaces_the_callback() {
    let mut vm = Runtime::new();
    let mut class = Class::new(&mut vm);
    class.define_method(&mut vm, "m", Callback { id: 1 });
    class.define_method(&mut vm, "m", Callback { id: 2 });
    let inst = class.new_instance(&mut vm);
    let recorder = Recorder { invoked: Cell::new(0) };
    inst.send(&mut vm, &recorder, "m", vec![]);
    assert_eq!(recorder.invoked.get(), 2);
}

#[test]
fn send_reaches_a_singleton_method_before_the_class_method() {
    let mut vm = Runtime::new();
    let mut class = Class::new(&mut vm);
    class.define_method(&mut vm, "m", Callback { id: 1 });
    let mut obj = class.new_instance(&mut vm);
    obj.define_singleton_method(&mut vm, "m", Callback { id: 9 });
    let recorder = Recorder { invoked: Cell::new(0) };
    obj.send(&mut vm, &recorder, "m", vec![]);
    assert_eq!(recorder.invoked.get(), 9);
    let plain = class.new_instance(&mut vm);
    plain.send(&mut vm, &recorder, "m", vec![]);
    assert_eq!(recorder.invoked.get(), 1);
}

#[test]
fn greeting_method_returns_the_fixed_string() {
    let mut vm = Runtime::new();
    let mut class = Class::new(&mut vm);
    class.define_method(&mut vm, "greeting", Callback { id: 42 });
    let inst = class.new_instance(&mut vm);
    let result = inst.send(&mut vm, &Greeter, "greeting", vec![]);
    let s: RString = result.try_convert_to(&vm).unwrap();
    assert_eq!(s.to_string(&vm), "Greeting from class".to_string());
}

#[test]
fn singleton_classes_are_per_object_and_stable() {
    let mut vm = Runtime::new();
    let class = Class::new(&mut vm);
    let a = class.new_instance(&mut vm);
    let b = class.new_instance(&mut vm);
    let sa = a.singleton_class(&mut vm);
    let sb = b.singleton_class(&mut vm);
    assert_ne!(sa.value(), sb.value());
    assert_eq!(a.singleton_class(&mut vm).value(), sa.value());
}

#[test]
fn define_applies_the_mutator_and_hands_the_wrapper_back() {
    let mut vm = Runtime::new();
    let class = Class::new(&mut vm);
    let class = class.define(|mut itself: Class| {
        itself.define_method(&mut vm, "greeting", Callback { id: 5 });
        itself
    });
    let inst = class.new_instance(&mut vm);
    assert!(inst.respond_to(&vm, "greeting"));
}
