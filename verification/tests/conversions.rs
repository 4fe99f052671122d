use ruru::AnyObject;
use ruru::Array;
use ruru::Class;
use ruru::Error;
use ruru::Object;
use ruru::RString;
use ruru::Runtime;
use ruru::ValueType;
use ruru::Wrapper;

#[test]
fn try_convert_succeeds_on_matching_kind_and_preserves_handle() {
    let mut vm = Runtime::new();
    let s = RString::new(&mut vm, "hello");
    let any = s.to_any_object();
    let back: Result<RString, Error> = any.try_convert_to(&vm);
    let back = back.unwrap();
    assert_eq!(back.value(), s.value());
}

#[test]
fn try_convert_on_container_gives_string_type_error() {
    let mut vm = Runtime::new();
    let arr = Array::new(&mut vm);
    let res: Result<RString, Error> = arr.to_any_object().try_convert_to(&vm);
    let err = res.unwrap_err();
    assert_eq!(err, Error::TypeError("Error converting to String".to_string()));
    assert_eq!(err.message_str(), "Error converting to String");
}

#[test]
fn try_convert_on_string_gives_array_type_error() {
    let mut vm = Runtime::new();
    let s = RString::new(&mut vm, "not a container");
    let res: Result<Array, Error> = s.to_any_object().try_convert_to(&vm);
    assert_eq!(res.unwrap_err(), Error::TypeError("Error converting to Array".to_string()));
}

#[test]
fn to_any_object_and_back_is_a_round_trip() {
    let mut vm = Runtime::new();
    let w = RString::new(&mut vm, "round trip");
    let any = w.to_any_object();
    assert_eq!(any.value(), w.value());
    let back: RString = any.try_convert_to(&vm).unwrap();
    assert_eq!(back.value(), w.value());
    assert_eq!(back.to_string(&vm), "round trip".to_string());
}

#[test]
fn class_converts_to_class_but_not_to_string() {
    let mut vm = Runtime::new();
    let class = Class::new(&mut vm);
    let as_class: Result<Class, Error> = class.to_any_object().try_convert_to(&vm);
    assert_eq!(as_class.unwrap().value(), class.value());
    let as_string: Result<RString, Error> = class.to_any_object().try_convert_to(&vm);
    assert!(as_string.is_err());
}

#[test]
fn is_nil_holds_exactly_for_the_absence_singleton() {
    let mut vm = Runtime::new();
    assert!(AnyObject::nil().is_nil());
    assert!(AnyObject::from_value(vm.nil()).is_nil());
    assert!(!Array::new(&mut vm).is_nil());
    assert!(!RString::new(&mut vm, "").is_nil());
    assert!(!Class::new(&mut vm).is_nil());
    let class = Class::new(&mut vm);
    assert!(!class.new_instance(&mut vm).is_nil());
}

#[test]
fn ty_reports_the_coarse_kind() {
    let mut vm = Runtime::new();
    let s = RString::new(&mut vm, "typed");
    assert_eq!(s.ty(&vm), ValueType::RString);
    let arr = Array::new(&mut vm);
    assert_eq!(arr.ty(&vm), ValueType::Array);
    let class = Class::new(&mut vm);
    assert_eq!(class.ty(&vm), ValueType::Class);
    assert_eq!(class.new_instance(&mut vm).ty(&vm), ValueType::Object);
    assert_eq!(AnyObject::nil().ty(&vm), ValueType::Nil);
}

#[test]
fn unchecked_to_reinterprets_without_any_check() {
    let mut vm = Runtime::new();
    let arr = Array::new(&mut vm);
    let pretending: RString = arr.to_any_object().to();
    assert_eq!(pretending.value(), arr.value());
    let honest: Result<RString, Error> = pretending.try_convert_to(&vm);
    assert!(honest.is_err());
}

#[test]
fn allocation_counter_moves_forward() {
    let mut vm = Runtime::new();
    let before = vm.next_token();
    let s = RString::new(&mut vm, "x");
    assert_eq!(s.value().value, before);
    assert!(vm.next_token() > before);
}

#[test]
fn class_of_an_instance_is_its_class() {
    let mut vm = Runtime::new();
    let class = Class::new(&mut vm);
    let inst = class.new_instance(&mut vm);
    assert_eq!(inst.class(&vm).value(), class.value());
    let other = Class::new(&mut vm);
    assert_ne!(inst.class(&vm).value(), other.value());
}
