//! The laws of the layer, stated and proved over the runtime model and the
//! same spec functions the operations' contracts use.

use vstd::prelude::*;

use crate::any_object::AnyObject;
use crate::object::Wrapper;
use crate::runtime::class_at;
use crate::runtime::find_object;
use crate::runtime::is_class;
use crate::runtime::ivar_or_nil;
use crate::runtime::find_method;
use crate::runtime::lemma_find_ivar_absent;
use crate::runtime::lemma_find_ivar_push;
use crate::runtime::lemma_find_method_absent;
use crate::runtime::lemma_find_method_name_absent;
use crate::runtime::lemma_class_at_is_class;
use crate::runtime::lemma_find_method_push;
use crate::runtime::lemma_live_token_bound;
use crate::runtime::lemma_with_object;
use crate::runtime::lemma_with_singleton;
use crate::runtime::live;
use crate::runtime::resolves;
use crate::runtime::responds;
use crate::runtime::singleton_after;
use crate::runtime::singleton_at;
use crate::runtime::wf;
use crate::runtime::with_ivar;
use crate::runtime::with_method;
use crate::runtime::with_object;
use crate::runtime::with_singleton;
use crate::runtime::IvarView;
use crate::runtime::MethodView;
use crate::runtime::RuntimeView;
use crate::types::Callback;
use crate::types::Value;
use crate::types::ValueType;
use crate::types::NIL_TOKEN;
use crate::verified_object::VerifiedObject;

verus! {

/// What the safe conversion yields on a handle: the handle itself exactly
/// when the runtime's records match `T`'s verification predicate.
pub open spec fn conversion_result<T: VerifiedObject>(rt: RuntimeView, value: Value) -> Option<
    Value,
> {
    if T::accepts(rt, value) {
        Some(value)
    } else {
        None
    }
}

/// Erasing a wrapper's static type and converting back is a round trip:
/// for a wrapper whose handle the runtime records as a `T`, conversion of
/// the type-erased form succeeds and yields the very same handle — the
/// verification predicate reads the runtime's records for the handle, and
/// the generic wrapper carries the handle unchanged.
pub proof fn lemma_round_trip<T: VerifiedObject>(rt: RuntimeView, w: T, any: AnyObject)
    requires
        T::accepts(rt, w.value_spec()),
        any.value == w.value_spec(),
    ensures
        conversion_result::<T>(rt, any.value) == Some(w.value_spec()),
{
}

/// An object responds to a name as soon as the name is registered on its
/// class or on its singleton class, whichever the registration targeted.
pub proof fn lemma_define_method_then_respond(
    rt: RuntimeView,
    class_tok: u64,
    receiver: u64,
    name: Seq<char>,
    callback: Callback,
)
    requires
        live(rt, receiver),
        class_at(rt, receiver) == class_tok || singleton_at(rt, receiver) == Some(class_tok),
    ensures
        responds(with_method(rt, class_tok, name, callback), receiver, name),
{
    let res = with_method(rt, class_tok, name, callback);
    let e = MethodView { owner: class_tok, name, callback };
    let o = find_object(rt.objects, receiver)->Some_0;
    lemma_find_method_push(rt.methods, e, class_tok, name);
    match o.singleton {
        Some(s) => {
            lemma_find_method_push(rt.methods, e, s, name);
            lemma_find_method_push(rt.methods, e, o.class_token, name);
        },
        None => {
            lemma_find_method_push(rt.methods, e, o.class_token, name);
        },
    }
}

/// An object responds to a name as soon as the name is registered through
/// its singleton class.
pub proof fn lemma_define_singleton_method_then_respond(
    rt: RuntimeView,
    receiver: u64,
    name: Seq<char>,
    callback: Callback,
)
    requires
        wf(rt),
        live(rt, receiver),
        rt.next_token < u64::MAX,
    ensures
        responds(
            with_method(
                with_singleton(rt, receiver),
                singleton_after(rt, receiver),
                name,
                callback,
            ),
            receiver,
            name,
        ),
{
    lemma_with_singleton(rt, receiver);
    let mid = with_singleton(rt, receiver);
    let s = singleton_after(rt, receiver);
    lemma_find_method_push(mid.methods, MethodView { owner: s, name, callback }, s, name);
}

/// Ensuring an object's singleton class twice is the same as ensuring it
/// once: the second query finds the recorded singleton class and changes
/// nothing.
pub proof fn lemma_singleton_class_is_stable(rt: RuntimeView, tok: u64)
    requires
        wf(rt),
        live(rt, tok),
        rt.next_token < u64::MAX,
    ensures
        with_singleton(with_singleton(rt, tok), tok) == with_singleton(rt, tok),
{
    lemma_with_singleton(rt, tok);
}

/// Registering through one object's singleton class is per-object: the
/// registering object responds to the name at once; a distinct object
/// whose class never had the name registered does not; and the
/// instance-dispatch table of the registering object's class is untouched.
/// Stated for objects that have no singleton class yet: the fresh
/// singleton class then takes the next token, which no existing object or
/// class can name.
pub proof fn lemma_singleton_registration_is_per_object(
    rt: RuntimeView,
    a: u64,
    b: u64,
    name: Seq<char>,
    callback: Callback,
)
    requires
        wf(rt),
        live(rt, a),
        live(rt, b),
        a != b,
        rt.next_token < u64::MAX,
        singleton_at(rt, a) is None,
        singleton_at(rt, b) is None,
        find_method(rt.methods, class_at(rt, b), name) is None,
    ensures
        ({
            let res = with_method(with_singleton(rt, a), singleton_after(rt, a), name, callback);
            &&& responds(res, a, name)
            &&& !responds(res, b, name)
            &&& forall|n2: Seq<char>|
                #[trigger] find_method(res.methods, class_at(rt, a), n2) == find_method(
                    rt.methods,
                    class_at(rt, a),
                    n2,
                )
        }),
{
    lemma_with_singleton(rt, a);
    let mid = with_singleton(rt, a);
    let s = singleton_after(rt, a);
    let res = with_method(mid, s, name, callback);
    let e = MethodView { owner: s, name, callback };
    lemma_find_method_push(mid.methods, e, s, name);
    lemma_live_token_bound(rt, b);
    assert(find_object(res.objects, b) == find_object(rt.objects, b));
    lemma_class_at_is_class(rt, b);
    lemma_live_token_bound(rt, class_at(rt, b));
    lemma_find_method_push(mid.methods, e, class_at(rt, b), name);
    lemma_class_at_is_class(rt, a);
    lemma_live_token_bound(rt, class_at(rt, a));
    assert forall|n2: Seq<char>|
        #[trigger] find_method(res.methods, class_at(rt, a), n2) == find_method(
            rt.methods,
            class_at(rt, a),
            n2,
        ) by {
        lemma_find_method_push(mid.methods, e, class_at(rt, a), n2);
    }
}

/// A name that stands in no registration at all is responded to by no
/// object.
pub proof fn lemma_never_registered_not_responded(rt: RuntimeView, receiver: u64, name: Seq<char>)
    requires
        forall|i: int| 0 <= i < rt.methods.len() ==> (#[trigger] rt.methods[i]).name != name,
    ensures
        !responds(rt, receiver, name),
{
    match find_object(rt.objects, receiver) {
        Some(o) => {
            match o.singleton {
                Some(s) => {
                    lemma_find_method_name_absent(rt.methods, s, name);
                    lemma_find_method_name_absent(rt.methods, o.class_token, name);
                },
                None => {
                    lemma_find_method_name_absent(rt.methods, o.class_token, name);
                },
            }
        },
        None => {},
    }
}

/// The absence singleton is nil, and no handle the runtime creates is: a
/// fresh value's token is the allocation counter, which never reaches the
/// absence token again.
pub proof fn lemma_nil_only_for_absence(
    rt: RuntimeView,
    class_token: u64,
    kind: ValueType,
    text: Option<Seq<char>>,
)
    requires
        wf(rt),
    ensures
        (Value { value: NIL_TOKEN }).spec_is_nil(),
        !(Value { value: rt.next_token }).spec_is_nil(),
        with_object(rt, class_token, kind, text).objects.last().token == rt.next_token,
{
}

/// Writing a slot and reading it straight back yields the stored handle,
/// for any object and any slot name; every other slot reads as before.
pub proof fn lemma_ivar_set_then_get(rt: RuntimeView, owner: u64, name: Seq<char>, value: Value)
    ensures
        ivar_or_nil(with_ivar(rt, owner, name, value), owner, name) == value,
        forall|o2: u64, n2: Seq<char>|
            o2 != owner || n2 != name ==> #[trigger] ivar_or_nil(
                with_ivar(rt, owner, name, value),
                o2,
                n2,
            ) == ivar_or_nil(rt, o2, n2),
{
    let e = IvarView { owner, name, value };
    lemma_find_ivar_push(rt.ivars, e, owner, name);
    assert forall|o2: u64, n2: Seq<char>| o2 != owner || n2 != name implies #[trigger] ivar_or_nil(
        with_ivar(rt, owner, name, value),
        o2,
        n2,
    ) == ivar_or_nil(rt, o2, n2) by {
        lemma_find_ivar_push(rt.ivars, e, o2, n2);
    }
}

/// A freshly created value starts blank: it has no singleton class, no
/// method is registered on it, every slot of it reads as absent, and a
/// dynamic call on it reaches exactly what its class's method table holds.
pub proof fn lemma_fresh_value_is_blank(
    rt: RuntimeView,
    class_token: u64,
    kind: ValueType,
    text: Option<Seq<char>>,
    name: Seq<char>,
)
    requires
        wf(rt),
        is_class(rt, class_token),
        rt.next_token < u64::MAX,
    ensures
        ({
            let res = with_object(rt, class_token, kind, text);
            let tok = rt.next_token;
            &&& singleton_at(res, tok) is None
            &&& find_method(res.methods, tok, name) is None
            &&& ivar_or_nil(res, tok, name) == (Value { value: NIL_TOKEN })
            &&& resolves(res, tok, name) == find_method(rt.methods, class_token, name)
        }),
{
    lemma_with_object(rt, class_token, kind, text);
    let res = with_object(rt, class_token, kind, text);
    let tok = rt.next_token;
    assert forall|i: int| 0 <= i < res.methods.len() implies (#[trigger] res.methods[i]).owner
        != tok by {
        assert(rt.methods[i].owner < rt.next_token);
    }
    lemma_find_method_absent(res.methods, tok, name);
    assert forall|i: int| 0 <= i < res.ivars.len() implies (#[trigger] res.ivars[i]).owner
        != tok by {
        assert(rt.ivars[i].owner < rt.next_token);
    }
    lemma_find_ivar_absent(res.ivars, tok, name);
}

/// Re-registering a method under the same name replaces the callback:
/// dynamic dispatch on an instance of the class resolves to the latest
/// registration, never an earlier one.
pub proof fn lemma_redefinition_last_write_wins(
    rt: RuntimeView,
    class_tok: u64,
    receiver: u64,
    name: Seq<char>,
    f: Callback,
    g: Callback,
)
    requires
        live(rt, receiver),
        class_at(rt, receiver) == class_tok,
        singleton_at(rt, receiver) is None,
    ensures
        resolves(
            with_method(with_method(rt, class_tok, name, f), class_tok, name, g),
            receiver,
            name,
        ) == Some(g),
{
    let mid = with_method(rt, class_tok, name, f);
    lemma_find_method_push(mid.methods, MethodView { owner: class_tok, name, callback: g },
        class_tok, name);
}

} // verus!
