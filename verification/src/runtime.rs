//! The model of the host runtime's observable state.
//!
//! The host runtime owns every value; this layer only ever sees it through a
//! fixed set of primitives: "class of handle", "singleton class of handle",
//! "coarse kind of handle", "define method", "resolve method", "get/set named
//! slot", "create value".  [`Runtime`] models exactly the state those
//! primitives read and write: an object table, the method registrations, and
//! the per-object variable slots.  All tables are append-only and the newest
//! entry wins, which makes "re-registration overwrites" a structural fact.
//!
//! Invoking a resolved native callback is the one primitive the host keeps to
//! itself; see [`crate::dispatch::Dispatcher`].

use vstd::prelude::*;

use crate::types::BASE_CLASS_TOKEN;
use crate::types::Callback;
use crate::types::NIL_TOKEN;
use crate::types::Value;
use crate::types::ValueType;

verus! {

/// One row of the object table: a live handle and what the runtime knows of
/// it.  A newer row for the same token supersedes the older ones.
pub struct ObjectEntry {
    /// The handle's token.
    pub token: u64,
    /// Token of the object's class; always a class-kind object.
    pub class_token: u64,
    /// Token of the object's singleton class, once one has been created.
    pub singleton: Option<u64>,
    /// The coarse runtime kind of the value.
    pub kind: ValueType,
    /// The character content, for string-kind values.
    pub text: Option<String>,
}

/// One method registration: `name` on the class `owner` runs `callback`.
pub struct MethodEntry {
    pub owner: u64,
    pub name: String,
    pub callback: Callback,
}

/// One named slot: variable `name` of the object `owner` holds `value`.
pub struct IvarEntry {
    pub owner: u64,
    pub name: String,
    pub value: Value,
}

/// The mathematical image of an [`ObjectEntry`].
pub ghost struct ObjectView {
    pub token: u64,
    pub class_token: u64,
    pub singleton: Option<u64>,
    pub kind: ValueType,
    pub text: Option<Seq<char>>,
}

/// The mathematical image of a [`MethodEntry`].
pub ghost struct MethodView {
    pub owner: u64,
    pub name: Seq<char>,
    pub callback: Callback,
}

/// The mathematical image of an [`IvarEntry`].
pub ghost struct IvarView {
    pub owner: u64,
    pub name: Seq<char>,
    pub value: Value,
}

/// The mathematical image of the whole modelled runtime state.
#[verifier::ext_equal]
pub ghost struct RuntimeView {
    pub objects: Seq<ObjectView>,
    pub methods: Seq<MethodView>,
    pub ivars: Seq<IvarView>,
    pub next_token: u64,
}

impl View for ObjectEntry {
    type V = ObjectView;

    open spec fn view(&self) -> ObjectView {
        ObjectView {
            token: self.token,
            class_token: self.class_token,
            singleton: self.singleton,
            kind: self.kind,
            text: match self.text {
                Some(s) => Some(s@),
                None => None,
            },
        }
    }
}

impl View for MethodEntry {
    type V = MethodView;

    open spec fn view(&self) -> MethodView {
        MethodView { owner: self.owner, name: self.name@, callback: self.callback }
    }
}

impl View for IvarEntry {
    type V = IvarView;

    open spec fn view(&self) -> IvarView {
        IvarView { owner: self.owner, name: self.name@, value: self.value }
    }
}

/// The newest object-table row for `tok`, if the handle is live.
pub open spec fn find_object(objects: Seq<ObjectView>, tok: u64) -> Option<ObjectView>
    decreases objects.len(),
{
    if objects.len() == 0 {
        None
    } else if objects.last().token == tok {
        Some(objects.last())
    } else {
        find_object(objects.drop_last(), tok)
    }
}

/// The callback most recently registered under `name` on the class `owner`.
pub open spec fn find_method(methods: Seq<MethodView>, owner: u64, name: Seq<char>) -> Option<
    Callback,
>
    decreases methods.len(),
{
    if methods.len() == 0 {
        None
    } else if methods.last().owner == owner && methods.last().name == name {
        Some(methods.last().callback)
    } else {
        find_method(methods.drop_last(), owner, name)
    }
}

/// The value most recently stored in slot `name` of the object `owner`.
pub open spec fn find_ivar(ivars: Seq<IvarView>, owner: u64, name: Seq<char>) -> Option<Value>
    decreases ivars.len(),
{
    if ivars.len() == 0 {
        None
    } else if ivars.last().owner == owner && ivars.last().name == name {
        Some(ivars.last().value)
    } else {
        find_ivar(ivars.drop_last(), owner, name)
    }
}

/// Whether the handle with token `tok` is live in this state.
pub open spec fn live(rt: RuntimeView, tok: u64) -> bool {
    find_object(rt.objects, tok) is Some
}

/// The token of the class of the object `tok` (the nil token if `tok` is
/// dead; every use is guarded by [`live`]).
pub open spec fn class_at(rt: RuntimeView, tok: u64) -> u64 {
    match find_object(rt.objects, tok) {
        Some(o) => o.class_token,
        None => NIL_TOKEN,
    }
}

/// The singleton class of the object `tok`, once created.
pub open spec fn singleton_at(rt: RuntimeView, tok: u64) -> Option<u64> {
    match find_object(rt.objects, tok) {
        Some(o) => o.singleton,
        None => None,
    }
}

/// The coarse kind of the object `tok` (`Nil` for a dead token; every use is
/// guarded by [`live`]).
pub open spec fn kind_at(rt: RuntimeView, tok: u64) -> ValueType {
    match find_object(rt.objects, tok) {
        Some(o) => o.kind,
        None => ValueType::Nil,
    }
}

/// The character content of the object `tok`, for string-kind values.
pub open spec fn text_at(rt: RuntimeView, tok: u64) -> Option<Seq<char>> {
    match find_object(rt.objects, tok) {
        Some(o) => o.text,
        None => None,
    }
}

/// Whether `tok` is a live class-kind object.
pub open spec fn is_class(rt: RuntimeView, tok: u64) -> bool {
    &&& live(rt, tok)
    &&& kind_at(rt, tok) == ValueType::Class
}

/// Method resolution for a receiver: its singleton class is searched first,
/// then its class.  `None` when the receiver is dead or neither table has
/// the name.
pub open spec fn resolves(rt: RuntimeView, receiver: u64, name: Seq<char>) -> Option<Callback> {
    match find_object(rt.objects, receiver) {
        Some(o) => match o.singleton {
            Some(s) => match find_method(rt.methods, s, name) {
                Some(c) => Some(c),
                None => find_method(rt.methods, o.class_token, name),
            },
            None => find_method(rt.methods, o.class_token, name),
        },
        None => None,
    }
}

/// Whether the receiver responds to `name`: resolution succeeds.
pub open spec fn responds(rt: RuntimeView, receiver: u64, name: Seq<char>) -> bool {
    resolves(rt, receiver, name) is Some
}

/// The value of slot `name` of object `owner`, or the absence singleton when
/// the slot was never written.
pub open spec fn ivar_or_nil(rt: RuntimeView, owner: u64, name: Seq<char>) -> Value {
    match find_ivar(rt.ivars, owner, name) {
        Some(v) => v,
        None => Value { value: NIL_TOKEN },
    }
}

/// The singleton recorded in one object-table row, if any, is itself a live
/// class-kind object.
pub open spec fn row_singleton_ok(rt: RuntimeView, o: ObjectView) -> bool {
    match o.singleton {
        Some(s) => is_class(rt, s),
        None => true,
    }
}

/// Validity of a modelled state: the absence singleton and the base class
/// are present with their fixed kinds, every table row names a token the
/// runtime has handed out, and recorded singleton classes are class-kind.
pub open spec fn wf(rt: RuntimeView) -> bool {
    &&& rt.next_token >= 2
    &&& live(rt, NIL_TOKEN) && kind_at(rt, NIL_TOKEN) == ValueType::Nil
    &&& is_class(rt, BASE_CLASS_TOKEN)
    &&& forall|i: int|
        0 <= i < rt.objects.len() ==> (#[trigger] rt.objects[i]).token < rt.next_token
    &&& forall|i: int|
        0 <= i < rt.methods.len() ==> (#[trigger] rt.methods[i]).owner < rt.next_token
    &&& forall|i: int| 0 <= i < rt.ivars.len() ==> (#[trigger] rt.ivars[i]).owner < rt.next_token
    &&& forall|i: int|
        0 <= i < rt.objects.len() ==> row_singleton_ok(rt, #[trigger] rt.objects[i])
    &&& forall|i: int|
        0 <= i < rt.objects.len() ==> is_class(rt, (#[trigger] rt.objects[i]).class_token)
}

/// The state of a freshly started runtime: the absence singleton and the
/// base class, nothing registered.
pub open spec fn initial() -> RuntimeView {
    RuntimeView {
        objects: seq![
            ObjectView {
                token: BASE_CLASS_TOKEN,
                class_token: BASE_CLASS_TOKEN,
                singleton: None,
                kind: ValueType::Class,
                text: None,
            },
            ObjectView {
                token: NIL_TOKEN,
                class_token: BASE_CLASS_TOKEN,
                singleton: None,
                kind: ValueType::Nil,
                text: None,
            },
        ],
        methods: Seq::empty(),
        ivars: Seq::empty(),
        next_token: 2,
    }
}

/// State after registering `callback` under `name` on the class `owner`.
pub open spec fn with_method(
    rt: RuntimeView,
    owner: u64,
    name: Seq<char>,
    callback: Callback,
) -> RuntimeView {
    RuntimeView { methods: rt.methods.push(MethodView { owner, name, callback }), ..rt }
}

/// State after writing `value` into slot `name` of object `owner`.
pub open spec fn with_ivar(rt: RuntimeView, owner: u64, name: Seq<char>, value: Value) -> RuntimeView {
    RuntimeView { ivars: rt.ivars.push(IvarView { owner, name, value }), ..rt }
}

/// State after the runtime creates a fresh value of class `class_token` with
/// kind `kind`; the fresh handle's token is `rt.next_token`.
pub open spec fn with_object(
    rt: RuntimeView,
    class_token: u64,
    kind: ValueType,
    text: Option<Seq<char>>,
) -> RuntimeView {
    RuntimeView {
        objects: rt.objects.push(
            ObjectView { token: rt.next_token, class_token, singleton: None, kind, text },
        ),
        next_token: (rt.next_token + 1) as u64,
        ..rt
    }
}

/// State after the singleton class of object `tok` is ensured to exist: no
/// change when it already does, otherwise a fresh class-kind object is
/// created and recorded as the singleton of `tok`.
pub open spec fn with_singleton(rt: RuntimeView, tok: u64) -> RuntimeView {
    match find_object(rt.objects, tok) {
        Some(o) => if o.singleton is Some {
            rt
        } else {
            RuntimeView {
                objects: rt.objects.push(
                    ObjectView {
                        token: rt.next_token,
                        class_token: BASE_CLASS_TOKEN,
                        singleton: None,
                        kind: ValueType::Class,
                        text: None,
                    },
                ).push(
                    ObjectView {
                        token: tok,
                        class_token: o.class_token,
                        singleton: Some(rt.next_token),
                        kind: o.kind,
                        text: o.text,
                    },
                ),
                next_token: (rt.next_token + 1) as u64,
                ..rt
            }
        },
        None => rt,
    }
}

/// The token of the singleton class of `tok` after [`with_singleton`].
pub open spec fn singleton_after(rt: RuntimeView, tok: u64) -> u64 {
    match singleton_at(rt, tok) {
        Some(s) => s,
        None => rt.next_token,
    }
}

/// Appending an object-table row changes lookup only for the row's own token.
pub proof fn lemma_find_object_push(objects: Seq<ObjectView>, e: ObjectView, tok: u64)
    ensures
        find_object(objects.push(e), tok) == if e.token == tok {
            Some(e)
        } else {
            find_object(objects, tok)
        },
{
    assert(objects.push(e).last() == e);
    assert(objects.push(e).drop_last() =~= objects);
}

/// Appending a method row changes lookup only for the row's own key.
pub proof fn lemma_find_method_push(
    methods: Seq<MethodView>,
    e: MethodView,
    owner: u64,
    name: Seq<char>,
)
    ensures
        find_method(methods.push(e), owner, name) == if e.owner == owner && e.name == name {
            Some(e.callback)
        } else {
            find_method(methods, owner, name)
        },
{
    assert(methods.push(e).last() == e);
    assert(methods.push(e).drop_last() =~= methods);
}

/// Appending a slot row changes lookup only for the row's own key.
pub proof fn lemma_find_ivar_push(ivars: Seq<IvarView>, e: IvarView, owner: u64, name: Seq<char>)
    ensures
        find_ivar(ivars.push(e), owner, name) == if e.owner == owner && e.name == name {
            Some(e.value)
        } else {
            find_ivar(ivars, owner, name)
        },
{
    assert(ivars.push(e).last() == e);
    assert(ivars.push(e).drop_last() =~= ivars);
}

/// A found object row carries the token it was looked up under, and stands
/// somewhere in the table.
pub proof fn lemma_find_object_in_table(objects: Seq<ObjectView>, tok: u64)
    requires
        find_object(objects, tok) is Some,
    ensures
        find_object(objects, tok)->Some_0.token == tok,
        exists|i: int|
            0 <= i < objects.len() && #[trigger] objects[i] == find_object(objects, tok)->Some_0,
    decreases objects.len(),
{
    if objects.last().token == tok {
        assert(objects[objects.len() - 1] == find_object(objects, tok)->Some_0);
    } else {
        lemma_find_object_in_table(objects.drop_last(), tok);
        let i = choose|i: int|
            0 <= i < objects.drop_last().len() && #[trigger] objects.drop_last()[i] == find_object(
                objects.drop_last(),
                tok,
            )->Some_0;
        assert(objects[i] == objects.drop_last()[i]);
    }
}

/// In a valid state, a live token is one the runtime has handed out.
pub proof fn lemma_live_token_bound(rt: RuntimeView, tok: u64)
    requires
        wf(rt),
        live(rt, tok),
    ensures
        tok < rt.next_token,
{
    lemma_find_object_in_table(rt.objects, tok);
}

/// In a valid state, every live object's class is itself a live class-kind
/// object: what a "class of" query returns can be the target of method
/// definition.
pub proof fn lemma_class_at_is_class(rt: RuntimeView, tok: u64)
    requires
        wf(rt),
        live(rt, tok),
    ensures
        is_class(rt, class_at(rt, tok)),
{
    lemma_find_object_in_table(rt.objects, tok);
    let i = choose|i: int|
        0 <= i < rt.objects.len() && #[trigger] rt.objects[i] == find_object(
            rt.objects,
            tok,
        )->Some_0;
    assert(is_class(rt, rt.objects[i].class_token));
}

/// No method row with owner `owner` means no method resolves on that class.
pub proof fn lemma_find_method_absent(methods: Seq<MethodView>, owner: u64, name: Seq<char>)
    requires
        forall|i: int| 0 <= i < methods.len() ==> (#[trigger] methods[i]).owner != owner,
    ensures
        find_method(methods, owner, name) is None,
    decreases methods.len(),
{
    if methods.len() > 0 {
        assert(methods[methods.len() - 1].owner != owner);
        lemma_find_method_absent(methods.drop_last(), owner, name);
    }
}

/// A name that stands in no method row resolves on no class at all.
pub proof fn lemma_find_method_name_absent(methods: Seq<MethodView>, owner: u64, name: Seq<char>)
    requires
        forall|i: int| 0 <= i < methods.len() ==> (#[trigger] methods[i]).name != name,
    ensures
        find_method(methods, owner, name) is None,
    decreases methods.len(),
{
    if methods.len() > 0 {
        assert(methods[methods.len() - 1].name != name);
        lemma_find_method_name_absent(methods.drop_last(), owner, name);
    }
}

/// No slot row with owner `owner` means every slot of that object reads as
/// absent.
pub proof fn lemma_find_ivar_absent(ivars: Seq<IvarView>, owner: u64, name: Seq<char>)
    requires
        forall|i: int| 0 <= i < ivars.len() ==> (#[trigger] ivars[i]).owner != owner,
    ensures
        find_ivar(ivars, owner, name) is None,
    decreases ivars.len(),
{
    if ivars.len() > 0 {
        assert(ivars[ivars.len() - 1].owner != owner);
        lemma_find_ivar_absent(ivars.drop_last(), owner, name);
    }
}

/// Registering a method preserves validity.
pub proof fn lemma_wf_with_method(rt: RuntimeView, owner: u64, name: Seq<char>, callback: Callback)
    requires
        wf(rt),
        owner < rt.next_token,
    ensures
        wf(with_method(rt, owner, name, callback)),
{
    let res = with_method(rt, owner, name, callback);
    assert forall|i: int| 0 <= i < res.methods.len() implies (#[trigger] res.methods[i]).owner
        < res.next_token by {
        if i < rt.methods.len() {
            assert(res.methods[i] == rt.methods[i]);
        }
    }
    assert forall|i: int| 0 <= i < res.objects.len() implies row_singleton_ok(
        res,
        #[trigger] res.objects[i],
    ) by {
        assert(row_singleton_ok(rt, rt.objects[i]));
    }
    assert forall|i: int| 0 <= i < res.objects.len() implies is_class(
        res,
        (#[trigger] res.objects[i]).class_token,
    ) by {
        assert(is_class(rt, rt.objects[i].class_token));
    }
}

/// Writing a slot preserves validity.
pub proof fn lemma_wf_with_ivar(rt: RuntimeView, owner: u64, name: Seq<char>, value: Value)
    requires
        wf(rt),
        owner < rt.next_token,
    ensures
        wf(with_ivar(rt, owner, name, value)),
{
    let res = with_ivar(rt, owner, name, value);
    assert forall|i: int| 0 <= i < res.ivars.len() implies (#[trigger] res.ivars[i]).owner
        < res.next_token by {
        if i < rt.ivars.len() {
            assert(res.ivars[i] == rt.ivars[i]);
        }
    }
    assert forall|i: int| 0 <= i < res.objects.len() implies row_singleton_ok(
        res,
        #[trigger] res.objects[i],
    ) by {
        assert(row_singleton_ok(rt, rt.objects[i]));
    }
    assert forall|i: int| 0 <= i < res.objects.len() implies is_class(
        res,
        (#[trigger] res.objects[i]).class_token,
    ) by {
        assert(is_class(rt, rt.objects[i].class_token));
    }
}

/// Creating a fresh value preserves validity; the fresh handle is live, of
/// the requested class, kind and content, is not the absence singleton, and
/// every other handle reads as before.
pub proof fn lemma_with_object(
    rt: RuntimeView,
    class_token: u64,
    kind: ValueType,
    text: Option<Seq<char>>,
)
    requires
        wf(rt),
        is_class(rt, class_token),
        rt.next_token < u64::MAX,
    ensures
        ({
            let res = with_object(rt, class_token, kind, text);
            &&& wf(res)
            &&& live(res, rt.next_token)
            &&& class_at(res, rt.next_token) == class_token
            &&& kind_at(res, rt.next_token) == kind
            &&& singleton_at(res, rt.next_token) is None
            &&& text_at(res, rt.next_token) == text
            &&& rt.next_token != NIL_TOKEN
            &&& forall|t: u64|
                t != rt.next_token ==> #[trigger] find_object(res.objects, t) == find_object(
                    rt.objects,
                    t,
                )
            &&& res.methods == rt.methods
            &&& res.ivars == rt.ivars
        }),
{
    let res = with_object(rt, class_token, kind, text);
    let e = ObjectView { token: rt.next_token, class_token, singleton: None, kind, text };
    assert forall|t: u64| t != rt.next_token implies #[trigger] find_object(res.objects, t)
        == find_object(rt.objects, t) by {
        lemma_find_object_push(rt.objects, e, t);
    }
    lemma_find_object_push(rt.objects, e, rt.next_token);
    assert(find_object(res.objects, NIL_TOKEN) == find_object(rt.objects, NIL_TOKEN));
    assert(find_object(res.objects, BASE_CLASS_TOKEN) == find_object(rt.objects, BASE_CLASS_TOKEN));
    assert forall|i: int| 0 <= i < res.objects.len() implies (#[trigger] res.objects[i]).token
        < res.next_token by {
        if i < rt.objects.len() {
            assert(res.objects[i] == rt.objects[i]);
        }
    }
    assert forall|i: int| 0 <= i < res.objects.len() implies row_singleton_ok(
        res,
        #[trigger] res.objects[i],
    ) by {
        if i < rt.objects.len() {
            assert(res.objects[i] == rt.objects[i]);
            assert(row_singleton_ok(rt, rt.objects[i]));
            match rt.objects[i].singleton {
                Some(s) => {
                    lemma_find_object_in_table(rt.objects, s);
                    assert(s < rt.next_token);
                    assert(find_object(res.objects, s) == find_object(rt.objects, s));
                },
                None => {},
            }
        }
    }
    assert forall|i: int| 0 <= i < res.objects.len() implies is_class(
        res,
        (#[trigger] res.objects[i]).class_token,
    ) by {
        let ct = res.objects[i].class_token;
        if i < rt.objects.len() {
            assert(res.objects[i] == rt.objects[i]);
            assert(is_class(rt, ct));
        } else {
            assert(ct == class_token);
        }
        lemma_find_object_in_table(rt.objects, ct);
        assert(ct < rt.next_token);
        assert(find_object(res.objects, ct) == find_object(rt.objects, ct));
    }
}

/// Ensuring a singleton class preserves validity; afterwards the object's
/// singleton is recorded and class-kind, the object's own class, kind and
/// content are unchanged, and every handle other than the object and the
/// fresh singleton class reads as before.
pub proof fn lemma_with_singleton(rt: RuntimeView, tok: u64)
    requires
        wf(rt),
        live(rt, tok),
        rt.next_token < u64::MAX,
    ensures
        ({
            let res = with_singleton(rt, tok);
            &&& wf(res)
            &&& live(res, tok)
            &&& singleton_at(res, tok) == Some(singleton_after(rt, tok))
            &&& is_class(res, singleton_after(rt, tok))
            &&& class_at(res, tok) == class_at(rt, tok)
            &&& kind_at(res, tok) == kind_at(rt, tok)
            &&& text_at(res, tok) == text_at(rt, tok)
            &&& res.methods == rt.methods
            &&& res.ivars == rt.ivars
            &&& forall|t: u64|
                t != tok && t != rt.next_token ==> #[trigger] find_object(res.objects, t)
                    == find_object(rt.objects, t)
        }),
{
    let res = with_singleton(rt, tok);
    let o = find_object(rt.objects, tok)->Some_0;
    lemma_find_object_in_table(rt.objects, tok);
    if o.singleton is Some {
        assert(res == rt);
        let i = choose|i: int|
            0 <= i < rt.objects.len() && #[trigger] rt.objects[i] == o;
        assert(row_singleton_ok(rt, rt.objects[i]));
    } else {
        let cls = ObjectView {
            token: rt.next_token,
            class_token: BASE_CLASS_TOKEN,
            singleton: None,
            kind: ValueType::Class,
            text: None,
        };
        let shadow = ObjectView {
            token: tok,
            class_token: o.class_token,
            singleton: Some(rt.next_token),
            kind: o.kind,
            text: o.text,
        };
        assert(res.objects == rt.objects.push(cls).push(shadow));
        assert forall|t: u64| t != tok implies #[trigger] find_object(res.objects, t)
            == find_object(rt.objects.push(cls), t) by {
            lemma_find_object_push(rt.objects.push(cls), shadow, t);
        }
        assert forall|t: u64| t != rt.next_token implies #[trigger] find_object(
            rt.objects.push(cls),
            t,
        ) == find_object(rt.objects, t) by {
            lemma_find_object_push(rt.objects, cls, t);
        }
        lemma_find_object_push(rt.objects.push(cls), shadow, tok);
        lemma_find_object_push(rt.objects, cls, rt.next_token);
        assert(tok < rt.next_token);
        assert(find_object(res.objects, tok) == Some(shadow));
        assert(find_object(res.objects, rt.next_token) == Some(cls));
        if tok == NIL_TOKEN {
            assert(find_object(res.objects, NIL_TOKEN) == Some(shadow));
        } else {
            assert(find_object(res.objects, NIL_TOKEN) == find_object(rt.objects, NIL_TOKEN));
        }
        if tok == BASE_CLASS_TOKEN {
            assert(find_object(res.objects, BASE_CLASS_TOKEN) == Some(shadow));
        } else {
            assert(find_object(res.objects, BASE_CLASS_TOKEN) == find_object(
                rt.objects,
                BASE_CLASS_TOKEN,
            ));
        }
        assert forall|i: int| 0 <= i < res.objects.len() implies (#[trigger] res.objects[i]).token
            < res.next_token by {
            if i < rt.objects.len() {
                assert(res.objects[i] == rt.objects[i]);
            } else if i == rt.objects.len() {
                assert(res.objects[i] == cls);
            } else {
                assert(res.objects[i] == shadow);
            }
        }
        assert forall|i: int| 0 <= i < res.objects.len() implies row_singleton_ok(
            res,
            #[trigger] res.objects[i],
        ) by {
            if i < rt.objects.len() {
                assert(res.objects[i] == rt.objects[i]);
                assert(row_singleton_ok(rt, rt.objects[i]));
                match rt.objects[i].singleton {
                    Some(s) => {
                        lemma_find_object_in_table(rt.objects, s);
                        assert(s < rt.next_token);
                        if s == tok {
                            assert(kind_at(rt, tok) == ValueType::Class);
                            assert(find_object(res.objects, s) == Some(shadow));
                        } else {
                            assert(find_object(res.objects, s) == find_object(rt.objects, s));
                        }
                    },
                    None => {},
                }
            } else if i == rt.objects.len() {
                assert(res.objects[i] == cls);
            } else {
                assert(res.objects[i] == shadow);
                assert(find_object(res.objects, rt.next_token) == Some(cls));
            }
        }
        assert forall|i: int| 0 <= i < res.objects.len() implies is_class(
            res,
            (#[trigger] res.objects[i]).class_token,
        ) by {
            let ct = res.objects[i].class_token;
            if i < rt.objects.len() {
                assert(res.objects[i] == rt.objects[i]);
                assert(is_class(rt, ct));
            } else if i == rt.objects.len() {
                assert(ct == BASE_CLASS_TOKEN);
                assert(is_class(rt, ct));
            } else {
                assert(res.objects[i] == shadow);
                assert(ct == o.class_token);
                let j = choose|j: int|
                    0 <= j < rt.objects.len() && #[trigger] rt.objects[j] == o;
                assert(is_class(rt, ct));
            }
            lemma_find_object_in_table(rt.objects, ct);
            assert(ct < rt.next_token);
            if ct == tok {
                assert(kind_at(rt, tok) == ValueType::Class);
                assert(find_object(res.objects, ct) == Some(shadow));
            } else {
                assert(find_object(res.objects, ct) == find_object(rt.objects, ct));
            }
        }
    }
}

/// The view of an optional string content.
pub open spec fn opt_text_view(t: Option<String>) -> Option<Seq<char>> {
    match t {
        Some(s) => Some(s@),
        None => None,
    }
}

fn clone_text(t: &Option<String>) -> (r: Option<String>)
    ensures
        opt_text_view(r) == opt_text_view(*t),
{
    match t {
        Some(s) => Some(s.clone()),
        None => None,
    }
}

/// The modelled host runtime: the object table, the method registrations
/// and the variable slots that this layer's primitives read and write.
pub struct Runtime {
    objects: Vec<ObjectEntry>,
    methods: Vec<MethodEntry>,
    ivars: Vec<IvarEntry>,
    next_token: u64,
}

impl View for Runtime {
    type V = RuntimeView;

    closed spec fn view(&self) -> RuntimeView {
        RuntimeView {
            objects: self.objects@.map_values(|e: ObjectEntry| e@),
            methods: self.methods@.map_values(|e: MethodEntry| e@),
            ivars: self.ivars@.map_values(|e: IvarEntry| e@),
            next_token: self.next_token,
        }
    }
}

impl Runtime {
    /// Starts a fresh modelled runtime holding only the absence singleton
    /// and the base class.
    pub fn new() -> (r: Runtime)
        ensures
            r@ == initial(),
            wf(r@),
    {
        let mut objects: Vec<ObjectEntry> = Vec::new();
        objects.push(
            ObjectEntry {
                token: BASE_CLASS_TOKEN,
                class_token: BASE_CLASS_TOKEN,
                singleton: None,
                kind: ValueType::Class,
                text: None,
            },
        );
        objects.push(
            ObjectEntry {
                token: NIL_TOKEN,
                class_token: BASE_CLASS_TOKEN,
                singleton: None,
                kind: ValueType::Nil,
                text: None,
            },
        );
        let r = Runtime { objects, methods: Vec::new(), ivars: Vec::new(), next_token: 2 };
        proof {
            assert(r@.objects =~= initial().objects);
            assert(r@.methods =~= initial().methods);
            assert(r@.ivars =~= initial().ivars);
            assert(r@ =~= initial());
            reveal_with_fuel(find_object, 3);
            assert(wf(initial()));
        }
        r
    }

    /// The allocation counter: the token the next created value will
    /// take.  Creation and singleton-class operations require headroom
    /// here; callers that cannot track the counter read it off first.
    pub fn next_token(&self) -> (r: u64)
        ensures
            r == self@.next_token,
    {
        self.next_token
    }

    /// The handle of the absence singleton.
    pub fn nil(&self) -> (r: Value)
        ensures
            r.value == NIL_TOKEN,
            r.spec_is_nil(),
    {
        Value { value: NIL_TOKEN }
    }

    /// The newest object-table row for `tok`.
    fn object_row(&self, tok: u64) -> (r: Option<&ObjectEntry>)
        ensures
            match r {
                Some(e) => find_object(self@.objects, tok) == Some(e@),
                None => find_object(self@.objects, tok) is None,
            },
    {
        let n = self.objects.len();
        let mut i: usize = n;
        proof {
            assert(self@.objects.take(n as int) =~= self@.objects);
        }
        while i > 0
            invariant
                i <= n,
                n == self.objects.len(),
                self@.objects.len() == n,
                find_object(self@.objects, tok) == find_object(
                    self@.objects.take(i as int),
                    tok,
                ),
            decreases i,
        {
            i = i - 1;
            proof {
                let s = self@.objects;
                assert(s.take(i as int + 1).drop_last() =~= s.take(i as int));
                assert(s.take(i as int + 1).last() == s[i as int]);
                assert(s[i as int] == self.objects@[i as int]@);
            }
            let e = &self.objects[i];
            if e.token == tok {
                return Some(e);
            }
        }
        None
    }

    /// The callback most recently registered under `name` on class `owner`.
    fn method_row(&self, owner: u64, name: &String) -> (r: Option<Callback>)
        ensures
            r == find_method(self@.methods, owner, name@),
    {
        let n = self.methods.len();
        let mut i: usize = n;
        proof {
            assert(self@.methods.take(n as int) =~= self@.methods);
        }
        while i > 0
            invariant
                i <= n,
                n == self.methods.len(),
                self@.methods.len() == n,
                find_method(self@.methods, owner, name@) == find_method(
                    self@.methods.take(i as int),
                    owner,
                    name@,
                ),
            decreases i,
        {
            i = i - 1;
            proof {
                let s = self@.methods;
                assert(s.take(i as int + 1).drop_last() =~= s.take(i as int));
                assert(s.take(i as int + 1).last() == s[i as int]);
                assert(s[i as int] == self.methods@[i as int]@);
            }
            let e = &self.methods[i];
            if e.owner == owner && e.name == *name {
                return Some(e.callback);
            }
        }
        None
    }

    /// The value most recently stored in slot `name` of object `owner`.
    fn ivar_row(&self, owner: u64, name: &String) -> (r: Option<Value>)
        ensures
            r == find_ivar(self@.ivars, owner, name@),
    {
        let n = self.ivars.len();
        let mut i: usize = n;
        proof {
            assert(self@.ivars.take(n as int) =~= self@.ivars);
        }
        while i > 0
            invariant
                i <= n,
                n == self.ivars.len(),
                self@.ivars.len() == n,
                find_ivar(self@.ivars, owner, name@) == find_ivar(
                    self@.ivars.take(i as int),
                    owner,
                    name@,
                ),
            decreases i,
        {
            i = i - 1;
            proof {
                let s = self@.ivars;
                assert(s.take(i as int + 1).drop_last() =~= s.take(i as int));
                assert(s.take(i as int + 1).last() == s[i as int]);
                assert(s[i as int] == self.ivars@[i as int]@);
            }
            let e = &self.ivars[i];
            if e.owner == owner && e.name == *name {
                return Some(e.value);
            }
        }
        None
    }

    /// "Get class of handle": the class of a live value.
    pub fn class_of(&self, object: Value) -> (r: Value)
        requires
            live(self@, object.value),
        ensures
            r.value == class_at(self@, object.value),
    {
        match self.object_row(object.value) {
            Some(e) => Value { value: e.class_token },
            None => unreached(),
        }
    }

    /// "Get coarse value kind of handle": the kind of a live value.
    pub fn kind_of(&self, object: Value) -> (r: ValueType)
        requires
            live(self@, object.value),
        ensures
            r == kind_at(self@, object.value),
    {
        match self.object_row(object.value) {
            Some(e) => e.kind,
            None => unreached(),
        }
    }

    /// The coarse kind of any handle, live or not; a dead handle reads as
    /// the kind of the absence singleton.  Verification predicates use this
    /// total form.
    pub fn kind_of_any(&self, object: Value) -> (r: ValueType)
        ensures
            r == kind_at(self@, object.value),
    {
        match self.object_row(object.value) {
            Some(e) => e.kind,
            None => ValueType::Nil,
        }
    }

    /// The character content of a live value, for string-kind values.
    pub fn text_of(&self, object: Value) -> (r: Option<String>)
        requires
            live(self@, object.value),
        ensures
            opt_text_view(r) == text_at(self@, object.value),
    {
        match self.object_row(object.value) {
            Some(e) => clone_text(&e.text),
            None => unreached(),
        }
    }

    /// "Get singleton class of handle": returns the object's singleton
    /// class, creating it on first use.
    pub fn singleton_class_of(&mut self, object: Value) -> (r: Value)
        requires
            wf(old(self)@),
            live(old(self)@, object.value),
            old(self)@.next_token < u64::MAX,
        ensures
            final(self)@ == with_singleton(old(self)@, object.value),
            wf(final(self)@),
            r.value == singleton_after(old(self)@, object.value),
            is_class(final(self)@, r.value),
    {
        let ghost ov = self@;
        let (class_token, singleton, kind, text) = match self.object_row(object.value) {
            Some(e) => (e.class_token, e.singleton, e.kind, clone_text(&e.text)),
            None => unreached(),
        };
        proof {
            lemma_with_singleton(ov, object.value);
        }
        match singleton {
            Some(s) => Value { value: s },
            None => {
                let s = self.next_token;
                self.objects.push(
                    ObjectEntry {
                        token: s,
                        class_token: BASE_CLASS_TOKEN,
                        singleton: None,
                        kind: ValueType::Class,
                        text: None,
                    },
                );
                self.objects.push(
                    ObjectEntry { token: object.value, class_token, singleton: Some(s), kind, text },
                );
                self.next_token = self.next_token + 1;
                proof {
                    let o = find_object(ov.objects, object.value)->Some_0;
                    let cls = ObjectView {
                        token: ov.next_token,
                        class_token: BASE_CLASS_TOKEN,
                        singleton: None,
                        kind: ValueType::Class,
                        text: None,
                    };
                    let shadow = ObjectView {
                        token: object.value,
                        class_token: o.class_token,
                        singleton: Some(ov.next_token),
                        kind: o.kind,
                        text: o.text,
                    };
                    assert(self@.objects =~= ov.objects.push(cls).push(shadow));
                    assert(self@.methods =~= ov.methods);
                    assert(self@.ivars =~= ov.ivars);
                    assert(self@ =~= with_singleton(ov, object.value));
                }
                Value { value: s }
            },
        }
    }

    /// "Define method": registers `callback` under `name` on the class
    /// `target`.  Last write wins; nothing ever removes a registration.
    pub fn define_method(&mut self, target: Value, name: &str, callback: Callback)
        requires
            wf(old(self)@),
            is_class(old(self)@, target.value),
        ensures
            final(self)@ == with_method(old(self)@, target.value, name@, callback),
            wf(final(self)@),
    {
        let ghost ov = self@;
        let owned: String = name.to_owned();
        self.methods.push(MethodEntry { owner: target.value, name: owned, callback });
        proof {
            assert(self@.methods =~= ov.methods.push(
                MethodView { owner: target.value, name: name@, callback },
            ));
            assert(self@.objects =~= ov.objects);
            assert(self@.ivars =~= ov.ivars);
            assert(self@ =~= with_method(ov, target.value, name@, callback));
            lemma_live_token_bound(ov, target.value);
            lemma_wf_with_method(ov, target.value, name@, callback);
        }
    }

    /// "Define singleton method": registers `callback` under `name` on the
    /// object's singleton class, creating that class on first use.
    pub fn define_singleton_method(&mut self, object: Value, name: &str, callback: Callback)
        requires
            wf(old(self)@),
            live(old(self)@, object.value),
            old(self)@.next_token < u64::MAX,
        ensures
            final(self)@ == with_method(
                with_singleton(old(self)@, object.value),
                singleton_after(old(self)@, object.value),
                name@,
                callback,
            ),
            wf(final(self)@),
    {
        let s = self.singleton_class_of(object);
        self.define_method(s, name, callback);
    }

    /// "Resolve method": the callback a dynamic call on `receiver` would
    /// run, searching its singleton class first, then its class.
    pub fn resolve(&self, receiver: Value, name: &str) -> (r: Option<Callback>)
        ensures
            r == resolves(self@, receiver.value, name@),
    {
        let owned: String = name.to_owned();
        match self.object_row(receiver.value) {
            Some(e) => {
                let class_token = e.class_token;
                match e.singleton {
                    Some(s) => match self.method_row(s, &owned) {
                        Some(c) => Some(c),
                        None => self.method_row(class_token, &owned),
                    },
                    None => self.method_row(class_token, &owned),
                }
            },
            None => None,
        }
    }

    /// "Does the receiver respond": method resolution succeeds.
    pub fn respond_to(&self, receiver: Value, name: &str) -> (r: bool)
        ensures
            r == responds(self@, receiver.value, name@),
    {
        self.resolve(receiver, name).is_some()
    }

    /// "Get named slot": the value of the slot, or the absence singleton
    /// when the slot was never written.
    pub fn instance_variable_get(&self, object: Value, name: &str) -> (r: Value)
        ensures
            r == ivar_or_nil(self@, object.value, name@),
    {
        let owned: String = name.to_owned();
        match self.ivar_row(object.value, &owned) {
            Some(v) => v,
            None => Value { value: NIL_TOKEN },
        }
    }

    /// "Set named slot": writes `value` into the slot.  Last write wins.
    pub fn instance_variable_set(&mut self, object: Value, name: &str, value: Value)
        requires
            wf(old(self)@),
            live(old(self)@, object.value),
        ensures
            final(self)@ == with_ivar(old(self)@, object.value, name@, value),
            wf(final(self)@),
    {
        let ghost ov = self@;
        let owned: String = name.to_owned();
        self.ivars.push(IvarEntry { owner: object.value, name: owned, value });
        proof {
            assert(self@.ivars =~= ov.ivars.push(
                IvarView { owner: object.value, name: name@, value },
            ));
            assert(self@.objects =~= ov.objects);
            assert(self@.methods =~= ov.methods);
            assert(self@ =~= with_ivar(ov, object.value, name@, value));
            lemma_live_token_bound(ov, object.value);
            lemma_wf_with_ivar(ov, object.value, name@, value);
        }
    }

    /// "Create value": a fresh object of the class `class_of`, with the
    /// given coarse kind and, for string-kind values, its content.  The
    /// fresh handle is never the absence singleton.
    pub fn new_object(&mut self, class_of: Value, kind: ValueType, text: Option<String>) -> (r:
        Value)
        requires
            wf(old(self)@),
            is_class(old(self)@, class_of.value),
            old(self)@.next_token < u64::MAX,
        ensures
            final(self)@ == with_object(old(self)@, class_of.value, kind, opt_text_view(text)),
            wf(final(self)@),
            r.value == old(self)@.next_token,
            live(final(self)@, r.value),
            class_at(final(self)@, r.value) == class_of.value,
            kind_at(final(self)@, r.value) == kind,
            singleton_at(final(self)@, r.value) is None,
            text_at(final(self)@, r.value) == opt_text_view(text),
            !r.spec_is_nil(),
    {
        let ghost ov = self@;
        let token = self.next_token;
        self.objects.push(
            ObjectEntry { token, class_token: class_of.value, singleton: None, kind, text },
        );
        self.next_token = self.next_token + 1;
        proof {
            assert(self@.objects =~= ov.objects.push(
                ObjectView {
                    token: ov.next_token,
                    class_token: class_of.value,
                    singleton: None,
                    kind,
                    text: opt_text_view(text),
                },
            ));
            assert(self@.methods =~= ov.methods);
            assert(self@.ivars =~= ov.ivars);
            assert(self@ =~= with_object(ov, class_of.value, kind, opt_text_view(text)));
            lemma_with_object(ov, class_of.value, kind, opt_text_view(text));
        }
        Value { value: token }
    }

    /// The handle of the base class, present from the start.
    pub fn base_class(&self) -> (r: Value)
        requires
            wf(self@),
        ensures
            r.value == BASE_CLASS_TOKEN,
            is_class(self@, r.value),
    {
        Value { value: BASE_CLASS_TOKEN }
    }
}

} // verus!
