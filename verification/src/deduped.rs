use vstd::prelude::*;
use vstd::std_specs::cmp::PartialEqSpec;

use crate::observable::Observable;
use crate::registry::{deliveries_for, CallbackKind, Delivery, EntryModel, Registry};
use crate::{Callback, Emitter, Readable, Writable};

verus! {

/// Executable equality on `Value` agrees with logical equality. The change
/// filter compares values with `==`, so `Deduped` requires value types whose
/// equality really decides sameness (the built-in integer and boolean types
/// qualify).
pub open spec fn eq_is_exact<Value: PartialEq>() -> bool {
    &&& Value::obeys_eq_spec()
    &&& forall|a: Value, b: Value| #[trigger] a.eq_spec(&b) <==> a == b
}

/// A change-filtering wrapper around a cell. It owns the wrapped cell, keeps
/// a shadow copy of its value, forwards every write to the cell — whose own
/// callbacks always fire — and fires its own registry only when the written
/// value actually differs from the shadow value.
pub struct Deduped<Value, C> {
    pub target: Observable<Value, C>,
    pub value: Value,
    pub registry: Registry<C>,
    pub log: Ghost<Seq<Delivery<Value>>>,
}

impl<Value: Copy + PartialEq + Eq, C: Callback<Value>> Deduped<Value, C> {
    /// The wrapped cell.
    pub open spec fn wrapped(&self) -> Observable<Value, C> {
        self.target
    }

    /// Creates a deduplicated value by wrapping an existing cell: the shadow
    /// value starts as a copy of the cell's current value.
    pub fn from(target: Observable<Value, C>) -> (r: Self)
        requires
            target.inv(),
            eq_is_exact::<Value>(),
        ensures
            r.inv(),
            r.current() == target.current(),
            r.wrapped() == target,
            r.reg() == Seq::<EntryModel>::empty(),
            r.next_id() == 0,
            r.history() == Seq::<Delivery<Value>>::empty(),
    {
        let value = target.get();
        Deduped { target, value, registry: Registry::new(), log: Ghost(Seq::empty()) }
    }

    /// Creates a standalone deduplicated value around a fresh internal cell.
    pub fn new(value: Value) -> (r: Self)
        requires
            eq_is_exact::<Value>(),
        ensures
            r.inv(),
            r.current() == value,
            r.wrapped().current() == value,
            r.wrapped().reg() == Seq::<EntryModel>::empty(),
            r.wrapped().next_id() == 0,
            r.wrapped().history() == Seq::<Delivery<Value>>::empty(),
            r.reg() == Seq::<EntryModel>::empty(),
            r.next_id() == 0,
            r.history() == Seq::<Delivery<Value>>::empty(),
    {
        let target = Observable::new(value);
        Self::from(target)
    }

    /// Read access to the wrapped cell.
    pub fn target(&self) -> (r: &Observable<Value, C>)
        ensures
            *r == self.wrapped(),
    {
        &self.target
    }
}

impl<Value: Copy + PartialEq + Eq, C: Callback<Value>> Emitter<Value, C> for Deduped<Value, C> {
    open spec fn reg(&self) -> Seq<EntryModel> {
        self.registry.model()
    }

    open spec fn next_id(&self) -> int {
        self.registry.next_id()
    }

    open spec fn history(&self) -> Seq<Delivery<Value>> {
        self.log@
    }

    /// The shadow value always equals the wrapped cell's value: every write
    /// goes through the wrapper, and the wrapped cell's notification path is
    /// what updates the shadow.
    open spec fn inv(&self) -> bool {
        &&& self.target.inv()
        &&& self.registry.wf()
        &&& self.value == self.target.current()
        &&& eq_is_exact::<Value>()
    }

    open spec fn same_state(pre: Self, post: Self) -> bool {
        &&& post.value == pre.value
        &&& post.target == pre.target
    }

    fn listen(&mut self, callback: C) -> (id: usize) {
        self.registry.insert(CallbackKind::Listener, callback)
    }

    fn unregister(&mut self, id: usize) {
        self.registry.remove(id);
    }
}

impl<Value: Copy + PartialEq + Eq, C: Callback<Value>> Readable<Value, C> for Deduped<Value, C> {
    open spec fn current(&self) -> Value {
        self.value
    }

    fn get(&self) -> (r: Value) {
        self.value
    }

    fn subscribe(&mut self, callback: C) -> (id: usize) {
        callback.on_value(&self.value);
        let id = self.registry.insert(CallbackKind::Subscriber, callback);
        self.log = Ghost(
            self.log@.push(Delivery { id: id as int, payload: Some(self.value) }),
        );
        id
    }
}

impl<Value: Copy + PartialEq + Eq, C: Callback<Value>> Writable<Value, C> for Deduped<Value, C> {
    /// One write through the wrapper: the wrapped cell takes the value and
    /// always fires its own callbacks; the wrapper updates its shadow and
    /// fires its own callbacks if and only if the value differs from the
    /// shadow.
    open spec fn set_spec(pre: Self, post: Self, value: Value) -> bool {
        &&& <Observable<Value, C> as Writable<Value, C>>::set_spec(
            pre.target,
            post.target,
            value,
        )
        &&& post.reg() == pre.reg()
        &&& post.next_id() == pre.next_id()
        &&& if value == pre.value {
            post.value == pre.value && post.history() == pre.history()
        } else {
            post.value == value && post.history() == pre.history() + deliveries_for(
                pre.reg(),
                value,
            )
        }
    }

    fn set(&mut self, value: Value) {
        self.target.set(value);
        let observed = self.target.get();
        if observed != self.value {
            self.value = observed;
            let fired = self.registry.dispatch(self.value);
            self.log = Ghost(self.log@ + fired@);
        }
    }

    fn update<F: Fn(Value) -> Value>(&mut self, updater: F) {
        let current = self.target.get();
        let new_value = updater(current);
        self.set(new_value);
    }
}

/// Writes pass through: after one write of `value` through the wrapper, both
/// the wrapped cell and the wrapper itself read back `value`, whether or not
/// anything was dispatched.
pub proof fn lemma_deduped_passthrough<Value: Copy + PartialEq + Eq, C: Callback<Value>>(
    pre: Deduped<Value, C>,
    post: Deduped<Value, C>,
    value: Value,
)
    requires
        pre.inv(),
        <Deduped<Value, C> as Writable<Value, C>>::set_spec(pre, post, value),
    ensures
        post.wrapped().current() == value,
        post.current() == value,
{
}

/// The change filter: writing the value already held dispatches nothing from
/// the wrapper; writing a different value dispatches exactly one delivery per
/// callback registered on the wrapper.
pub proof fn lemma_deduped_filters<Value: Copy + PartialEq + Eq, C: Callback<Value>>(
    pre: Deduped<Value, C>,
    post: Deduped<Value, C>,
    value: Value,
)
    requires
        pre.inv(),
        <Deduped<Value, C> as Writable<Value, C>>::set_spec(pre, post, value),
    ensures
        value == pre.current() ==> post.history() == pre.history(),
        value != pre.current() ==> post.history() == pre.history() + deliveries_for(
            pre.reg(),
            value,
        ) && post.history().len() == pre.history().len() + pre.reg().len(),
{
}

} // verus!
