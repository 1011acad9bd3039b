use vstd::prelude::*;

use crate::registry::{deliveries_for, CallbackKind, Delivery, EntryModel, Registry};
use crate::{Callback, Emitter, Readable, Writable};

verus! {

/// A readable and writable observable value: the baseline mutable cell.
/// Every write replaces the value and then fires every registered callback,
/// whether or not the value changed; `log` is the ghost history of the
/// deliveries made so far.
pub struct Observable<Value, C> {
    pub value: Value,
    pub registry: Registry<C>,
    pub log: Ghost<Seq<Delivery<Value>>>,
}

impl<Value: Copy, C: Callback<Value>> Observable<Value, C> {
    /// Creates a new observable value with an empty registry and no
    /// deliveries made.
    pub fn new(value: Value) -> (r: Self)
        ensures
            r.inv(),
            r.current() == value,
            r.reg() == Seq::<EntryModel>::empty(),
            r.next_id() == 0,
            r.history() == Seq::<Delivery<Value>>::empty(),
    {
        Observable { value, registry: Registry::new(), log: Ghost(Seq::empty()) }
    }

    /// Runs all registered callbacks with the current value and records the
    /// deliveries.
    fn notify(&mut self)
        requires
            old(self).inv(),
        ensures
            final(self).inv(),
            final(self).value == old(self).value,
            final(self).registry == old(self).registry,
            final(self).log@ == old(self).log@ + deliveries_for(old(self).registry.model(), old(self).value),
    {
        let fired = self.registry.dispatch(self.value);
        self.log = Ghost(self.log@ + fired@);
    }
}

impl<Value: Copy, C: Callback<Value>> Emitter<Value, C> for Observable<Value, C> {
    open spec fn reg(&self) -> Seq<EntryModel> {
        self.registry.model()
    }

    open spec fn next_id(&self) -> int {
        self.registry.next_id()
    }

    open spec fn history(&self) -> Seq<Delivery<Value>> {
        self.log@
    }

    open spec fn inv(&self) -> bool {
        self.registry.wf()
    }

    open spec fn same_state(pre: Self, post: Self) -> bool {
        post.value == pre.value
    }

    fn listen(&mut self, callback: C) -> (id: usize) {
        self.registry.insert(CallbackKind::Listener, callback)
    }

    fn unregister(&mut self, id: usize) {
        self.registry.remove(id);
    }
}

impl<Value: Copy, C: Callback<Value>> Readable<Value, C> for Observable<Value, C> {
    open spec fn current(&self) -> Value {
        self.value
    }

    fn get(&self) -> (r: Value) {
        self.value
    }

    fn subscribe(&mut self, callback: C) -> (id: usize) {
        callback.on_value(&self.value);
        let id = self.registry.insert(CallbackKind::Subscriber, callback);
        self.log = Ghost(
            self.log@.push(Delivery { id: id as int, payload: Some(self.value) }),
        );
        id
    }
}

impl<Value: Copy, C: Callback<Value>> Writable<Value, C> for Observable<Value, C> {
    /// One write: the value is replaced and every registered callback is
    /// fired once with the new value, even when it equals the old one.
    open spec fn set_spec(pre: Self, post: Self, value: Value) -> bool {
        &&& post.value == value
        &&& post.reg() == pre.reg()
        &&& post.next_id() == pre.next_id()
        &&& post.history() == pre.history() + deliveries_for(pre.reg(), value)
    }

    fn set(&mut self, value: Value) {
        self.value = value;
        self.notify();
    }

    fn update<F: Fn(Value) -> Value>(&mut self, updater: F) {
        let new_value = updater(self.value);
        self.set(new_value);
    }
}

/// Get/set round trip: after one write of `value` the cell reads back
/// exactly `value`, whatever it held before.
pub proof fn lemma_set_get_roundtrip<Value: Copy, C: Callback<Value>>(
    pre: Observable<Value, C>,
    post: Observable<Value, C>,
    value: Value,
)
    requires
        <Observable<Value, C> as Writable<Value, C>>::set_spec(pre, post, value),
    ensures
        post.current() == value,
{
}

/// Every write notifies every registered callback exactly once: one write
/// appends exactly one delivery per registered entry, and the k-th appended
/// delivery goes to the k-th entry — with the written value for subscribers
/// and no payload for listeners.
pub proof fn lemma_set_notifies_every_entry<Value: Copy, C: Callback<Value>>(
    pre: Observable<Value, C>,
    post: Observable<Value, C>,
    value: Value,
)
    requires
        <Observable<Value, C> as Writable<Value, C>>::set_spec(pre, post, value),
    ensures
        post.history().len() == pre.history().len() + pre.reg().len(),
        forall|k: int|
            0 <= k < pre.reg().len() ==> (#[trigger] post.history()[pre.history().len() + k]).id
                == pre.reg()[k].id,
        forall|k: int|
            0 <= k < pre.reg().len() ==> (#[trigger] post.history()[pre.history().len() + k]).payload
                == (if pre.reg()[k].kind is Subscriber {
                Some(value)
            } else {
                None::<Value>
            }),
{
}

/// Update composition: a write of `v0` followed by an update with a function
/// whose only possible result on `v0` is `fv` leaves the cell holding `fv`.
pub proof fn lemma_update_composition<Value: Copy, C: Callback<Value>, F: Fn(Value) -> Value>(
    pre: Observable<Value, C>,
    mid: Observable<Value, C>,
    post: Observable<Value, C>,
    updater: F,
    v0: Value,
    fv: Value,
)
    requires
        <Observable<Value, C> as Writable<Value, C>>::set_spec(pre, mid, v0),
        exists|r: Value|
            #[trigger] call_ensures(updater, (mid.current(),), r) && <Observable<Value, C> as Writable<
                Value,
                C,
            >>::set_spec(mid, post, r),
        forall|r: Value| #[trigger] call_ensures(updater, (v0,), r) ==> r == fv,
    ensures
        post.current() == fv,
{
}

} // verus!
