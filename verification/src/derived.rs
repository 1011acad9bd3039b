use vstd::prelude::*;

use crate::observable::Observable;
use crate::registry::{deliveries_for, CallbackKind, Delivery, EntryModel, Registry};
use crate::{Callback, Emitter, Readable, Writable};

verus! {

/// A read-only observable whose value is recomputed from its source cells.
/// The derived value owns its sources: every write to a source goes through
/// `set_source`, which first drives the source's own dispatch, then
/// recomputes the cached value and dispatches the derived registry — one
/// recomputation and one downstream notification per upstream write, with no
/// coalescing and no change filtering.
pub struct Derived<Value, F, C> {
    pub sources: Vec<Observable<Value, C>>,
    pub value: Value,
    pub compute: F,
    pub registry: Registry<C>,
    pub log: Ghost<Seq<Delivery<Value>>>,
}

impl<Value: Copy, F: Fn(Vec<Value>) -> Value, C: Callback<Value>> Derived<Value, F, C> {
    /// The current values of the sources, in order: the recomputation
    /// function's input.
    pub open spec fn inputs(&self) -> Seq<Value> {
        self.sources@.map(|i: int, s: Observable<Value, C>| s.current())
    }

    /// The cached value is a result of the recomputation function on the
    /// current source values: it is kept consistent eagerly, on every
    /// upstream write.
    pub open spec fn consistent(&self) -> bool {
        exists|args: Vec<Value>|
            args@ == self.inputs() && #[trigger] call_ensures(self.compute, (args,), self.value)
    }

    /// Reads the current value of every source, in order.
    fn read_all(sources: &Vec<Observable<Value, C>>) -> (values: Vec<Value>)
        requires
            forall|i: int| 0 <= i < sources@.len() ==> (#[trigger] sources@[i]).inv(),
        ensures
            values@ == sources@.map(|i: int, s: Observable<Value, C>| s.current()),
    {
        let mut values: Vec<Value> = Vec::new();
        let n = sources.len();
        let mut i: usize = 0;
        proof {
            assert(values@ =~= sources@.take(0).map(
                |k: int, s: Observable<Value, C>| s.current(),
            ));
        }
        while i < n
            invariant
                n == sources@.len(),
                i <= n,
                forall|k: int| 0 <= k < sources@.len() ==> (#[trigger] sources@[k]).inv(),
                values@ == sources@.take(i as int).map(
                    |k: int, s: Observable<Value, C>| s.current(),
                ),
            decreases n - i,
        {
            let v = sources[i].get();
            values.push(v);
            proof {
                assert(values@ =~= sources@.take(i as int + 1).map(
                    |k: int, s: Observable<Value, C>| s.current(),
                ));
            }
            i += 1;
        }
        proof {
            assert(sources@.take(n as int) =~= sources@);
        }
        values
    }

    /// A change that touches neither the sources, the cache, nor the
    /// recomputation function — a registration or deregistration, say — keeps
    /// the cache consistent.
    pub proof fn lemma_same_model_keeps_consistent(pre: Self, post: Self)
        requires
            pre.consistent(),
            post.sources == pre.sources,
            post.value == pre.value,
            post.compute == pre.compute,
        ensures
            post.consistent(),
    {
        assert(post.inputs() =~= pre.inputs());
        let a = choose|a: Vec<Value>|
            a@ == pre.inputs() && #[trigger] call_ensures(pre.compute, (a,), pre.value);
        assert(a@ == post.inputs() && call_ensures(post.compute, (a,), post.value));
    }

    /// Creates a derived value over the given sources. The recomputation
    /// function is evaluated once, synchronously, to obtain the initial
    /// cached value; the registry starts empty and nothing is delivered.
    pub fn new(sources: Vec<Observable<Value, C>>, compute: F) -> (r: Self)
        requires
            forall|i: int| 0 <= i < sources@.len() ==> (#[trigger] sources@[i]).inv(),
            forall|args: Vec<Value>|
                args@ == sources@.map(|i: int, s: Observable<Value, C>| s.current())
                    ==> #[trigger] call_requires(compute, (args,)),
        ensures
            r.inv(),
            r.sources@ == sources@,
            r.compute == compute,
            r.reg() == Seq::<EntryModel>::empty(),
            r.next_id() == 0,
            r.history() == Seq::<Delivery<Value>>::empty(),
            r.consistent(),
    {
        let args = Self::read_all(&sources);
        let value = compute(args);
        let r = Derived { sources, value, compute, registry: Registry::new(), log: Ghost(Seq::empty()) };
        proof {
            assert(r.inputs() =~= args@);
            assert(args@ == r.inputs() && call_ensures(r.compute, (args,), r.value));
        }
        r
    }

    /// Writes `value` to the source at `index`: the source replaces its value
    /// and fires its own callbacks, then the derived value recomputes its
    /// cache from all current source values and fires its own registry once —
    /// whether or not the recomputed value changed.
    pub fn set_source(&mut self, index: usize, value: Value)
        requires
            old(self).inv(),
            index < old(self).sources@.len(),
            forall|args: Vec<Value>|
                args@ == old(self).inputs().update(index as int, value)
                    ==> #[trigger] call_requires(old(self).compute, (args,)),
        ensures
            final(self).inv(),
            final(self).sources@.len() == old(self).sources@.len(),
            final(self).sources@[index as int].current() == value,
            final(self).sources@[index as int].reg() == old(self).sources@[index as int].reg(),
            final(self).sources@[index as int].next_id() == old(self).sources@[index as int].next_id(),
            final(self).sources@[index as int].history() == old(self).sources@[index as int].history()
                + deliveries_for(old(self).sources@[index as int].reg(), value),
            forall|j: int|
                0 <= j < old(self).sources@.len() && j != index as int ==> final(self).sources@[j]
                    == old(self).sources@[j],
            final(self).inputs() == old(self).inputs().update(index as int, value),
            final(self).compute == old(self).compute,
            final(self).reg() == old(self).reg(),
            final(self).next_id() == old(self).next_id(),
            final(self).consistent(),
            final(self).history() == old(self).history() + deliveries_for(
                old(self).reg(),
                final(self).current(),
            ),
    {
        let source = &mut self.sources[index];
        source.set(value);
        proof {
            assert forall|k: int| 0 <= k < self.sources@.len() implies (
            #[trigger] self.sources@[k]).inv() by {
                if k != index as int {
                    assert(self.sources@[k] == old(self).sources@[k]);
                }
            }
            assert(self.inputs() =~= old(self).inputs().update(index as int, value));
        }
        let args = Self::read_all(&self.sources);
        let new_value = (self.compute)(args);
        self.value = new_value;
        let fired = self.registry.dispatch(self.value);
        self.log = Ghost(self.log@ + fired@);
        proof {
            assert(self.inputs() =~= old(self).inputs().update(index as int, value));
            assert(args@ == self.inputs() && call_ensures(self.compute, (args,), self.value));
        }
    }
}

impl<Value: Copy, F, C: Callback<Value>> Emitter<Value, C> for Derived<Value, F, C> {
    open spec fn reg(&self) -> Seq<EntryModel> {
        self.registry.model()
    }

    open spec fn next_id(&self) -> int {
        self.registry.next_id()
    }

    open spec fn history(&self) -> Seq<Delivery<Value>> {
        self.log@
    }

    open spec fn inv(&self) -> bool {
        &&& self.registry.wf()
        &&& forall|i: int| 0 <= i < self.sources@.len() ==> (#[trigger] self.sources@[i]).inv()
    }

    open spec fn same_state(pre: Self, post: Self) -> bool {
        &&& post.value == pre.value
        &&& post.sources == pre.sources
        &&& post.compute == pre.compute
    }

    fn listen(&mut self, callback: C) -> (id: usize) {
        self.registry.insert(CallbackKind::Listener, callback)
    }

    fn unregister(&mut self, id: usize) {
        self.registry.remove(id);
    }
}

impl<Value: Copy, F, C: Callback<Value>> Readable<Value, C> for Derived<Value, F, C> {
    open spec fn current(&self) -> Value {
        self.value
    }

    fn get(&self) -> (r: Value) {
        self.value
    }

    fn subscribe(&mut self, callback: C) -> (id: usize) {
        callback.on_value(&self.value);
        let id = self.registry.insert(CallbackKind::Subscriber, callback);
        self.log = Ghost(
            self.log@.push(Delivery { id: id as int, payload: Some(self.value) }),
        );
        id
    }
}

} // verus!
