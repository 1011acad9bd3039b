use vstd::prelude::*;

use crate::Callback;

verus! {

/// The two shapes a registered callback can have: a listener is fired with no
/// argument, a subscriber receives the value that was written.
#[derive(Clone, Copy)]
pub enum CallbackKind {
    Listener,
    Subscriber,
}

/// One registered callback, keyed by its stable identifier.
pub struct Entry<C> {
    pub id: usize,
    pub kind: CallbackKind,
    pub callback: C,
}

/// The ghost image of a registry entry: its identifier and its shape.
pub struct EntryModel {
    pub id: int,
    pub kind: CallbackKind,
}

/// The ghost record of one callback invocation: the identifier of the entry
/// that fired and, for a subscriber, the value it received.
pub struct Delivery<Value> {
    pub id: int,
    pub payload: Option<Value>,
}

impl<C> Entry<C> {
    pub open spec fn model(&self) -> EntryModel {
        EntryModel { id: self.id as int, kind: self.kind }
    }
}

/// The deliveries produced by one dispatch over the given entries: every entry
/// is fired exactly once, in registry order; subscribers receive `value`.
pub open spec fn deliveries_for<Value>(entries: Seq<EntryModel>, value: Value) -> Seq<
    Delivery<Value>,
> {
    entries.map(
        |i: int, e: EntryModel|
            Delivery {
                id: e.id,
                payload: if e.kind is Subscriber {
                    Some(value)
                } else {
                    None
                },
            },
    )
}

/// Well-formedness of a registry: identifiers are strictly increasing in
/// registration order and every identifier is below the counter, so no
/// identifier is ever reused for the lifetime of the registry.
pub open spec fn entries_ok(entries: Seq<EntryModel>, next: int) -> bool {
    &&& forall|i: int, j: int|
        #![trigger entries[i], entries[j]]
        0 <= i < j < entries.len() ==> entries[i].id < entries[j].id
    &&& forall|i: int| 0 <= i < entries.len() ==> 0 <= (#[trigger] entries[i]).id < next
}

/// Relates a registry's entries before and after one deregistration of `id`:
/// exactly the entries carrying `id` are gone, and removing an absent
/// identifier changes nothing.
pub open spec fn removal(pre: Seq<EntryModel>, post: Seq<EntryModel>, id: int) -> bool {
    &&& forall|e: EntryModel| #[trigger] post.contains(e) <==> pre.contains(e) && e.id != id
    &&& (forall|i: int| 0 <= i < pre.len() ==> (#[trigger] pre[i]).id != id) ==> post == pre
}

/// The subscription registry: callbacks keyed by a monotonically increasing
/// identifier. Kept in registration order, which identifier order matches.
pub struct Registry<C> {
    pub entries: Vec<Entry<C>>,
    pub counter: usize,
}

impl<C> Registry<C> {
    pub open spec fn model(&self) -> Seq<EntryModel> {
        self.entries@.map(|i: int, e: Entry<C>| e.model())
    }

    pub open spec fn next_id(&self) -> int {
        self.counter as int
    }

    pub open spec fn wf(&self) -> bool {
        entries_ok(self.model(), self.next_id())
    }

    pub fn new() -> (r: Self)
        ensures
            r.wf(),
            r.model() == Seq::<EntryModel>::empty(),
            r.next_id() == 0,
    {
        let r = Registry { entries: Vec::new(), counter: 0 };
        proof {
            assert(r.model() =~= Seq::<EntryModel>::empty());
        }
        r
    }

    /// Registers a callback under the next identifier; the counter is never
    /// decremented, so the identifier is fresh for the registry's lifetime.
    pub fn insert(&mut self, kind: CallbackKind, callback: C) -> (id: usize)
        requires
            old(self).wf(),
            old(self).next_id() < usize::MAX as int,
        ensures
            final(self).wf(),
            id as int == old(self).next_id(),
            final(self).next_id() == old(self).next_id() + 1,
            final(self).model() == old(self).model().push(
                (EntryModel { id: old(self).next_id(), kind }),
            ),
    {
        let id = self.counter;
        self.counter = self.counter + 1;
        self.entries.push(Entry { id, kind, callback });
        proof {
            assert(self.model() =~= old(self).model().push(
                EntryModel { id: id as int, kind },
            ));
        }
        id
    }

    /// Deregisters the entry carrying `id`, if any; absent identifiers are a
    /// no-op, so deregistration is idempotent.
    pub fn remove(&mut self, id: usize)
        requires
            old(self).wf(),
        ensures
            final(self).wf(),
            final(self).next_id() == old(self).next_id(),
            removal(old(self).model(), final(self).model(), id as int),
    {
        let n = self.entries.len();
        let mut i: usize = 0;
        while i < n
            invariant
                old(self).wf(),
                *self == *old(self),
                n == self.entries.len(),
                i <= n,
                forall|j: int| 0 <= j < i as int ==> (#[trigger] old(self).model()[j]).id != id as int,
            decreases n - i,
        {
            if self.entries[i].id == id {
                self.entries.remove(i);
                proof {
                    assert(self.model() =~= old(self).model().remove(i as int));
                    lemma_remove_entry(old(self).model(), i as int, id as int, old(self).next_id());
                }
                return ;
            }
            i += 1;
        }
        proof {
            assert forall|e: EntryModel| old(self).model().contains(e) implies e.id != id as int by {
                let j = choose|j: int|
                    0 <= j < old(self).model().len() && old(self).model()[j] == e;
                assert(old(self).model()[j].id != id as int);
            }
        }
    }

    /// Fires every currently registered callback once, in registry order:
    /// subscribers receive `value`, listeners no argument. Returns the ghost
    /// record of the deliveries that were made, exactly one per entry.
    pub fn dispatch<Value: Copy>(&self, value: Value) -> (fired: Ghost<Seq<Delivery<Value>>>) where
        C: Callback<Value>,

        ensures
            fired@ == deliveries_for(self.model(), value),
    {
        let ghost mut log: Seq<Delivery<Value>> = Seq::empty();
        proof {
            assert(log =~= deliveries_for(self.model().take(0), value));
        }
        let n = self.entries.len();
        let mut i: usize = 0;
        while i < n
            invariant
                n == self.entries.len(),
                i <= n,
                log == deliveries_for(self.model().take(i as int), value),
            decreases n - i,
        {
            let entry = &self.entries[i];
            match entry.kind {
                CallbackKind::Subscriber => entry.callback.on_value(&value),
                CallbackKind::Listener => entry.callback.on_signal(),
            }
            proof {
                log = log.push(
                    Delivery {
                        id: entry.id as int,
                        payload: if entry.kind is Subscriber {
                            Some(value)
                        } else {
                            None
                        },
                    },
                );
                assert(log =~= deliveries_for(self.model().take(i as int + 1), value));
            }
            i += 1;
        }
        proof {
            assert(self.model().take(n as int) =~= self.model());
        }
        Ghost(log)
    }
}

/// Removing the entry at `idx`, the only one carrying `id`, realises the
/// `removal` relation and preserves well-formedness.
proof fn lemma_remove_entry(pre: Seq<EntryModel>, idx: int, id: int, next: int)
    requires
        entries_ok(pre, next),
        0 <= idx < pre.len(),
        pre[idx].id == id,
    ensures
        entries_ok(pre.remove(idx), next),
        removal(pre, pre.remove(idx), id),
{
    let post = pre.remove(idx);
    assert forall|j: int| 0 <= j < post.len() implies post[j] == (if j < idx {
        pre[j]
    } else {
        pre[j + 1]
    }) by {}
    assert forall|j: int| 0 <= j < pre.len() && j != idx implies (#[trigger] pre[j]).id != id by {
        if j < idx {
            assert(pre[j].id < pre[idx].id);
        } else {
            assert(pre[idx].id < pre[j].id);
        }
    }
    assert forall|e: EntryModel| post.contains(e) implies pre.contains(e) && e.id != id by {
        let j = choose|j: int| 0 <= j < post.len() && post[j] == e;
        if j < idx {
            assert(pre[j] == e);
        } else {
            assert(pre[j + 1] == e);
        }
    }
    assert forall|e: EntryModel| pre.contains(e) && e.id != id implies post.contains(e) by {
        let j = choose|j: int| 0 <= j < pre.len() && pre[j] == e;
        if j < idx {
            assert(post[j] == e);
        } else {
            assert(post[j - 1] == e);
        }
    }
    assert(pre[idx].id == id);
}

/// Deregistration is idempotent: a second removal of the same identifier
/// leaves the registry exactly as the first left it.
pub proof fn lemma_unregister_idempotent(
    r0: Seq<EntryModel>,
    r1: Seq<EntryModel>,
    r2: Seq<EntryModel>,
    id: int,
)
    requires
        removal(r0, r1, id),
        removal(r1, r2, id),
    ensures
        r2 == r1,
{
    assert forall|i: int| 0 <= i < r1.len() implies (#[trigger] r1[i]).id != id by {
        assert(r1.contains(r1[i]));
    }
}

/// Deregistration is effective: no dispatch after the removal of `id` ever
/// delivers to that identifier again.
pub proof fn lemma_unregistered_receives_nothing<Value>(
    r0: Seq<EntryModel>,
    r1: Seq<EntryModel>,
    id: int,
    value: Value,
)
    requires
        removal(r0, r1, id),
    ensures
        forall|k: int|
            0 <= k < deliveries_for(r1, value).len() ==> (#[trigger] deliveries_for(r1, value)[k]).id
                != id,
{
    assert forall|k: int| 0 <= k < deliveries_for(r1, value).len() implies (#[trigger] deliveries_for(
        r1,
        value,
    )[k]).id != id by {
        assert(r1.contains(r1[k]));
    }
}

/// One dispatch reaches every currently registered callback exactly once:
/// entry `k` receives delivery `k`, subscribers with the dispatched value,
/// listeners with no payload.
pub proof fn lemma_dispatch_reaches_every_entry<Value>(entries: Seq<EntryModel>, value: Value)
    ensures
        deliveries_for(entries, value).len() == entries.len(),
        forall|k: int|
            0 <= k < entries.len() ==> (#[trigger] deliveries_for(entries, value)[k]).id
                == entries[k].id,
        forall|k: int|
            0 <= k < entries.len() ==> (#[trigger] deliveries_for(entries, value)[k]).payload == (
            if entries[k].kind is Subscriber {
                Some(value)
            } else {
                None::<Value>
            }),
{
}

} // verus!
