use vstd::prelude::*;

use crate::registry::{deliveries_for, CallbackKind, Delivery, EntryModel, Registry};
use crate::{Callback, Emitter};

verus! {

/// A valueless emitter: it holds only a registry and fires every registered
/// listener on demand. There are no value semantics at all, so its deliveries
/// carry the unit value and never a payload.
pub struct Event<C> {
    pub registry: Registry<C>,
    pub log: Ghost<Seq<Delivery<()>>>,
}

impl<C: Callback<()>> Event<C> {
    /// Creates a new event with an empty registry and no deliveries made.
    pub fn new() -> (r: Self)
        ensures
            r.inv(),
            r.reg() == Seq::<EntryModel>::empty(),
            r.next_id() == 0,
            r.history() == Seq::<Delivery<()>>::empty(),
    {
        Event { registry: Registry::new(), log: Ghost(Seq::empty()) }
    }

    /// Invokes every currently registered listener exactly once, with no
    /// payload: the history grows by one delivery per registered entry.
    pub fn dispatch(&mut self)
        requires
            old(self).inv(),
        ensures
            final(self).inv(),
            final(self).reg() == old(self).reg(),
            final(self).next_id() == old(self).next_id(),
            final(self).history() == old(self).history() + deliveries_for(old(self).reg(), ()),
    {
        let fired = self.registry.dispatch(());
        self.log = Ghost(self.log@ + fired@);
    }
}

impl<C: Callback<()>> Emitter<(), C> for Event<C> {
    open spec fn reg(&self) -> Seq<EntryModel> {
        self.registry.model()
    }

    open spec fn next_id(&self) -> int {
        self.registry.next_id()
    }

    open spec fn history(&self) -> Seq<Delivery<()>> {
        self.log@
    }

    open spec fn inv(&self) -> bool {
        self.registry.wf()
    }

    open spec fn same_state(pre: Self, post: Self) -> bool {
        true
    }

    fn listen(&mut self, callback: C) -> (id: usize) {
        self.registry.insert(CallbackKind::Listener, callback)
    }

    fn unregister(&mut self, id: usize) {
        self.registry.remove(id);
    }
}

} // verus!
