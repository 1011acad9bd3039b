//! Reactive value primitives: mutable cells that notify registered callbacks
//! on every write, derived cells recomputed from their sources, a
//! deduplicating wrapper that only re-emits on actual change, and a valueless
//! event emitter. Every entity keeps a subscription registry with stable,
//! never-reused identifiers, and a ghost history of the deliveries it made,
//! which the contracts pin down exactly.

use vstd::prelude::*;

mod deduped;
mod derived;
mod event;
mod observable;
mod registry;

pub use deduped::{eq_is_exact, lemma_deduped_filters, lemma_deduped_passthrough, Deduped};
pub use derived::Derived;
pub use event::Event;
pub use observable::{
    lemma_set_get_roundtrip, lemma_set_notifies_every_entry, lemma_update_composition, Observable,
};
pub use registry::{
    deliveries_for, entries_ok, lemma_dispatch_reaches_every_entry, lemma_unregister_idempotent,
    lemma_unregistered_receives_nothing, removal, CallbackKind, Delivery, Entry, EntryModel,
    Registry,
};

verus! {

/// A callback a user hands to an entity. A listener registration fires
/// `on_signal`; a subscriber registration fires `on_value` with the current
/// value. Implementations are free to do anything; the library's contracts
/// state exactly when and with which value each registered callback is fired.
pub trait Callback<Value> {
    fn on_value(&self, value: &Value);

    fn on_signal(&self);
}

/// Capability to register and deregister no-argument change listeners.
///
/// The trait's specification functions give each implementor's model: its
/// registry entries, the next fresh identifier, and the history of deliveries
/// it has made so far. `same_state` says that the entity's own value state is
/// untouched, so registration never changes or re-emits a value.
pub trait Emitter<Value, C>: Sized {
    spec fn reg(&self) -> Seq<EntryModel>;

    spec fn next_id(&self) -> int;

    spec fn history(&self) -> Seq<Delivery<Value>>;

    spec fn inv(&self) -> bool;

    spec fn same_state(pre: Self, post: Self) -> bool;

    /// Registers a no-argument callback. The callback is not fired at
    /// registration time: the history is unchanged.
    fn listen(&mut self, callback: C) -> (id: usize)
        requires
            old(self).inv(),
            old(self).next_id() < usize::MAX as int,
        ensures
            final(self).inv(),
            Self::same_state(*old(self), *final(self)),
            id as int == old(self).next_id(),
            final(self).next_id() == old(self).next_id() + 1,
            final(self).reg() == old(self).reg().push(
                (EntryModel { id: old(self).next_id(), kind: CallbackKind::Listener }),
            ),
            final(self).history() == old(self).history(),
    ;

    /// Deregisters the callback registered under `id`. Removing an absent
    /// identifier is a harmless no-op, so deregistration is idempotent; the
    /// counter is untouched, so identifiers are never reused.
    fn unregister(&mut self, id: usize)
        requires
            old(self).inv(),
        ensures
            final(self).inv(),
            Self::same_state(*old(self), *final(self)),
            final(self).next_id() == old(self).next_id(),
            final(self).history() == old(self).history(),
            removal(old(self).reg(), final(self).reg(), id as int),
    ;
}

/// Capability to read the current value and to subscribe with
/// immediate-plus-ongoing delivery.
pub trait Readable<Value, C>: Emitter<Value, C> {
    spec fn current(&self) -> Value;

    /// Returns a copy of the current value.
    fn get(&self) -> (r: Value)
        requires
            self.inv(),
        ensures
            r == self.current(),
    ;

    /// Registers a value-receiving callback and fires it once, synchronously,
    /// with the current value before returning: the history grows by exactly
    /// that one delivery.
    fn subscribe(&mut self, callback: C) -> (id: usize)
        requires
            old(self).inv(),
            old(self).next_id() < usize::MAX as int,
        ensures
            final(self).inv(),
            Self::same_state(*old(self), *final(self)),
            final(self).current() == old(self).current(),
            id as int == old(self).next_id(),
            final(self).next_id() == old(self).next_id() + 1,
            final(self).reg() == old(self).reg().push(
                (EntryModel { id: old(self).next_id(), kind: CallbackKind::Subscriber }),
            ),
            final(self).history() == old(self).history().push(
                (Delivery { id: old(self).next_id(), payload: Some(old(self).current()) }),
            ),
    ;
}

/// Capability to replace or transform the current value; every write
/// notifies, whether or not the value changed. What one write does to the
/// implementor is pinned down by its `set_spec` relation.
pub trait Writable<Value, C>: Readable<Value, C> {
    spec fn set_spec(pre: Self, post: Self, value: Value) -> bool;

    /// Replaces the value unconditionally and dispatches.
    fn set(&mut self, value: Value)
        requires
            old(self).inv(),
        ensures
            final(self).inv(),
            Self::set_spec(*old(self), *final(self), value),
    ;

    /// Reads the current value, applies `updater`, and performs the
    /// equivalent of `set` with the result.
    fn update<F: Fn(Value) -> Value>(&mut self, updater: F)
        requires
            old(self).inv(),
            call_requires(updater, (old(self).current(),)),
        ensures
            final(self).inv(),
            exists|r: Value|
                #[trigger] call_ensures(updater, (old(self).current(),), r) && Self::set_spec(
                    *old(self),
                    *final(self),
                    r,
                ),
    ;
}

} // verus!
