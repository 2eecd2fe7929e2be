use crate::slot::{lemma_slot_is_its_contents, Slot};
use std::sync::Arc;
use vstd::prelude::*;
use vstd::rwlock::RwLock;

verus! {

/// A thread-safe latest-value cache: one slot behind a lock, shared by every
/// handle cloned from the first.
///
/// Writers replace the slot as a whole and readers copy it out as a whole, so
/// a reader sees the empty slot or one complete published value. Nothing is
/// queued: a value that is overwritten before anyone reads it is gone. This
/// keeps less than a channel would, and is all that a consumer needs which
/// only ever wants the freshest value.
///
/// What one thread reads depends on what the others have written, so the
/// contracts speak of a rule fixed when the store is made. The rule says
/// which values the slot may hold and whether it may be empty: only admitted
/// values can be set, hence only admitted values are ever read, and a store
/// that was made with a value in it is never found empty.
#[verifier::reject_recursive_types(T)]
pub struct LatestValueStore<T> {
    slot: Arc<RwLock<Slot<T>, spec_fn(Slot<T>) -> bool>>,
}

/// The lock's rule for a store whose values all satisfy `admitted` and
/// whose slot is empty only if `may_be_empty`.
spec fn slot_rule<T>(admitted: spec_fn(T) -> bool, may_be_empty: bool) -> spec_fn(Slot<T>) -> bool {
    |slot: Slot<T>|
        match slot@ {
            Some(value) => admitted(value),
            None => may_be_empty,
        }
}

impl<T> LatestValueStore<T> {
    /// Whether `value` may be published to, and so read from, this store.
    pub closed spec fn admits(&self, value: T) -> bool {
        self.slot.inv(Slot::holding(value))
    }

    /// Whether the slot of this store may be found empty. It may be unless
    /// the store was made with a value in it: nothing ever empties a slot.
    pub closed spec fn may_be_empty(&self) -> bool {
        self.slot.inv(Slot::vacant())
    }

    /// Whether these contents may be observed in this store.
    pub open spec fn may_hold(&self, contents: Option<T>) -> bool {
        match contents {
            Some(value) => self.admits(value),
            None => self.may_be_empty(),
        }
    }

    /// An empty store that admits every value.
    pub fn new() -> (store: Self)
        ensures
            store.may_be_empty(),
            forall|value: T| store.admits(value),
    {
        Self::restricted(Ghost(|value: T| true))
    }

    /// An empty store that admits exactly the values for which `admitted` holds.
    pub fn restricted(Ghost(admitted): Ghost<spec_fn(T) -> bool>) -> (store: Self)
        ensures
            store.may_be_empty(),
            forall|value: T| store.admits(value) <==> admitted(value),
    {
        let slot = Slot::empty();
        let store = LatestValueStore {
            slot: Arc::new(RwLock::new(slot, Ghost(slot_rule(admitted, true)))),
        };
        proof {
            lemma_slot_is_its_contents(slot);
        }
        store
    }

    /// A store that holds `initial` from the start and admits every value.
    /// A reader of such a store always finds a value.
    pub fn holding(initial: T) -> (store: Self)
        ensures
            !store.may_be_empty(),
            forall|value: T| store.admits(value),
    {
        Self::seeded(initial, Ghost(|value: T| true))
    }

    /// A store that holds `initial` from the start and admits exactly the
    /// values for which `admitted` holds. A reader of such a store always
    /// finds a value.
    pub fn seeded(initial: T, Ghost(admitted): Ghost<spec_fn(T) -> bool>) -> (store: Self)
        requires
            admitted(initial),
        ensures
            !store.may_be_empty(),
            forall|value: T| store.admits(value) <==> admitted(value),
    {
        let mut slot = Slot::empty();
        slot.publish(initial);
        let store = LatestValueStore {
            slot: Arc::new(RwLock::new(slot, Ghost(slot_rule(admitted, false)))),
        };
        proof {
            lemma_slot_is_its_contents(slot);
        }
        store
    }

    /// Replaces the slot's contents with `value`, which every later `get`
    /// through any handle may return until the next `set`.
    pub fn set(&self, value: T)
        requires
            self.admits(value),
    {
        let (mut slot, guard) = self.slot.acquire_write();
        slot.publish(value);
        proof {
            lemma_slot_is_its_contents(slot);
        }
        guard.release_write(slot);
    }

    /// A copy of the slot's current contents: `None` while nothing has been
    /// set, else one published value, whole. What comes back is always
    /// something the store may hold: an admitted value, or nothing where the
    /// store may be empty.
    pub fn get(&self) -> (latest: Option<T>) where T: Copy
        ensures
            self.may_hold(latest),
    {
        let guard = self.slot.acquire_read();
        let latest = guard.borrow().latest();
        guard.release_read();
        proof {
            lemma_slot_is_its_contents(guard@);
        }
        latest
    }
}

impl<T> Clone for LatestValueStore<T> {
    /// Another handle to the same slot, not a copy of it.
    fn clone(&self) -> (other: Self)
        ensures
            other == *self,
    {
        LatestValueStore { slot: self.slot.clone() }
    }
}

impl<T> Default for LatestValueStore<T> {
    /// An empty store that admits every value.
    fn default() -> (store: Self)
        ensures
            store.may_be_empty(),
            forall|value: T| store.admits(value),
    {
        Self::new()
    }
}

} // verus!
