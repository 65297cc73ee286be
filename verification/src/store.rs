//! A store of items in memory, which gives each item its id.

use crate::cadence::Cadence;
use crate::date::Date;
use crate::item::Item;
use std::collections::HashMap;
use vstd::prelude::*;
use vstd::std_specs::hash::group_hash_axioms;

verus! {

broadcast use group_hash_axioms;

/// Items by their id. The ids count up from 1, and each is given once.
///
/// `C` is the state of an item's controller.
pub struct Store<C> {
    next_id: u64,
    items: HashMap<u64, Item<C>>,
}

impl<C> View for Store<C> {
    type V = Map<u64, Item<C>>;

    /// The items in the store, by id.
    closed spec fn view(&self) -> Map<u64, Item<C>> {
        self.items@
    }
}

impl<C> Store<C> {
    /// The id that the next item gets.
    pub closed spec fn upcoming(self) -> u64 {
        self.next_id
    }

    /// Every item is kept under its own id, and every id in use has been
    /// given out already.
    pub closed spec fn wf(self) -> bool {
        &&& self.next_id >= 1
        &&& forall|id: u64| #[trigger]
            self.items@.contains_key(id) ==> 1 <= id < self.next_id && self.items@[id].id == id
    }

    /// An empty store, whose first item gets the id 1.
    pub fn new() -> (store: Store<C>)
        ensures
            store.wf(),
            store@ == Map::<u64, Item<C>>::empty(),
            store.upcoming() == 1,
    {
        Store { next_id: 1, items: HashMap::new() }
    }

    /// The id that the next item gets.
    pub fn next_id(&self) -> (id: u64)
        requires
            self.wf(),
        ensures
            id == self.upcoming(),
            id >= 1,
            !self@.contains_key(id),
    {
        self.next_id
    }

    /// Whether the store can take another item: whether an id is left.
    pub fn has_room(&self) -> (room: bool)
        ensures
            room == (self.upcoming() < u64::MAX),
    {
        self.next_id < u64::MAX
    }

    /// Adds an item made of the given parts under the next id, and hands
    /// the id back; `pid` is the state that the item's controller starts
    /// in.
    pub fn add(
        &mut self,
        text: String,
        tag_id: Option<u64>,
        cadence: Cadence,
        next: Date,
        pid: C,
    ) -> (id: u64)
        requires
            old(self).wf(),
            old(self).upcoming() < u64::MAX,
        ensures
            final(self).wf(),
            id == old(self).upcoming(),
            final(self).upcoming() == id + 1,
            !old(self)@.contains_key(id),
            final(self)@ == old(self)@.insert(id, Item { id, text, tag_id, cadence, next, pid }),
    {
        let id = self.next_id;
        self.items.insert(id, Item { id, text, tag_id, cadence, next, pid });
        self.next_id = id + 1;
        id
    }

    /// The item with the id `id`, if the store has one.
    pub fn get(&self, id: u64) -> (found: Option<&Item<C>>)
        requires
            self.wf(),
        ensures
            match found {
                Some(item) => self@.contains_key(id) && *item == self@[id] && item.id == id,
                None => !self@.contains_key(id),
            },
    {
        self.items.get(&id)
    }
}

impl<C> Default for Store<C> {
    /// An empty store, whose first item gets the id 1.
    fn default() -> (store: Store<C>)
        ensures
            store.wf(),
            store@ == Map::<u64, Item<C>>::empty(),
            store.upcoming() == 1,
    {
        Store::new()
    }
}

} // verus!
