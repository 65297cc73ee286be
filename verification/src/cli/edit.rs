//! Editing an item: what an edit changes.

use crate::cadence::Cadence;
use crate::date::Date;
use crate::item::{Bump, Item, Reschedule};
use crate::text::joined;
use vstd::prelude::*;
use vstd::std_specs::ops::AddSpec;

verus! {

/// The request to edit an item.
#[derive(Debug)]
pub struct Command {
    /// The id of the item to edit.
    pub id: u64,
    /// The words of a new text; none where the text is to stay.
    pub text: Vec<String>,
    /// The name of a new tag.
    pub tag: Option<String>,
    /// When the item is to come up next.
    pub next: Option<Date>,
    /// A new cadence.
    pub cadence: Option<Cadence>,
    /// How the timing felt, for the schedule to be moved a little.
    pub bump: Option<Bump>,
}

impl Command {
    /// The cadence that the edit leaves `item` with before any bump.
    pub open spec fn cadence_set<C>(self, item: Item<C>) -> Cadence {
        if self.cadence is Some {
            self.cadence->0
        } else {
            item.cadence
        }
    }

    /// The time that the edit lets `item` come up next at before any bump.
    pub open spec fn next_set<C>(self, item: Item<C>) -> Date {
        if self.next is Some {
            self.next->0
        } else {
            item.next
        }
    }

    /// The one change to the schedule that the request asks for; none where
    /// it asks for more than one of a next time, a cadence and a bump.
    pub fn reschedule(&self) -> (r: Option<Reschedule>)
        ensures
            r == Reschedule::requested(self.next, self.cadence, self.bump),
    {
        Reschedule::from_flags(self.next, self.cadence, self.bump)
    }

    /// Makes the changes to `item`: a new text where words are given; the
    /// tag `tag_id`, the next time and the cadence each where one is given;
    /// then, where a bump is asked for, the cadence and the next time both
    /// moved by `adjustment`, which is what the controller answered. The
    /// adjustment is handed back where it was applied.
    pub fn apply<C>(&self, item: &mut Item<C>, tag_id: Option<u64>, adjustment: Cadence) -> (applied: Option<
        Cadence,
    >)
        requires
            self.bump is Some ==> self.cadence_set(*old(item)).add_req(adjustment),
            self.bump is Some ==> self.next_set(*old(item)).add_req(adjustment),
        ensures
            final(item).id == old(item).id,
            final(item).pid == old(item).pid,
            final(item).text@ == if self.text@.len() > 0 {
                joined(self.text@)
            } else {
                old(item).text@
            },
            final(item).tag_id == if tag_id is Some {
                tag_id
            } else {
                old(item).tag_id
            },
            final(item).cadence == if self.bump is Some {
                self.cadence_set(*old(item)).add_spec(adjustment)
            } else {
                self.cadence_set(*old(item))
            },
            final(item).next == if self.bump is Some {
                self.next_set(*old(item)).add_spec(adjustment)
            } else {
                self.next_set(*old(item))
            },
            applied == if self.bump is Some {
                Some(adjustment)
            } else {
                None
            },
    {
        item.edit(&self.text, tag_id, self.next, self.cadence);
        if self.bump.is_some() {
            Some(item.bump_schedule(adjustment))
        } else {
            None
        }
    }
}

} // verus!
