//! Adding an item: what a new item is made of.

use crate::cadence::{Cadence, DAYS};
use crate::date::Date;
use crate::text::{join_words, joined};
use vstd::prelude::*;
use vstd::std_specs::ops::{AddSpec, SubSpec};

verus! {

/// The request to add an item.
#[derive(Debug)]
pub struct Command {
    /// The words of the item's text.
    pub text: Vec<String>,
    /// The name of the item's tag.
    pub tag: Option<String>,
    /// A first guess at the cadence.
    pub cadence: Option<Cadence>,
    /// When the item comes up first.
    pub next: Option<Date>,
}

impl Command {
    /// The cadence of the new item: the one given; else the time from `now`
    /// to the first time given; else one day.
    pub open spec fn cadence_at(self, now: Date) -> Cadence {
        match (self.cadence, self.next) {
            (Some(every), _) => every,
            (None, Some(at)) => at.sub_spec(now),
            (None, None) => Cadence { minutes: DAYS },
        }
    }

    /// When the new item comes up first: at the time given; else one cadence
    /// after `now`.
    pub open spec fn next_at(self, now: Date) -> Date {
        match self.next {
            Some(at) => at,
            None => now.add_spec(self.cadence_at(now)),
        }
    }

    /// The text of the new item: its words, a space between neighbours.
    pub fn get_text(&self) -> (text: String)
        ensures
            text@ == joined(self.text@),
    {
        join_words(&self.text)
    }

    /// The cadence of the new item: the one given; else the time from `now`
    /// to the first time given; else one day.
    pub fn get_cadence(&self, now: Date) -> (every: Cadence)
        requires
            self.cadence is None && self.next is Some ==> self.next->0.sub_req(now),
        ensures
            every == self.cadence_at(now),
    {
        match (self.cadence, self.next) {
            (Some(every), _) => every,
            (None, Some(at)) => at - now,
            (None, None) => Cadence::days(1),
        }
    }

    /// When the new item comes up first: at the time given; else one cadence
    /// after `now`.
    pub fn get_next(&self, now: Date) -> (at: Date)
        requires
            self.next is None ==> now.add_req(self.cadence_at(now)),
        ensures
            at == self.next_at(now),
    {
        match self.next {
            Some(at) => at,
            None => now + self.get_cadence(now),
        }
    }
}

} // verus!
