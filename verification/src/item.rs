//! A recurring item and the changes to its schedule.
//!
//! Each time an item is finished, its owner says how the timing felt. The
//! judgement stands for a signed error that a feedback controller turns into
//! an adjustment of the cadence. The controller computes in floating point
//! and is not part of this library. An item keeps the state of its
//! controller, whatever that is made of, and an operation here is given the
//! adjustment that the controller answered with, in whole minutes.

use crate::cadence::{Cadence, DAYS};
use crate::date::{Date, MINUTE};
use crate::text::{join_words, joined};
use vstd::prelude::*;
use vstd::std_specs::ops::AddSpec;

verus! {

/// How the timing of an item felt when it came up.
#[derive(Clone, Copy, Debug, PartialEq, Eq, Structural)]
pub enum Bump {
    MuchEarlier,
    Earlier,
    JustRight,
    Later,
    MuchLater,
}

impl Bump {
    /// The place of the judgement, from much earlier, 0, to much later, 4.
    pub open spec fn rank(self) -> int {
        match self {
            Bump::MuchEarlier => 0,
            Bump::Earlier => 1,
            Bump::JustRight => 2,
            Bump::Later => 3,
            Bump::MuchLater => 4,
        }
    }

    /// The days of error that the judgement stands for.
    pub open spec fn error_days(self) -> int {
        match self {
            Bump::MuchEarlier => -4,
            Bump::Earlier => -1,
            Bump::JustRight => 0,
            Bump::Later => 1,
            Bump::MuchLater => 4,
        }
    }

    /// The error that is fed to the controller for this judgement.
    pub fn error(&self) -> (error: Cadence)
        ensures
            error.minutes == self.error_days() * DAYS,
    {
        match self {
            Bump::MuchEarlier => Cadence { minutes: -4 * DAYS },
            Bump::Earlier => Cadence { minutes: -DAYS },
            Bump::JustRight => Cadence { minutes: 0 },
            Bump::Later => Cadence { minutes: DAYS },
            Bump::MuchLater => Cadence { minutes: 4 * DAYS },
        }
    }
}

/// Why an item's schedule was not changed.
#[derive(Clone, Copy, Debug, PartialEq, Eq, Structural)]
pub enum SchedulingError {
    /// The item is not due before the instant that is carried.
    NotDueYet(Date),
}

impl SchedulingError {
    /// The error in words, given how the date it carries reads.
    pub fn worded(&self, date: &str) -> (out: String)
        ensures
            out@ == "can't finish an item before it's due ("@ + date@ + ")"@,
    {
        let mut out = String::from_str("can't finish an item before it's due (");
        out.append(date);
        out.append(")");
        out
    }

    /// The error in words, with the date as the local calendar has it.
    pub fn to_string(&self) -> (out: String)
        ensures
            exists|date: Seq<char>|
                out@ == "can't finish an item before it's due ("@ + date + ")"@,
    {
        match self {
            SchedulingError::NotDueYet(next) => {
                let date = next.to_string();
                self.worded(date.as_str())
            },
        }
    }
}

/// The one change to its schedule that an edit of an item may ask for.
#[derive(Clone, Copy, Debug, PartialEq, Eq, Structural)]
pub enum Reschedule {
    /// The schedule stays as it is.
    Keep,
    /// The item comes up next at the given instant.
    Next(Date),
    /// The item gets the given cadence.
    Cadence(Cadence),
    /// The schedule is moved by what the controller answers to the
    /// judgement.
    Bump(Bump),
}

impl Reschedule {
    /// What the three ways to change a schedule, each given or not, ask for
    /// together: nothing where more than one is given.
    pub open spec fn requested(next: Option<Date>, cadence: Option<Cadence>, bump: Option<Bump>) -> Option<
        Reschedule,
    > {
        match (next, cadence, bump) {
            (None, None, None) => Some(Reschedule::Keep),
            (Some(at), None, None) => Some(Reschedule::Next(at)),
            (None, Some(every), None) => Some(Reschedule::Cadence(every)),
            (None, None, Some(felt)) => Some(Reschedule::Bump(felt)),
            _ => None,
        }
    }

    /// Makes one request of the three ways to change a schedule. They
    /// exclude each other: with more than one given there is no request.
    pub fn from_flags(next: Option<Date>, cadence: Option<Cadence>, bump: Option<Bump>) -> (r: Option<
        Reschedule,
    >)
        ensures
            r == Reschedule::requested(next, cadence, bump),
    {
        match (next, cadence, bump) {
            (None, None, None) => Some(Reschedule::Keep),
            (Some(at), None, None) => Some(Reschedule::Next(at)),
            (None, Some(every), None) => Some(Reschedule::Cadence(every)),
            (None, None, Some(felt)) => Some(Reschedule::Bump(felt)),
            _ => None,
        }
    }
}

/// Something to do again and again, and when it comes up next.
///
/// `C` is the state of the item's feedback controller. It goes where the
/// item goes; nothing here reads or changes it.
#[derive(Debug, PartialEq)]
pub struct Item<C> {
    pub id: u64,
    pub text: String,
    pub tag_id: Option<u64>,
    /// The time from one repetition to the next.
    pub cadence: Cadence,
    /// When the item comes up next.
    pub next: Date,
    /// The state of the controller that adjusts the cadence.
    pub pid: C,
}

impl<C> Item<C> {
    /// Whether the item has come up by `now`.
    pub open spec fn due_by(self, now: Date) -> bool {
        self.next.seconds <= now.seconds
    }

    /// The item with its cadence changed by `adjustment`.
    pub open spec fn bumped(self, adjustment: Cadence) -> Item<C> {
        Item { cadence: self.cadence.add_spec(adjustment), ..self }
    }

    /// The item with its cadence changed by `adjustment`, coming up one new
    /// cadence after `now`.
    pub open spec fn finished(self, now: Date, adjustment: Cadence) -> Item<C> {
        Item {
            cadence: self.cadence.add_spec(adjustment),
            next: now.add_spec(self.cadence.add_spec(adjustment)),
            ..self
        }
    }

    /// The item with its cadence changed by `adjustment` and its next time
    /// moved by as much.
    pub open spec fn moved(self, adjustment: Cadence) -> Item<C> {
        Item {
            cadence: self.cadence.add_spec(adjustment),
            next: self.next.add_spec(adjustment),
            ..self
        }
    }

    /// Whether the item has come up by `now`.
    pub fn is_due(&self, now: Date) -> (due: bool)
        ensures
            due == self.due_by(now),
    {
        self.next.seconds <= now.seconds
    }

    /// The error to feed the controller when the item is finished at `now`
    /// with the judgement `bump`. An item that is not due is not to be
    /// finished, and the controller is not to hear of it: the error says
    /// when the item is due.
    pub fn feedback(&self, now: Date, bump: &Bump) -> (r: Result<Cadence, SchedulingError>)
        ensures
            self.due_by(now) ==> r == Ok::<Cadence, SchedulingError>(
                Cadence { minutes: (bump.error_days() * DAYS) as i64 },
            ),
            !self.due_by(now) ==> r == Err::<Cadence, SchedulingError>(
                SchedulingError::NotDueYet(self.next),
            ),
    {
        if self.is_due(now) {
            Ok(bump.error())
        } else {
            Err(SchedulingError::NotDueYet(self.next))
        }
    }

    /// Changes the cadence by the adjustment that the controller answered
    /// with, and hands the adjustment back. When the item comes up next
    /// stays as it is.
    pub fn bump_cadence(&mut self, adjustment: Cadence) -> (applied: Cadence)
        requires
            old(self).cadence.add_req(adjustment),
        ensures
            *final(self) == old(self).bumped(adjustment),
            applied == adjustment,
    {
        self.cadence = self.cadence + adjustment;
        adjustment
    }

    /// Moves the schedule by the adjustment that the controller answered
    /// with: the cadence changes by it, and so does the time at which the
    /// item comes up next.
    pub fn bump_schedule(&mut self, adjustment: Cadence) -> (applied: Cadence)
        requires
            old(self).cadence.add_req(adjustment),
            old(self).next.add_req(adjustment),
        ensures
            *final(self) == old(self).moved(adjustment),
            applied == adjustment,
    {
        let applied = self.bump_cadence(adjustment);
        self.next = self.next + applied;
        applied
    }

    /// Replaces what is given, whatever the controller would say: the text
    /// by the words, where there is at least one; the tag, the next time and
    /// the cadence each where one is given.
    pub fn edit(
        &mut self,
        words: &Vec<String>,
        tag_id: Option<u64>,
        next: Option<Date>,
        cadence: Option<Cadence>,
    )
        ensures
            final(self).id == old(self).id,
            final(self).pid == old(self).pid,
            final(self).text@ == if words@.len() > 0 {
                joined(words@)
            } else {
                old(self).text@
            },
            final(self).tag_id == if tag_id is Some {
                tag_id
            } else {
                old(self).tag_id
            },
            final(self).next == if next is Some {
                next->0
            } else {
                old(self).next
            },
            final(self).cadence == if cadence is Some {
                cadence->0
            } else {
                old(self).cadence
            },
    {
        if words.len() > 0 {
            self.text = join_words(words);
        }
        if let Some(id) = tag_id {
            self.tag_id = Some(id);
        }
        if let Some(at) = next {
            self.next = at;
        }
        if let Some(every) = cadence {
            self.cadence = every;
        }
    }

    /// Finishes the item at `now`: changes the cadence by the adjustment that
    /// the controller answered with, and lets the item come up one new
    /// cadence after `now`.
    ///
    /// An item that is not due is left as it is, and the error says when it
    /// is due.
    pub fn finish(&mut self, now: Date, adjustment: Cadence) -> (r: Result<Cadence, SchedulingError>)
        requires
            old(self).due_by(now) ==> old(self).cadence.add_req(adjustment),
            old(self).due_by(now) ==> now.add_req(old(self).cadence.add_spec(adjustment)),
        ensures
            !old(self).due_by(now) ==> *final(self) == *old(self) && r == Err::<
                Cadence,
                SchedulingError,
            >(SchedulingError::NotDueYet(old(self).next)),
            old(self).due_by(now) ==> *final(self) == old(self).finished(now, adjustment) && r == Ok::<
                Cadence,
                SchedulingError,
            >(adjustment),
    {
        if self.next.seconds > now.seconds {
            return Err(SchedulingError::NotDueYet(self.next));
        }
        let applied = self.bump_cadence(adjustment);
        self.next = now + self.cadence;
        Ok(applied)
    }
}

/// A judgement further towards later stands for a larger error.
pub proof fn lemma_error_grows_with_rank(a: Bump, b: Bump)
    requires
        a.rank() < b.rank(),
    ensures
        a.error_days() < b.error_days(),
{
}

/// Of two adjustments to one item, the larger leaves the larger cadence.
pub proof fn lemma_cadence_grows_with_adjustment<C>(item: Item<C>, smaller: Cadence, larger: Cadence)
    requires
        item.cadence.add_req(smaller),
        item.cadence.add_req(larger),
        smaller.minutes < larger.minutes,
    ensures
        item.bumped(smaller).cadence.minutes < item.bumped(larger).cadence.minutes,
{
}

/// Where the controller, in the state it is in, answers a larger error with
/// a larger adjustment, a judgement further towards later leaves an item
/// with the larger cadence: `answer` is what the controller makes of an
/// error in minutes.
pub proof fn lemma_later_judgement_longer_cadence<C>(
    item: Item<C>,
    a: Bump,
    b: Bump,
    answer: spec_fn(int) -> int,
)
    requires
        a.rank() < b.rank(),
        forall|smaller: int, larger: int|
            smaller < larger ==> #[trigger] answer(smaller) < #[trigger] answer(larger),
        i64::MIN <= answer(a.error_days() * DAYS) <= i64::MAX,
        i64::MIN <= answer(b.error_days() * DAYS) <= i64::MAX,
        item.cadence.add_req(Cadence { minutes: answer(a.error_days() * DAYS) as i64 }),
        item.cadence.add_req(Cadence { minutes: answer(b.error_days() * DAYS) as i64 }),
    ensures
        item.bumped(Cadence { minutes: answer(a.error_days() * DAYS) as i64 }).cadence.minutes
            < item.bumped(
            Cadence { minutes: answer(b.error_days() * DAYS) as i64 },
        ).cadence.minutes,
{
    lemma_error_grows_with_rank(a, b);
    assert(a.error_days() * DAYS < b.error_days() * DAYS);
}

/// Finishing a due item leaves the cadence that the adjustment alone would
/// leave, and the item then comes up one such cadence after `now`. That is
/// later than it came up before exactly where the new cadence outweighs the
/// time by which the item was overdue, as every cadence above zero does.
pub proof fn lemma_finish_moves_on<C>(item: Item<C>, now: Date, adjustment: Cadence)
    requires
        item.due_by(now),
        item.cadence.add_req(adjustment),
        now.add_req(item.cadence.add_spec(adjustment)),
    ensures
        item.finished(now, adjustment).cadence == item.bumped(adjustment).cadence,
        item.finished(now, adjustment).next.seconds == now.seconds + item.finished(
            now,
            adjustment,
        ).cadence.minutes * MINUTE,
        item.finished(now, adjustment).next.seconds > item.next.seconds <==> item.finished(
            now,
            adjustment,
        ).cadence.minutes * MINUTE > item.next.seconds - now.seconds,
        item.finished(now, adjustment).cadence.minutes > 0 ==> item.finished(
            now,
            adjustment,
        ).next.seconds > item.next.seconds,
{
}

} // verus!
