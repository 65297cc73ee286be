//! The order of cadences and of dates: that of their counts.

use crate::cadence::Cadence;
use crate::date::Date;
use core::cmp::Ordering;
use vstd::prelude::*;
use vstd::std_specs::cmp::PartialOrdSpec;

verus! {

/// How the count `a` stands to the count `b`.
pub open spec fn ordered(a: i64, b: i64) -> Option<Ordering> {
    if a < b {
        Some(Ordering::Less)
    } else if a == b {
        Some(Ordering::Equal)
    } else {
        Some(Ordering::Greater)
    }
}

impl vstd::std_specs::cmp::PartialOrdSpecImpl for Cadence {
    open spec fn obeys_partial_cmp_spec() -> bool {
        true
    }

    open spec fn partial_cmp_spec(&self, other: &Cadence) -> Option<Ordering> {
        ordered(self.minutes, other.minutes)
    }
}

impl PartialOrd for Cadence {
    /// Cadences are ordered by their minutes.
    fn partial_cmp(&self, other: &Cadence) -> (r: Option<Ordering>) {
        if self.minutes < other.minutes {
            Some(Ordering::Less)
        } else if self.minutes == other.minutes {
            Some(Ordering::Equal)
        } else {
            Some(Ordering::Greater)
        }
    }
}

impl vstd::std_specs::cmp::PartialOrdSpecImpl for Date {
    open spec fn obeys_partial_cmp_spec() -> bool {
        true
    }

    open spec fn partial_cmp_spec(&self, other: &Date) -> Option<Ordering> {
        ordered(self.seconds, other.seconds)
    }
}

impl PartialOrd for Date {
    /// Dates are ordered by their seconds: the earlier is the lesser.
    fn partial_cmp(&self, other: &Date) -> (r: Option<Ordering>) {
        if self.seconds < other.seconds {
            Some(Ordering::Less)
        } else if self.seconds == other.seconds {
            Some(Ordering::Equal)
        } else {
            Some(Ordering::Greater)
        }
    }
}

/// Any two cadences are ordered, and as their minutes are; equal in order
/// are only equal cadences.
pub proof fn lemma_cadences_in_order(a: Cadence, b: Cadence)
    ensures
        a.partial_cmp_spec(&b) is Some,
        a.partial_cmp_spec(&b) == Some(Ordering::Less) <==> a.minutes < b.minutes,
        a.partial_cmp_spec(&b) == Some(Ordering::Greater) <==> a.minutes > b.minutes,
        a.partial_cmp_spec(&b) == Some(Ordering::Equal) <==> a == b,
{
}

/// Any two dates are ordered, the earlier before the later; equal in order
/// are only equal dates.
pub proof fn lemma_dates_in_order(a: Date, b: Date)
    ensures
        a.partial_cmp_spec(&b) is Some,
        a.partial_cmp_spec(&b) == Some(Ordering::Less) <==> a.seconds < b.seconds,
        a.partial_cmp_spec(&b) == Some(Ordering::Greater) <==> a.seconds > b.seconds,
        a.partial_cmp_spec(&b) == Some(Ordering::Equal) <==> a == b,
{
}

} // verus!
