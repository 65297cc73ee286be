//! Cadences as they are typed on a command line.

use crate::cadence::{parsed, Cadence, ParseError};
use vstd::prelude::*;

verus! {

/// Reads a cadence: a number followed by a unit of hours (`h`), days (`d`),
/// weeks (`w`), months of 30 days (`m`) or years of 365 days (`y`).
pub fn parse_duration(input: &str) -> (r: Result<Cadence, ParseError>)
    ensures
        parsed(input@, r),
{
    Cadence::from_str(input)
}

} // verus!
