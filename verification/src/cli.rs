//! What the commands of the program ask for, apart from reading and
//! writing: the requests as plain values, and what is computed from them.

pub mod add;
pub mod all;
pub mod duration;
pub mod edit;
pub mod pull;
pub mod ready;

use crate::cadence::{leading_digits, parse_spec, Cadence, Defect, ParseError};
use crate::date::{day_start, local_instant, Civil, Date, MINUTE};
use crate::text::{all_digits, chars_of, digit_count, is_digit, lemma_digit_count_step, number};
use vstd::prelude::*;

verus! {

/// Whether `s` holds `count` digits from position `at` on.
pub open spec fn digits_at(s: Seq<char>, at: int, count: int) -> bool {
    at + count <= s.len() && all_digits(s.subrange(at, at + count))
}

/// Whether `s` begins with a date written as `YYYY-MM-DD`.
pub open spec fn date_shaped(s: Seq<char>) -> bool {
    &&& s.len() >= 10
    &&& digits_at(s, 0, 4)
    &&& s[4] == '-'
    &&& digits_at(s, 5, 2)
    &&& s[7] == '-'
    &&& digits_at(s, 8, 2)
}

/// Whether `s` goes on after its tenth character with a time written as
/// `THH:MM:SS`, and ends there.
pub open spec fn time_shaped(s: Seq<char>) -> bool {
    &&& s.len() == 19
    &&& s[10] == 'T'
    &&& digits_at(s, 11, 2)
    &&& s[13] == ':'
    &&& digits_at(s, 14, 2)
    &&& s[16] == ':'
    &&& digits_at(s, 17, 2)
}

/// The number written in the `count` digits of `s` from position `at` on.
pub open spec fn number_at(s: Seq<char>, at: int, count: int) -> nat {
    number(s.subrange(at, at + count))
}

/// The civil time that `s` writes: a date as `YYYY-MM-DD`, which stands for
/// its midnight, or a date and a time as `YYYY-MM-DDTHH:MM:SS`. Whether the
/// calendar has the date is not asked here.
pub open spec fn civil_spec(s: Seq<char>) -> Option<Civil> {
    if date_shaped(s) && s.len() == 10 {
        Some(
            Civil {
                year: number_at(s, 0, 4) as i32,
                month: number_at(s, 5, 2) as u32,
                day: number_at(s, 8, 2) as u32,
                hour: 0,
                minute: 0,
                second: 0,
            },
        )
    } else if date_shaped(s) && time_shaped(s) {
        Some(
            Civil {
                year: number_at(s, 0, 4) as i32,
                month: number_at(s, 5, 2) as u32,
                day: number_at(s, 8, 2) as u32,
                hour: number_at(s, 11, 2) as u32,
                minute: number_at(s, 14, 2) as u32,
                second: number_at(s, 17, 2) as u32,
            },
        )
    } else {
        None
    }
}

/// Whether `s` is the word `today`.
pub open spec fn is_today(s: Seq<char>) -> bool {
    s =~= seq!['t', 'o', 'd', 'a', 'y']
}

/// Ten to the power `digits`, for the few digits that a field holds.
spec fn ten_to(digits: int) -> int {
    if digits <= 0 {
        1
    } else if digits == 1 {
        10
    } else if digits == 2 {
        100
    } else if digits == 3 {
        1000
    } else {
        10000
    }
}

/// Reads the `count` digits of `chars` from position `at` on, if digits they
/// are.
fn read_digits(chars: &Vec<char>, at: usize, count: usize) -> (value: Option<u32>)
    requires
        1 <= count <= 4,
        at + count <= usize::MAX,
    ensures
        value is Some <==> digits_at(chars@, at as int, count as int),
        value is Some ==> value->0 == number_at(chars@, at as int, count as int),
        value is Some ==> value->0 < 10000,
{
    if chars.len() < at + count {
        return None;
    }
    let ghost field = chars@.subrange(at as int, at + count);
    let mut value: u32 = 0;
    let mut i: usize = 0;
    while i < count
        invariant
            i <= count <= 4,
            at + count <= chars.len(),
            field == chars@.subrange(at as int, at + count),
            all_digits(field.take(i as int)),
            value == number(field.take(i as int)),
            value < ten_to(i as int),
        decreases count - i,
    {
        let c = chars[at + i];
        proof {
            assert(field[i as int] == c);
            assert(field.take(i + 1).drop_last() =~= field.take(i as int));
            assert(field.take(i + 1).last() == c);
        }
        if !('0' <= c && c <= '9') {
            proof {
                assert(!is_digit(field[i as int]));
            }
            return None;
        }
        value = value * 10 + (c as u32 - '0' as u32);
        i = i + 1;
        proof {
            assert forall|k: int| 0 <= k < i implies is_digit(#[trigger] field.take(i as int)[k]) by {
                if k < i - 1 {
                    assert(field.take(i - 1)[k] == field.take(i as int)[k]);
                }
            }
        }
    }
    proof {
        assert(field.take(count as int) =~= field);
    }
    Some(value)
}

/// Reads a civil time written as `YYYY-MM-DD` or `YYYY-MM-DDTHH:MM:SS`.
pub fn read_civil(chars: &Vec<char>) -> (civil: Option<Civil>)
    ensures
        civil == civil_spec(chars@),
{
    let n = chars.len();
    if n != 10 && n != 19 {
        return None;
    }
    let year = read_digits(chars, 0, 4);
    let month = read_digits(chars, 5, 2);
    let day = read_digits(chars, 8, 2);
    if year.is_none() || month.is_none() || day.is_none() || chars[4] != '-' || chars[7] != '-' {
        return None;
    }
    if n == 10 {
        return Some(
            Civil {
                year: year.unwrap() as i32,
                month: month.unwrap(),
                day: day.unwrap(),
                hour: 0,
                minute: 0,
                second: 0,
            },
        );
    }
    let hour = read_digits(chars, 11, 2);
    let minute = read_digits(chars, 14, 2);
    let second = read_digits(chars, 17, 2);
    if hour.is_none() || minute.is_none() || second.is_none() || chars[10] != 'T' || chars[13]
        != ':' || chars[16] != ':' {
        return None;
    }
    Some(
        Civil {
            year: year.unwrap() as i32,
            month: month.unwrap(),
            day: day.unwrap(),
            hour: hour.unwrap(),
            minute: minute.unwrap(),
            second: second.unwrap(),
        },
    )
}

/// Whether `s` writes a civil time that the calendar and the clock have.
pub open spec fn civil_known(s: Seq<char>) -> bool {
    civil_spec(s) is Some && civil_spec(s)->0.seconds_spec() is Some
}

/// The instant, in seconds, that the text `s` names at `now`, or what is
/// wrong with the text; `local` is the instant that the local time zone
/// makes of the civil time in `s`, where `s` writes one.
///
/// The word `today` names `now`. A civil time names its instant in the
/// local zone. Whatever is named, the result is the last midnight UTC at or
/// before it. A text that names no instant in one of these ways, or one
/// whose midnight cannot be counted, is read as a cadence and names the
/// midnight of the instant that lies so much after `now`; where that cannot
/// be counted, the number is at fault.
pub open spec fn date_spec(s: Seq<char>, now: Date, local: Option<i64>) -> Result<int, Defect> {
    if is_today(s) && day_start(now.seconds as int) >= i64::MIN {
        Ok(day_start(now.seconds as int))
    } else if civil_known(s) && local is Some && day_start(local->0 as int) >= i64::MIN {
        Ok(day_start(local->0 as int))
    } else {
        match parse_spec(s) {
            Ok(minutes) => {
                let at = now.seconds + minutes * MINUTE;
                if at <= i64::MAX && day_start(at) >= i64::MIN {
                    Ok(day_start(at))
                } else {
                    Err(Defect::CouldntParseNumber)
                }
            },
            Err(defect) => Err(defect),
        }
    }
}

/// A text that names no date, with what is wrong with it when it is read
/// as a cadence, the last thing tried.
#[derive(Debug, PartialEq, Eq)]
pub struct DateError {
    pub cause: ParseError,
}

impl DateError {
    /// The error in words.
    pub fn to_string(&self) -> (out: String)
        ensures
            out@ == "couldn't parse a date"@,
    {
        String::from_str("couldn't parse a date")
    }
}

/// Whether `r` is what reading the date `s` at `now` must give, `local`
/// being what the local zone makes of the civil time in `s`.
pub open spec fn dated(s: Seq<char>, now: Date, local: Option<i64>, r: Result<Date, DateError>) -> bool {
    match date_spec(s, now, local) {
        Ok(seconds) => r == Ok::<Date, DateError>(Date { seconds: seconds as i64 }),
        Err(defect) => {
            &&& r is Err
            &&& r->Err_0.cause.defect() == defect
            &&& r->Err_0.cause matches ParseError::CouldntParseNumber(text) ==> text@
                == leading_digits(s)
        },
    }
}

/// Whether `chars` spell the word `today`.
fn spells_today(chars: &Vec<char>) -> (today: bool)
    ensures
        today == is_today(chars@),
{
    chars.len() == 5 && chars[0] == 't' && chars[1] == 'o' && chars[2] == 'd' && chars[3] == 'a'
        && chars[4] == 'y'
}

/// Reads a date for which the local time zone has been asked already:
/// `local` is the instant that the zone makes of the civil time in `input`,
/// if `input` writes one.
pub fn resolve(input: &str, now: Date, local: Option<i64>) -> (r: Result<Date, DateError>)
    ensures
        dated(input@, now, local, r),
{
    let chars = chars_of(input);
    if spells_today(&chars) && now.has_start_of_day() {
        return Ok(now.start_of_day());
    }
    if let Some(civil) = read_civil(&chars) {
        if civil.seconds().is_some() {
            if let Some(utc) = local {
                let at = Date { seconds: utc };
                if at.has_start_of_day() {
                    return Ok(at.start_of_day());
                }
            }
        }
    }
    match Cadence::from_str(input) {
        Ok(cadence) => {
            match now.checked_add(cadence) {
                Some(at) => if at.has_start_of_day() {
                    Ok(at.start_of_day())
                } else {
                    let digits = input.substring_char(0, leading(&chars));
                    Err(DateError { cause: ParseError::CouldntParseNumber(String::from_str(digits)) })
                },
                None => {
                    let digits = input.substring_char(0, leading(&chars));
                    Err(DateError { cause: ParseError::CouldntParseNumber(String::from_str(digits)) })
                },
            }
        },
        Err(cause) => Err(DateError { cause }),
    }
}

/// How many digits `chars` begin with.
fn leading(chars: &Vec<char>) -> (count: usize)
    ensures
        count == digit_count(chars@),
        count <= chars@.len(),
{
    let mut count: usize = 0;
    proof {
        assert(chars@.skip(0) =~= chars@);
    }
    while count < chars.len() && '0' <= chars[count] && chars[count] <= '9'
        invariant
            count <= chars.len(),
            digit_count(chars@) == count + digit_count(chars@.skip(count as int)),
        decreases chars.len() - count,
    {
        proof {
            lemma_digit_count_step(chars@, count as int);
        }
        count = count + 1;
    }
    proof {
        lemma_digit_count_step(chars@, count as int);
    }
    count
}

/// Reads when an item is to come up: `today`; a date as `YYYY-MM-DD`, or a
/// date and a time as `YYYY-MM-DDTHH:MM:SS`, in the local time zone; or a
/// cadence, counted from `now`. The result is the last midnight UTC at or
/// before the instant that is named.
///
/// What the local zone makes of a civil time is the zone's to say, so for
/// such a text the result is stated for whatever the zone answered.
pub fn parse_utc_datetime(input: &str, now: Date) -> (r: Result<Date, DateError>)
    ensures
        exists|local: Option<i64>| dated(input@, now, local, r),
        !civil_known(input@) ==> dated(input@, now, None, r),
{
    let chars = chars_of(input);
    let local = match read_civil(&chars) {
        Some(civil) => match civil.seconds() {
            Some(seconds) => local_instant(seconds),
            None => None,
        },
        None => None,
    };
    resolve(input, now, local)
}

} // verus!
