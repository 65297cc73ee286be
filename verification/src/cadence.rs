//! The recurrence interval of an item: a signed count of minutes.
//!
//! Larger units are fixed multiples of the minute. No calendar is consulted:
//! an hour is 60 minutes, a day 24 hours, a week 7 days, a month 30 days and
//! a year 365 days. In writing the units are `h`, `d`, `w`, `m` and `y`.

use crate::text::{
    chars_of, decimal, digit_count, is_digit, lemma_decimal_shape, lemma_digit_count_bound,
    lemma_digit_count_prefix, lemma_digit_count_step, lemma_number_decimal, lemma_number_step,
    number, push_decimal,
};
use vstd::prelude::*;
use vstd::std_specs::ops::AddSpec;

verus! {

/// Minutes in an hour.
pub const HOURS: i64 = 60;

/// Minutes in a day.
pub const DAYS: i64 = 1_440;

/// Minutes in a week of 7 days.
pub const WEEKS: i64 = 10_080;

/// Minutes in a month of 30 days.
pub const MONTHS: i64 = 43_200;

/// Minutes in a year of 365 days.
pub const YEARS: i64 = 525_600;

/// A signed span of time, counted in minutes.
#[derive(Debug, PartialEq, Eq, Clone, Copy, Ord, Hash, Structural)]
pub struct Cadence {
    pub minutes: i64,
}

/// Whether `amount` units of `unit` minutes each can be counted in an `i64`.
pub open spec fn fits(amount: int, unit: int) -> bool {
    i64::MIN <= amount * unit <= i64::MAX
}

impl Cadence {
    /// So many minutes.
    pub fn minutes(minutes: i64) -> (c: Cadence)
        ensures
            c.minutes == minutes,
    {
        Cadence { minutes }
    }

    /// So many hours.
    pub fn hours(hours: i64) -> (c: Cadence)
        requires
            fits(hours as int, HOURS as int),
        ensures
            c.minutes == hours * HOURS,
    {
        Cadence::minutes(hours * HOURS)
    }

    /// So many days.
    pub fn days(days: i64) -> (c: Cadence)
        requires
            fits(days as int, DAYS as int),
        ensures
            c.minutes == days * DAYS,
    {
        Cadence::minutes(days * DAYS)
    }

    /// So many weeks of 7 days.
    pub fn weeks(weeks: i64) -> (c: Cadence)
        requires
            fits(weeks as int, WEEKS as int),
        ensures
            c.minutes == weeks * WEEKS,
    {
        Cadence::minutes(weeks * WEEKS)
    }

    /// So many months of 30 days.
    pub fn months(months: i64) -> (c: Cadence)
        requires
            fits(months as int, MONTHS as int),
        ensures
            c.minutes == months * MONTHS,
    {
        Cadence::minutes(months * MONTHS)
    }

    /// So many years of 365 days.
    pub fn years(years: i64) -> (c: Cadence)
        requires
            fits(years as int, YEARS as int),
        ensures
            c.minutes == years * YEARS,
    {
        Cadence::minutes(years * YEARS)
    }
}

/// What is wrong with a cadence string.
#[derive(Debug, PartialEq, Eq)]
pub enum ParseError {
    /// The string does not begin with a digit.
    MissingDigits,
    /// The digits, which are kept, count more minutes than an `i64` holds.
    CouldntParseNumber(String),
    /// No unit follows the digits, or none of `h`, `d`, `w`, `m`, `y`.
    MissingTag,
    /// Something follows the character after the digits.
    ExtraStuff,
}

/// The kind of a `ParseError`, without the text it carries.
pub enum Defect {
    MissingDigits,
    CouldntParseNumber,
    MissingTag,
    ExtraStuff,
}

impl ParseError {
    /// The error in words.
    pub fn to_string(&self) -> (out: String)
        ensures
            out@ == match self {
                ParseError::MissingDigits =>
                    "I expected to see some numbers, then a tag (like 1d), but I didn't see any numbers"@,
                ParseError::CouldntParseNumber(digits) => "I couldn't parse a number from "@
                    + digits@ + ": number too large to fit in target type"@,
                ParseError::MissingTag =>
                    "I expected to see a tag (h, d, w, m, y) after the amount"@,
                ParseError::ExtraStuff =>
                    "I got extra stuff after the number and tag. Reduce it to something like 30d and try again"@,
            },
    {
        match self {
            ParseError::MissingDigits => String::from_str(
                "I expected to see some numbers, then a tag (like 1d), but I didn't see any numbers",
            ),
            ParseError::CouldntParseNumber(digits) => {
                let mut out = String::from_str("I couldn't parse a number from ");
                out.append(digits.as_str());
                out.append(": number too large to fit in target type");
                out
            },
            ParseError::MissingTag => String::from_str(
                "I expected to see a tag (h, d, w, m, y) after the amount",
            ),
            ParseError::ExtraStuff => String::from_str(
                "I got extra stuff after the number and tag. Reduce it to something like 30d and try again",
            ),
        }
    }

    /// The kind of the error.
    pub open spec fn defect(self) -> Defect {
        match self {
            ParseError::MissingDigits => Defect::MissingDigits,
            ParseError::CouldntParseNumber(_) => Defect::CouldntParseNumber,
            ParseError::MissingTag => Defect::MissingTag,
            ParseError::ExtraStuff => Defect::ExtraStuff,
        }
    }
}

/// The minutes in one unit of the kind that `tag` names.
pub open spec fn unit_minutes(tag: char) -> Option<int> {
    if tag == 'h' {
        Some(HOURS as int)
    } else if tag == 'd' {
        Some(DAYS as int)
    } else if tag == 'w' {
        Some(WEEKS as int)
    } else if tag == 'm' {
        Some(MONTHS as int)
    } else if tag == 'y' {
        Some(YEARS as int)
    } else {
        None
    }
}

/// The digits that `s` begins with.
pub open spec fn leading_digits(s: Seq<char>) -> Seq<char> {
    s.take(digit_count(s) as int)
}

/// What a cadence string means: the minutes it counts, or what is wrong
/// with it.
///
/// The string is read as digits, then one more character, the unit. Anything
/// after that character is the first thing reported; then missing digits;
/// then an amount too large to count; then a missing or unknown unit; last,
/// an amount that is too large once scaled by its unit.
pub open spec fn parse_spec(s: Seq<char>) -> Result<int, Defect> {
    let d = digit_count(s);
    let amount = number(leading_digits(s));
    if s.len() > d + 1 {
        Err(Defect::ExtraStuff)
    } else if d == 0 {
        Err(Defect::MissingDigits)
    } else if amount > i64::MAX {
        Err(Defect::CouldntParseNumber)
    } else if s.len() == d {
        Err(Defect::MissingTag)
    } else {
        match unit_minutes(s[d as int]) {
            None => Err(Defect::MissingTag),
            Some(unit) => if amount * unit > i64::MAX {
                Err(Defect::CouldntParseNumber)
            } else {
                Ok(amount * unit)
            },
        }
    }
}

/// Whether `r` is what parsing `s` must give.
pub open spec fn parsed(s: Seq<char>, r: Result<Cadence, ParseError>) -> bool {
    match parse_spec(s) {
        Ok(minutes) => r == Ok::<Cadence, ParseError>(Cadence { minutes: minutes as i64 }),
        Err(defect) => {
            &&& r is Err
            &&& r->Err_0.defect() == defect
            &&& r->Err_0 matches ParseError::CouldntParseNumber(text) ==> text@ == leading_digits(s)
        },
    }
}

/// The unit that `tag` names, in minutes.
fn unit_of(tag: char) -> (unit: Option<i64>)
    ensures
        unit is Some <==> unit_minutes(tag) is Some,
        unit is Some ==> unit->0 == unit_minutes(tag)->0,
{
    if tag == 'h' {
        Some(HOURS)
    } else if tag == 'd' {
        Some(DAYS)
    } else if tag == 'w' {
        Some(WEEKS)
    } else if tag == 'm' {
        Some(MONTHS)
    } else if tag == 'y' {
        Some(YEARS)
    } else {
        None
    }
}

impl Cadence {
    /// Reads a cadence written as digits and a unit: `h`, `d`, `w`, `m` or
    /// `y`, as in `36h` or `2w`.
    pub fn from_str(input: &str) -> (r: Result<Cadence, ParseError>)
        ensures
            parsed(input@, r),
    {
        let chars = chars_of(input);
        let n = chars.len();
        let mut d: usize = 0;
        let mut amount: i64 = 0;
        let mut overflow = false;
        proof {
            assert(chars@.skip(0) =~= chars@);
            assert(chars@.take(0) =~= Seq::<char>::empty());
        }
        while d < n && '0' <= chars[d] && chars[d] <= '9'
            invariant
                n == chars@.len(),
                chars@ == input@,
                d <= n,
                digit_count(chars@) == d + digit_count(chars@.skip(d as int)),
                !overflow ==> amount == number(chars@.take(d as int)),
                overflow ==> number(chars@.take(d as int)) > i64::MAX,
                0 <= amount,
            decreases n - d,
        {
            proof {
                lemma_digit_count_step(chars@, d as int);
                lemma_number_step(chars@, d as int);
            }
            let value: i64 = (chars[d] as u32 - '0' as u32) as i64;
            if !overflow {
                match amount.checked_mul(10) {
                    Some(tens) => match tens.checked_add(value) {
                        Some(next) => {
                            amount = next;
                        },
                        None => {
                            overflow = true;
                        },
                    },
                    None => {
                        overflow = true;
                    },
                }
            }
            d = d + 1;
        }
        proof {
            lemma_digit_count_step(chars@, d as int);
        }
        if n - d > 1 {
            return Err(ParseError::ExtraStuff);
        }
        if d == 0 {
            return Err(ParseError::MissingDigits);
        }
        if overflow {
            let digits = input.substring_char(0, d);
            return Err(ParseError::CouldntParseNumber(String::from_str(digits)));
        }
        if n == d {
            return Err(ParseError::MissingTag);
        }
        match unit_of(chars[d]) {
            None => Err(ParseError::MissingTag),
            Some(unit) => match amount.checked_mul(unit) {
                Some(minutes) => Ok(Cadence { minutes }),
                None => {
                    let digits = input.substring_char(0, d);
                    Err(ParseError::CouldntParseNumber(String::from_str(digits)))
                },
            },
        }
    }
}

/// `m` units of `unit` minutes, rounded to the nearest whole count, halves
/// upwards.
pub open spec fn rounded(m: nat, unit: nat) -> nat
    recommends
        unit > 0,
{
    if 2 * (m % unit) >= unit {
        m / unit + 1
    } else {
        m / unit
    }
}

/// `m` minutes as a rounded count of `unit`, marked as rounded.
pub open spec fn approximately(m: nat, unit: nat, tag: char) -> Seq<char> {
    seq!['~'] + decimal(rounded(m, unit)).push(tag)
}

/// `m` minutes as a count of `unit`: exact where `unit` divides `m`, rounded
/// and marked so where it does not.
pub open spec fn counted(m: nat, unit: nat, tag: char) -> Seq<char> {
    if m % unit == 0 {
        decimal(m / unit).push(tag)
    } else {
        approximately(m, unit, tag)
    }
}

/// How a span of `m` minutes, not negative, is shown.
///
/// From two years on it is shown in rounded years, from three months on in
/// rounded months; below that in the largest of weeks, days and hours that
/// it reaches. Less than an hour is not counted.
pub open spec fn format_magnitude(m: nat) -> Seq<char> {
    if m >= 2 * YEARS {
        approximately(m, YEARS as nat, 'y')
    } else if m >= 3 * MONTHS {
        approximately(m, MONTHS as nat, 'm')
    } else if m >= WEEKS {
        counted(m, WEEKS as nat, 'w')
    } else if m >= DAYS {
        counted(m, DAYS as nat, 'd')
    } else if m >= HOURS {
        counted(m, HOURS as nat, 'h')
    } else {
        seq!['<', '1', 'h']
    }
}

/// How a cadence of `minutes` is shown: by its magnitude, behind a minus
/// sign where it is negative.
pub open spec fn format_spec(minutes: int) -> Seq<char> {
    if minutes < 0 {
        seq!['-'] + format_magnitude((-minutes) as nat)
    } else {
        format_magnitude(minutes as nat)
    }
}

/// Appends to `out` the rounded count of `unit` in `m`, marked as rounded.
fn push_approximately(out: &mut String, m: u64, unit: u64, tag: &str)
    requires
        unit > 0,
        tag@.len() == 1,
    ensures
        final(out)@ == old(out)@ + approximately(m as nat, unit as nat, tag@[0]),
{
    proof {
        reveal_strlit("~");
    }
    let ghost before = out@;
    let whole = m / unit;
    let count = if m % unit >= unit - m % unit {
        assert(whole < u64::MAX) by (nonlinear_arith)
            requires
                whole == m / unit,
                unit >= 2,
                m <= u64::MAX,
        ;
        whole + 1
    } else {
        whole
    };
    out.append("~");
    push_decimal(out, count);
    out.append(tag);
    assert(out@ =~= before + approximately(m as nat, unit as nat, tag@[0]));
}

/// Appends to `out` the count of `unit` in `m`, exact or rounded.
fn push_counted(out: &mut String, m: u64, unit: u64, tag: &str)
    requires
        unit > 0,
        tag@.len() == 1,
    ensures
        final(out)@ == old(out)@ + counted(m as nat, unit as nat, tag@[0]),
{
    let ghost before = out@;
    if m % unit == 0 {
        push_decimal(out, m / unit);
        out.append(tag);
        assert(out@ =~= before + counted(m as nat, unit as nat, tag@[0]));
    } else {
        push_approximately(out, m, unit, tag);
    }
}

impl Cadence {
    /// The minutes of this cadence without their sign.
    pub fn magnitude(&self) -> (m: u64)
        ensures
            m == if self.minutes < 0 {
                -self.minutes
            } else {
                self.minutes as int
            },
    {
        if self.minutes < 0 {
            let below: i64 = -(self.minutes + 1);
            below as u64 + 1
        } else {
            self.minutes as u64
        }
    }

    /// Shows the cadence in its largest fitting unit, as in `1d`, `~2w` or
    /// `<1h`; a leading `~` marks a rounded count.
    pub fn to_string(&self) -> (out: String)
        ensures
            out@ == format_spec(self.minutes as int),
    {
        proof {
            reveal_strlit("-");
            reveal_strlit("y");
            reveal_strlit("m");
            reveal_strlit("w");
            reveal_strlit("d");
            reveal_strlit("h");
            reveal_strlit("<1h");
        }
        let m = self.magnitude();
        let mut out = String::new();
        if self.minutes < 0 {
            out.append("-");
        }
        let ghost sign = out@;
        if m >= 2 * (YEARS as u64) {
            push_approximately(&mut out, m, YEARS as u64, "y");
        } else if m >= 3 * (MONTHS as u64) {
            push_approximately(&mut out, m, MONTHS as u64, "m");
        } else if m >= WEEKS as u64 {
            push_counted(&mut out, m, WEEKS as u64, "w");
        } else if m >= DAYS as u64 {
            push_counted(&mut out, m, DAYS as u64, "d");
        } else if m >= HOURS as u64 {
            push_counted(&mut out, m, HOURS as u64, "h");
        } else {
            out.append("<1h");
            assert(out@ =~= sign + seq!['<', '1', 'h']);
        }
        assert(out@ =~= format_spec(self.minutes as int));
        out
    }
}

impl vstd::std_specs::ops::AddSpecImpl<Cadence> for Cadence {
    open spec fn obeys_add_spec() -> bool {
        true
    }

    open spec fn add_req(self, other: Cadence) -> bool {
        i64::MIN <= self.minutes + other.minutes <= i64::MAX
    }

    open spec fn add_spec(self, other: Cadence) -> Cadence {
        Cadence { minutes: (self.minutes + other.minutes) as i64 }
    }
}

impl core::ops::Add<Cadence> for Cadence {
    type Output = Cadence;

    /// The sum of two cadences.
    fn add(self, other: Cadence) -> (sum: Cadence) {
        Cadence { minutes: self.minutes + other.minutes }
    }
}

/// Whether `count` units of the kind `tag` are shown as just that: in hours
/// below a day, in days below a week, in weeks below three months.
pub open spec fn shown_exactly(count: nat, tag: char) -> bool {
    ||| tag == 'h' && 1 <= count < 24
    ||| tag == 'd' && 1 <= count < 7
    ||| tag == 'w' && 1 <= count <= 12
}

/// A numeral followed by a unit reads as so many units, unless they are too
/// many to count.
pub proof fn lemma_parse_numeral(count: nat, tag: char)
    requires
        unit_minutes(tag) is Some,
    ensures
        parse_spec(decimal(count).push(tag)) == if count * unit_minutes(tag)->0 <= i64::MAX {
            Ok::<int, Defect>(count * unit_minutes(tag)->0)
        } else {
            Err::<int, Defect>(Defect::CouldntParseNumber)
        },
{
    let numeral = decimal(count);
    let s = numeral.push(tag);
    lemma_decimal_shape(count);
    lemma_number_decimal(count);
    assert(s =~= numeral + seq![tag]);
    lemma_digit_count_prefix(numeral, seq![tag]);
    assert(leading_digits(s) =~= numeral);
    assert(s[numeral.len() as int] == tag);
    let unit = unit_minutes(tag)->0;
    assert(count > i64::MAX ==> count * unit > i64::MAX) by (nonlinear_arith)
        requires
            unit >= 60,
            count >= 0,
    ;
}

/// What is written as a count that is shown exactly reads as a cadence that
/// is shown as it was written: `1d`, `2w` and `23h` come back as they are.
///
/// Months and years are never among these. They are shown rounded, behind a
/// `~`, or in smaller units: `3m` comes back as `~3m`, `1y` as `~12m`.
pub proof fn lemma_format_parse(count: nat, tag: char)
    requires
        shown_exactly(count, tag),
    ensures
        parse_spec(decimal(count).push(tag)) == Ok::<int, Defect>(count * unit_minutes(tag)->0),
        format_spec(count * unit_minutes(tag)->0) == decimal(count).push(tag),
{
    lemma_parse_numeral(count, tag);
}

/// Only counts that are shown exactly come back as they were written: a
/// text that reads as a cadence and is what that cadence is shown as is the
/// numeral of such a count, followed by its unit.
pub proof fn lemma_only_exact_counts_come_back(s: Seq<char>)
    requires
        parse_spec(s) is Ok,
        format_spec(parse_spec(s)->Ok_0) == s,
    ensures
        exists|count: nat, tag: char| shown_exactly(count, tag) && s == decimal(count).push(tag),
{
    let minutes = parse_spec(s)->Ok_0;
    let amount = number(leading_digits(s));
    let d = digit_count(s) as int;
    lemma_digit_count_bound(s);
    assert(0 < d < s.len());
    let unit = unit_minutes(s[d])->0;
    assert(minutes >= 0) by (nonlinear_arith)
        requires
            minutes == amount * unit,
            unit >= 60,
            amount >= 0,
    ;
    let m = minutes as nat;
    assert(is_digit(s[0]));
    if 10_080 <= m < 129_600 && m % 10_080 == 0 {
        let count = m / 10_080;
        assert(1 <= count <= 12);
        assert(shown_exactly(count, 'w'));
        assert(s == decimal(count).push('w'));
    } else if 1_440 <= m < 10_080 && m % 1_440 == 0 {
        let count = m / 1_440;
        assert(1 <= count < 7);
        assert(shown_exactly(count, 'd'));
        assert(s == decimal(count).push('d'));
    } else if 60 <= m < 1_440 && m % 60 == 0 {
        let count = m / 60;
        assert(1 <= count < 24);
        assert(shown_exactly(count, 'h'));
        assert(s == decimal(count).push('h'));
    } else {
        assert(format_spec(minutes)[0] == '~' || format_spec(minutes)[0] == '<');
        assert(false);
    }
}

/// The sum of two cadences counts the minutes of both.
pub proof fn lemma_add_counts(a: Cadence, b: Cadence)
    requires
        a.add_req(b),
    ensures
        a.add_spec(b).minutes == a.minutes + b.minutes,
{
}

impl Default for Cadence {
    /// One hour.
    fn default() -> (c: Cadence)
        ensures
            c.minutes == HOURS,
    {
        Cadence { minutes: HOURS }
    }
}

} // verus!
