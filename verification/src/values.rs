//! Plain values that stand for what the database and the forms exchange:
//! calendar dates, timestamps, and numbers with a fraction.
//!
//! Numbers with a fraction are never computed with here. They are carried
//! from a form to a statement unchanged, so they are held by their bits.

use crate::text::decimal;
use vstd::prelude::*;
use vstd::string::*;

verus! {

/// A count that the database holds with a sign, read as one without: the
/// same 32 bits.
pub open spec fn unsigned(amount: i32) -> u32 {
    if amount >= 0 {
        amount as u32
    } else {
        (amount + 0x1_0000_0000) as u32
    }
}

/// A count without a sign, as the database holds it with one: the same 32
/// bits.
pub open spec fn signed(amount: u32) -> i32 {
    if amount <= 0x7fff_ffff {
        amount as i32
    } else {
        (amount - 0x1_0000_0000) as i32
    }
}

/// A count that the database holds with a sign, read as one without.
pub fn to_unsigned(amount: i32) -> (u: u32)
    ensures
        u == unsigned(amount),
{
    if amount >= 0 {
        amount as u32
    } else {
        (amount as i64 + 0x1_0000_0000) as u32
    }
}

/// A count without a sign, as the database holds it with one.
pub fn to_signed(amount: u32) -> (s: i32)
    ensures
        s == signed(amount),
{
    if amount <= 0x7fff_ffff {
        amount as i32
    } else {
        (amount as i64 - 0x1_0000_0000) as i32
    }
}

/// Reading a count with a sign and writing it back gives the same count,
/// and the other way round.
pub proof fn lemma_sign_round_trip(a: i32, b: u32)
    ensures
        signed(unsigned(a)) == a,
        unsigned(signed(b)) == b,
{
}

/// The decimal text of `n` with zeros in front of it up to two digits.
pub open spec fn two_digits(n: nat) -> Seq<char> {
    if n < 10 {
        "0"@ + decimal(n)
    } else {
        decimal(n)
    }
}

/// The decimal text of `n` with zeros in front of it up to four digits.
pub open spec fn four_digits(n: nat) -> Seq<char> {
    if n < 10 {
        "000"@ + decimal(n)
    } else if n < 100 {
        "00"@ + decimal(n)
    } else if n < 1000 {
        "0"@ + decimal(n)
    } else {
        decimal(n)
    }
}

/// The text of a year: four digits for the years 0 to 9999; for any other
/// year its sign, and at least four digits.
pub open spec fn year_text(year: int) -> Seq<char> {
    if 0 <= year <= 9999 {
        four_digits(year as nat)
    } else if year > 9999 {
        "+"@ + four_digits(year as nat)
    } else {
        "-"@ + four_digits((-year) as nat)
    }
}

/// Whether a year has a 29th of February in the calendar that is counted
/// backwards from the Gregorian one without a break.
pub open spec fn leap(year: int) -> bool {
    year % 4 == 0 && (year % 100 != 0 || year % 400 == 0)
}

/// The number of days of a month.
pub open spec fn days_in(year: int, month: int) -> int {
    if month == 2 {
        if leap(year) {
            29
        } else {
            28
        }
    } else if month == 4 || month == 6 || month == 9 || month == 11 {
        30
    } else {
        31
    }
}

/// `chrono::NaiveDate::from_ymd_opt`, then `NaiveDate::format` with
/// `%Y-%m-%d`. The first gives a date exactly for the days of the calendar
/// in the years -262143 to 262142. The second writes the year with four
/// digits, and with a sign and at least four digits outside 0 to 9999,
/// then month and day with two digits each, with hyphens between them.
#[verifier::external_body]
fn calendar_text(year: i32, month: u32, day: u32) -> (text: Option<String>)
    ensures
        text is Some <==> (Date { year, month, day }).is_day(),
        text is Some ==> text->0@ == (Date { year, month, day }).spec_iso_text(),
{
    match chrono::NaiveDate::from_ymd_opt(year, month, day) {
        Some(date) => Some(date.format("%Y-%m-%d").to_string()),
        None => None,
    }
}

/// A single-precision number, held by its IEEE 754 bits.
#[derive(Clone, Copy, Debug, PartialEq, Eq, Structural)]
pub struct Float32 {
    pub bits: u32,
}

/// A double-precision number, held by its IEEE 754 bits.
#[derive(Clone, Copy, Debug, PartialEq, Eq, Structural)]
pub struct Float64 {
    pub bits: u64,
}

/// A point of the plane.
#[derive(Clone, Copy, Debug, PartialEq, Eq, Structural)]
pub struct Point {
    pub x: Float64,
    pub y: Float64,
}

/// A calendar date.
#[derive(Clone, Copy, Debug, PartialEq, Eq, Structural)]
pub struct Date {
    pub year: i32,
    pub month: u32,
    pub day: u32,
}

impl Date {
    /// Whether `self` is an earlier day than `other`.
    pub open spec fn spec_before(self, other: Date) -> bool {
        self.year < other.year || (self.year == other.year && (self.month < other.month || (
        self.month == other.month && self.day < other.day)))
    }

    /// Whether `self` is an earlier day than `other`.
    pub fn before(&self, other: &Date) -> (b: bool)
        ensures
            b == self.spec_before(*other),
    {
        self.year < other.year || (self.year == other.year && (self.month < other.month || (
        self.month == other.month && self.day < other.day)))
    }

    /// The date as year, month and day with hyphens between them: the
    /// year as `year_text` gives it, month and day with two digits each.
    pub open spec fn spec_iso_text(self) -> Seq<char> {
        year_text(self.year as int) + "-"@ + two_digits(self.month as nat) + "-"@ + two_digits(
            self.day as nat,
        )
    }

    /// Whether the date is a day of the calendar, in a year that a date
    /// can be kept for.
    pub open spec fn is_day(self) -> bool {
        &&& -262143 <= self.year <= 262142
        &&& 1 <= self.month <= 12
        &&& 1 <= self.day <= days_in(self.year as int, self.month as int)
    }

    /// The date as year, month and day with hyphens between them; `None`
    /// where it is no day of the calendar.
    pub fn iso_text(&self) -> (text: Option<String>)
        ensures
            text is Some <==> self.is_day(),
            text is Some ==> text->0@ == self.spec_iso_text(),
    {
        calendar_text(self.year, self.month, self.day)
    }

    /// Whether `self` is a later day than `other`.
    pub fn after(&self, other: &Date) -> (b: bool)
        ensures
            b == other.spec_before(*self),
    {
        other.before(self)
    }
}

/// A moment without a time zone: a date, the seconds since its midnight, and
/// the nanoseconds since that second.
#[derive(Clone, Copy, Debug, PartialEq, Eq, Structural)]
pub struct DateTime {
    pub date: Date,
    pub seconds: u32,
    pub nanos: u32,
}

/// Earlier days come before later ones, and no day comes before itself: the
/// order of dates is strict and total.
pub proof fn lemma_date_order(a: Date, b: Date, c: Date)
    ensures
        !a.spec_before(a),
        a.spec_before(b) && b.spec_before(c) ==> a.spec_before(c),
        a.spec_before(b) || b.spec_before(a) || a == b,
        !(a.spec_before(b) && b.spec_before(a)),
{
}

} // verus!
