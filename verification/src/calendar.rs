//! Moments of the UTC calendar and how they are written.
use vstd::prelude::*;

use crate::text::{digit_char, opt_text};

verus! {

/// How timestamps are written: the date and the time of day in UTC, as RFC 3339 has
/// them.
pub const TIMESTAMP_FORMAT: &'static str = "%Y-%m-%dT%H:%M:%SZ";

/// The last second of the year 9999.
pub const LAST_FOUR_DIGIT_SECOND: i64 = 253402300799;

/// A second of the Gregorian calendar, in UTC.
pub struct Moment {
    pub year: int,
    pub month: int,
    pub day: int,
    pub hour: int,
    pub minute: int,
    pub second: int,
}

/// Whether a year has a 29th of February.
pub open spec fn is_leap(year: int) -> bool {
    year % 4 == 0 && (year % 100 != 0 || year % 400 == 0)
}

/// The days of a month.
pub open spec fn days_in_month(year: int, month: int) -> int {
    if month == 2 {
        if is_leap(year) {
            29
        } else {
            28
        }
    } else if month == 4 || month == 6 || month == 9 || month == 11 {
        30
    } else {
        31
    }
}

/// The days between the first of January 1970 and the first of January of `year`.
pub open spec fn days_before_year(year: int) -> int
    decreases year,
{
    if year <= 1970 {
        0
    } else {
        days_before_year(year - 1) + if is_leap(year - 1) {
            366int
        } else {
            365int
        }
    }
}

/// The days of `year` before the first of `month`.
pub open spec fn days_before_month(year: int, month: int) -> int
    decreases month,
{
    if month <= 1 {
        0
    } else {
        days_before_month(year, month - 1) + days_in_month(year, month - 1)
    }
}

/// A number below 100 in two digits.
pub open spec fn two_digits(n: int) -> Seq<char> {
    seq![digit_char(n / 10), digit_char(n % 10)]
}

impl Moment {
    /// A moment of the calendar between 1970 and 9999.
    pub open spec fn valid(self) -> bool {
        &&& 1970 <= self.year <= 9999
        &&& 1 <= self.month <= 12
        &&& 1 <= self.day <= days_in_month(self.year, self.month)
        &&& 0 <= self.hour < 24
        &&& 0 <= self.minute < 60
        &&& 0 <= self.second < 60
    }

    /// The days from the first of January 1970 to the day of this moment.
    pub open spec fn days(self) -> int {
        days_before_year(self.year) + days_before_month(self.year, self.month) + self.day - 1
    }

    /// The seconds from the start of 1970 to this moment.
    pub open spec fn seconds(self) -> int {
        self.days() * 86400 + self.hour * 3600 + self.minute * 60 + self.second
    }

    /// This moment as `YYYY-MM-DDThh:mm:ssZ`.
    pub open spec fn text(self) -> Seq<char> {
        two_digits(self.year / 100) + two_digits(self.year % 100) + seq!['-'] + two_digits(
            self.month,
        ) + seq!['-'] + two_digits(self.day) + seq!['T'] + two_digits(self.hour) + seq![':']
            + two_digits(self.minute) + seq![':'] + two_digits(self.second) + seq!['Z']
    }
}

/// Whether `text` is the moment `secs` seconds after the start of 1970, written out.
pub open spec fn is_timestamp(text: Seq<char>, secs: int) -> bool {
    exists|m: Moment| m.valid() && m.seconds() == secs && #[trigger] m.text() == text
}

/// What chrono writes for the moment `secs` seconds after the start of 1970 under a
/// format; `None` where it has no such moment.
pub uninterp spec fn utc_text(secs: i64, format: Seq<char>) -> Option<Seq<char>>;

/// `chrono::DateTime::<Utc>::from_timestamp` with `format` on what it returns.
///
/// The moment exists from the year -262143 to the year 262142, and what is written
/// depends on the second and the format alone. From 1970 to 9999 the text is the date
/// and the time of that second. For other years nothing more is claimed of it.
#[verifier::external_body]
pub(crate) fn format_utc(secs: i64, format: &str) -> (r: Option<String>)
    requires
        format@ == TIMESTAMP_FORMAT@,
    ensures
        opt_text(r) == utc_text(secs, format@),
        r is Some <==> -8334601228800 <= secs <= 8210266876799,
        r is Some && 0 <= secs <= LAST_FOUR_DIGIT_SECOND ==> is_timestamp(r->0@, secs as int),
{
    chrono::DateTime::<chrono::Utc>::from_timestamp(secs, 0).map(|t| t.format(format).to_string())
}

} // verus!
