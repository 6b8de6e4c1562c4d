//! What holds of every timestamp.
use vstd::prelude::*;

use crate::calendar::{
    days_before_month, days_before_year, days_in_month, is_leap, is_timestamp, two_digits, Moment,
};
use crate::text::digit_char;

verus! {

proof fn earlier_years_end_before(a: int, b: int)
    requires
        1970 <= a < b,
    ensures
        days_before_year(a) + (if is_leap(a) {
            366int
        } else {
            365int
        }) <= days_before_year(b),
    decreases b - a,
{
    if a + 1 < b {
        earlier_years_end_before(a, b - 1);
    }
}

proof fn earlier_months_end_before(year: int, a: int, b: int)
    requires
        1 <= a < b,
    ensures
        days_before_month(year, a) + days_in_month(year, a) <= days_before_month(year, b),
    decreases b - a,
{
    if a + 1 < b {
        earlier_months_end_before(year, a, b - 1);
    }
}

proof fn a_day_is_in_its_year(m: Moment)
    requires
        m.valid(),
    ensures
        days_before_year(m.year) <= m.days() < days_before_year(m.year) + (if is_leap(m.year) {
            366int
        } else {
            365int
        }),
{
    assert(days_before_month(m.year, 13) == (if is_leap(m.year) {
        366int
    } else {
        365int
    })) by {
        reveal_with_fuel(days_before_month, 13);
    }
    earlier_months_end_before(m.year, m.month, 13);
    assert(days_before_month(m.year, m.month) >= 0) by {
        if m.month > 1 {
            earlier_months_end_before(m.year, 1, m.month);
        }
    }
}

/// A year has 365 days, and one more where it can be divided by 4 and not by 100, or by 400.
pub proof fn years_have_their_days(year: int)
    requires
        year >= 1970,
    ensures
        days_before_year(1970) == 0,
        days_before_year(year + 1) - days_before_year(year) == if year % 400 == 0 || (year % 4 == 0
            && year % 100 != 0) {
            366int
        } else {
            365int
        },
        days_before_month(year, 13) == days_before_year(year + 1) - days_before_year(year),
{
    assert(days_before_month(year, 13) == (if is_leap(year) {
        366int
    } else {
        365int
    })) by {
        reveal_with_fuel(days_before_month, 13);
    }
}

/// A month starts where the one before it ends. Thirty days have April, June, September and
/// November, February has 28, or 29 in a longer year, and the others have 31.
pub proof fn months_have_their_days(year: int, month: int)
    requires
        year >= 1970,
        1 <= month <= 12,
    ensures
        days_before_month(year, 1) == 0,
        days_before_month(year, month + 1) - days_before_month(year, month) == if month == 2 {
            28 + (days_before_year(year + 1) - days_before_year(year) - 365)
        } else if month == 4 || month == 6 || month == 9 || month == 11 {
            30int
        } else {
            31int
        },
{
}

/// The day of a moment counts the days, and the time of day the seconds, from the start of
/// 1970 on.
pub proof fn moments_are_counted(m: Moment)
    ensures
        m.days() == days_before_year(m.year) + days_before_month(m.year, m.month) + (m.day - 1),
        m.seconds() == 86400 * m.days() + 3600 * m.hour + 60 * m.minute + m.second,
        m.valid() <==> 1970 <= m.year <= 9999 && 1 <= m.month <= 12 && 1 <= m.day
            <= days_before_month(m.year, m.month + 1) - days_before_month(m.year, m.month) && 0
            <= m.hour <= 23 && 0 <= m.minute <= 59 && 0 <= m.second <= 59,
{
}

/// No two moments are the same second.
pub proof fn a_second_is_one_moment(a: Moment, b: Moment)
    requires
        a.valid(),
        b.valid(),
        a.seconds() == b.seconds(),
    ensures
        a == b,
{
    assert(a.days() == b.days());
    assert(a.hour * 3600 + a.minute * 60 + a.second == b.hour * 3600 + b.minute * 60 + b.second);
    a_day_is_in_its_year(a);
    a_day_is_in_its_year(b);
    if a.year < b.year {
        earlier_years_end_before(a.year, b.year);
    }
    if b.year < a.year {
        earlier_years_end_before(b.year, a.year);
    }
    if a.month < b.month {
        earlier_months_end_before(a.year, a.month, b.month);
    }
    if b.month < a.month {
        earlier_months_end_before(a.year, b.month, a.month);
    }
}

proof fn two_digits_tell_numbers_apart(m: int, n: int)
    requires
        0 <= m < 100,
        0 <= n < 100,
        two_digits(m)[0] == two_digits(n)[0],
        two_digits(m)[1] == two_digits(n)[1],
    ensures
        m == n,
{
    assert(digit_char(m / 10) as int == 48 + m / 10);
    assert(digit_char(n / 10) as int == 48 + n / 10);
    assert(digit_char(m % 10) as int == 48 + m % 10);
    assert(digit_char(n % 10) as int == 48 + n % 10);
}

proof fn texts_tell_moments_apart(a: Moment, b: Moment)
    requires
        a.valid(),
        b.valid(),
        a.text() == b.text(),
    ensures
        a == b,
{
    let p = a.text();
    let q = b.text();
    assert(p[0] == two_digits(a.year / 100)[0] && p[1] == two_digits(a.year / 100)[1]);
    assert(q[0] == two_digits(b.year / 100)[0] && q[1] == two_digits(b.year / 100)[1]);
    two_digits_tell_numbers_apart(a.year / 100, b.year / 100);
    assert(p[2] == two_digits(a.year % 100)[0] && p[3] == two_digits(a.year % 100)[1]);
    assert(q[2] == two_digits(b.year % 100)[0] && q[3] == two_digits(b.year % 100)[1]);
    two_digits_tell_numbers_apart(a.year % 100, b.year % 100);
    assert(p[5] == two_digits(a.month)[0] && p[6] == two_digits(a.month)[1]);
    assert(q[5] == two_digits(b.month)[0] && q[6] == two_digits(b.month)[1]);
    two_digits_tell_numbers_apart(a.month, b.month);
    assert(p[8] == two_digits(a.day)[0] && p[9] == two_digits(a.day)[1]);
    assert(q[8] == two_digits(b.day)[0] && q[9] == two_digits(b.day)[1]);
    two_digits_tell_numbers_apart(a.day, b.day);
    assert(p[11] == two_digits(a.hour)[0] && p[12] == two_digits(a.hour)[1]);
    assert(q[11] == two_digits(b.hour)[0] && q[12] == two_digits(b.hour)[1]);
    two_digits_tell_numbers_apart(a.hour, b.hour);
    assert(p[14] == two_digits(a.minute)[0] && p[15] == two_digits(a.minute)[1]);
    assert(q[14] == two_digits(b.minute)[0] && q[15] == two_digits(b.minute)[1]);
    two_digits_tell_numbers_apart(a.minute, b.minute);
    assert(p[17] == two_digits(a.second)[0] && p[18] == two_digits(a.second)[1]);
    assert(q[17] == two_digits(b.second)[0] && q[18] == two_digits(b.second)[1]);
    two_digits_tell_numbers_apart(a.second, b.second);
}

/// A second is written in one way only.
pub proof fn a_second_has_one_timestamp(a: Seq<char>, b: Seq<char>, secs: int)
    requires
        is_timestamp(a, secs),
        is_timestamp(b, secs),
    ensures
        a == b,
{
    let m = choose|m: Moment| m.valid() && m.seconds() == secs && #[trigger] m.text() == a;
    let n = choose|n: Moment| n.valid() && n.seconds() == secs && #[trigger] n.text() == b;
    a_second_is_one_moment(m, n);
}

/// A timestamp is read in one way only: different seconds are written differently.
pub proof fn timestamps_tell_seconds_apart(text: Seq<char>, s: int, t: int)
    requires
        is_timestamp(text, s),
        is_timestamp(text, t),
    ensures
        s == t,
{
    let m = choose|m: Moment| m.valid() && m.seconds() == s && #[trigger] m.text() == text;
    let n = choose|n: Moment| n.valid() && n.seconds() == t && #[trigger] n.text() == text;
    texts_tell_moments_apart(m, n);
}

/// A timestamp has the shape that RFC 3339 asks for: date, `T`, time of day, `Z`.
pub proof fn timestamps_have_one_shape(text: Seq<char>, secs: int)
    requires
        is_timestamp(text, secs),
    ensures
        text.len() == 20,
        text[4] == '-' && text[7] == '-' && text[10] == 'T',
        text[13] == ':' && text[16] == ':' && text[19] == 'Z',
        forall|i: int|
            0 <= i < 19 && i != 4 && i != 7 && i != 10 && i != 13 && i != 16 ==> '0'
                <= #[trigger] text[i] <= '9',
{
    let m = choose|m: Moment| m.valid() && m.seconds() == secs && #[trigger] m.text() == text;
    assert forall|n: int| 0 <= n < 100 implies '0' <= (#[trigger] two_digits(n))[0] <= '9' && '0'
        <= two_digits(n)[1] <= '9' by {
        assert(digit_char(n / 10) as int == 48 + n / 10);
        assert(digit_char(n % 10) as int == 48 + n % 10);
    }
    assert(text[0] == two_digits(m.year / 100)[0] && text[1] == two_digits(m.year / 100)[1]);
    assert(text[2] == two_digits(m.year % 100)[0] && text[3] == two_digits(m.year % 100)[1]);
    assert(text[5] == two_digits(m.month)[0] && text[6] == two_digits(m.month)[1]);
    assert(text[8] == two_digits(m.day)[0] && text[9] == two_digits(m.day)[1]);
    assert(text[11] == two_digits(m.hour)[0] && text[12] == two_digits(m.hour)[1]);
    assert(text[14] == two_digits(m.minute)[0] && text[15] == two_digits(m.minute)[1]);
    assert(text[17] == two_digits(m.second)[0] && text[18] == two_digits(m.second)[1]);
}

} // verus!
