//! Calendar time in UTC from seconds since 1970, and the name of the log
//! file of a session that starts at a given time.

use crate::decimal::{decimal_digits, push_decimal};
use vstd::prelude::*;
use vstd::string::*;

verus! {

/// The year is a leap year of the Gregorian calendar.
pub open spec fn leap(y: int) -> bool {
    (y % 4 == 0 && y % 100 != 0) || y % 400 == 0
}

/// The number of days of a year.
pub open spec fn days_in_year(y: int) -> int {
    if leap(y) {
        366
    } else {
        365
    }
}

/// The number of days of month `m`, 1 to 12, of a year.
pub open spec fn days_in_month(y: int, m: int) -> int {
    if m == 2 {
        if leap(y) {
            29
        } else {
            28
        }
    } else if m == 4 || m == 6 || m == 9 || m == 11 {
        30
    } else {
        31
    }
}

/// The days from the start of 1970 to the start of year `y`.
pub open spec fn days_before_year(y: int) -> int
    decreases y - 1970,
{
    if y <= 1970 {
        0
    } else {
        days_before_year(y - 1) + days_in_year(y - 1)
    }
}

/// The days from the start of year `y` to the start of its month `m`.
pub open spec fn days_before_month(y: int, m: int) -> int
    decreases m,
{
    if m <= 1 {
        0
    } else {
        days_before_month(y, m - 1) + days_in_month(y, m - 1)
    }
}

/// Day `d` of month `m` of year `y` is the day that lies `days` days after
/// the first of January 1970.
pub open spec fn is_date_of(days: int, y: int, m: int, d: int) -> bool {
    &&& y >= 1970
    &&& 1 <= m <= 12
    &&& 1 <= d <= days_in_month(y, m)
    &&& days == days_before_year(y) + days_before_month(y, m) + d - 1
}

/// `n` in at least two digits.
pub open spec fn two_digits(n: nat) -> Seq<char> {
    if n < 10 {
        seq!['0'] + decimal_digits(n)
    } else {
        decimal_digits(n)
    }
}

/// `n` in at least four digits.
pub open spec fn four_digits(n: nat) -> Seq<char> {
    if n < 10 {
        seq!['0', '0', '0'] + decimal_digits(n)
    } else if n < 100 {
        seq!['0', '0'] + decimal_digits(n)
    } else if n < 1000 {
        seq!['0'] + decimal_digits(n)
    } else {
        decimal_digits(n)
    }
}

/// The name of the log file of a session that starts at the given date and
/// time.
pub open spec fn log_file_name(y: nat, mo: nat, d: nat, h: nat, mi: nat, s: nat) -> Seq<char> {
    "dreamcodec_"@ + four_digits(y) + seq!['-'] + two_digits(mo) + seq!['-'] + two_digits(d) + seq![
        '_',
    ] + two_digits(h) + seq!['-'] + two_digits(mi) + seq!['-'] + two_digits(s) + ".txt"@
}

/// Whether a year is a leap year.
pub fn is_leap(y: u64) -> (r: bool)
    ensures
        r == leap(y as int),
{
    (y % 4 == 0 && y % 100 != 0) || y % 400 == 0
}

fn month_length(y: u64, m: u64) -> (days: u64)
    requires
        1 <= m <= 12,
    ensures
        days == days_in_month(y as int, m as int),
{
    if m == 2 {
        if is_leap(y) {
            29
        } else {
            28
        }
    } else if m == 4 || m == 6 || m == 9 || m == 11 {
        30
    } else {
        31
    }
}

proof fn lemma_year_has_twelve_months(y: int)
    ensures
        days_before_month(y, 13) == days_in_year(y),
{
    reveal_with_fuel(days_before_month, 14);
}

/// The date and time in UTC of a moment given in seconds since the start
/// of 1970: year, month, day, hour, minute, second.
pub fn epoch_to_datetime(epoch: u64) -> (t: (u64, u64, u64, u64, u64, u64))
    ensures
        is_date_of((epoch / 86400) as int, t.0 as int, t.1 as int, t.2 as int),
        t.3 == (epoch / 3600) % 24,
        t.4 == (epoch / 60) % 60,
        t.5 == epoch % 60,
{
    let s = epoch % 60;
    let total_min = epoch / 60;
    let mi = total_min % 60;
    let total_hr = total_min / 60;
    let h = total_hr % 24;
    let total_days = total_hr / 24;
    let mut days = total_days;
    let mut y: u64 = 1970;
    loop
        invariant
            y >= 1970,
            days <= total_days,
            total_days == epoch / 86400,
            total_days == days_before_year(y as int) + days,
            y - 1970 <= total_days - days,
        ensures
            days < days_in_year(y as int),
        decreases days,
    {
        let days_in_year: u64 = if is_leap(y) {
            366
        } else {
            365
        };
        if days < days_in_year {
            break ;
        }
        days = days - days_in_year;
        y = y + 1;
    }
    let day_of_year = days;
    let mut mo: u64 = 1;
    proof {
        lemma_year_has_twelve_months(y as int);
    }
    while days >= month_length(y, mo)
        invariant
            1 <= mo <= 12,
            day_of_year == days_before_month(y as int, mo as int) + days,
            day_of_year < days_in_year(y as int),
            days_before_month(y as int, 13) == days_in_year(y as int),
        decreases 12 - mo,
    {
        proof {
            if mo == 12 {
                reveal_with_fuel(days_before_month, 2);
                assert(days_before_month(y as int, 13) == days_before_month(y as int, 12)
                    + days_in_month(y as int, 12));
            }
        }
        days = days - month_length(y, mo);
        mo = mo + 1;
    }
    (y, mo, days + 1, h, mi, s)
}

proof fn lemma_years_grow(y1: int, y2: int)
    requires
        1970 <= y1 <= y2,
    ensures
        days_before_year(y2) >= days_before_year(y1) + 365 * (y2 - y1),
        y1 < y2 ==> days_before_year(y2) >= days_before_year(y1) + days_in_year(y1),
    decreases y2 - y1,
{
    if y1 < y2 {
        lemma_years_grow(y1, y2 - 1);
    }
}

proof fn lemma_day_lies_in_its_year(y: int, m: int, d: int)
    requires
        1 <= m <= 12,
        1 <= d <= days_in_month(y, m),
    ensures
        0 <= days_before_month(y, m) + d - 1 < days_in_year(y),
{
    reveal_with_fuel(days_before_month, 14);
}

proof fn lemma_months_grow(y: int, m1: int, m2: int)
    requires
        1 <= m1 < m2 <= 12,
    ensures
        days_before_month(y, m2) >= days_before_month(y, m1) + days_in_month(y, m1),
{
    reveal_with_fuel(days_before_month, 14);
}

/// Every day has one date only: two dates of the same day are the same
/// date.
pub proof fn lemma_date_is_unique(days: int, y1: int, m1: int, d1: int, y2: int, m2: int, d2: int)
    requires
        is_date_of(days, y1, m1, d1),
        is_date_of(days, y2, m2, d2),
    ensures
        y1 == y2,
        m1 == m2,
        d1 == d2,
{
    lemma_day_lies_in_its_year(y1, m1, d1);
    lemma_day_lies_in_its_year(y2, m2, d2);
    if y1 < y2 {
        lemma_years_grow(y1, y2);
    }
    if y2 < y1 {
        lemma_years_grow(y2, y1);
    }
    if m1 < m2 {
        lemma_months_grow(y1, m1, m2);
    }
    if m2 < m1 {
        lemma_months_grow(y1, m2, m1);
    }
}

fn push_two_digits(out: &mut String, n: u64)
    ensures
        final(out)@ == old(out)@ + two_digits(n as nat),
{
    if n < 10 {
        out.push('0');
    }
    push_decimal(out, n);
    assert(out@ =~= old(out)@ + two_digits(n as nat));
}

fn push_four_digits(out: &mut String, n: u64)
    ensures
        final(out)@ == old(out)@ + four_digits(n as nat),
{
    if n < 1000 {
        out.push('0');
    }
    if n < 100 {
        out.push('0');
    }
    if n < 10 {
        out.push('0');
    }
    push_decimal(out, n);
    assert(out@ =~= old(out)@ + four_digits(n as nat));
}

/// The name of the log file of a session that starts `epoch` seconds after
/// the start of 1970.
pub fn session_log_name(epoch: u64) -> (name: String)
    ensures
        exists|y: nat, mo: nat, d: nat|
            is_date_of((epoch / 86400) as int, y as int, mo as int, d as int) && name@
                == #[trigger] log_file_name(
                y,
                mo,
                d,
                ((epoch / 3600) % 24) as nat,
                ((epoch / 60) % 60) as nat,
                (epoch % 60) as nat,
            ),
{
    let (y, mo, d, h, mi, s) = epoch_to_datetime(epoch);
    let mut name = "dreamcodec_".to_owned();
    push_four_digits(&mut name, y);
    name.push('-');
    push_two_digits(&mut name, mo);
    name.push('-');
    push_two_digits(&mut name, d);
    name.push('_');
    push_two_digits(&mut name, h);
    name.push('-');
    push_two_digits(&mut name, mi);
    name.push('-');
    push_two_digits(&mut name, s);
    name.append(".txt");
    assert(name@ =~= log_file_name(y as nat, mo as nat, d as nat, h as nat, mi as nat, s as nat));
    name
}

} // verus!
