//! Calendar timestamps (proleptic Gregorian, UTC) and exact differences
//! between them.
use vstd::prelude::*;

verus! {

pub const SECONDS_PER_DAY: i64 = 86400;

/// A moment in UTC, to the second.
#[derive(Clone, Copy, Debug, PartialEq, Eq, Structural)]
pub struct Timestamp {
    pub year: u16,
    pub month: u8,
    pub day: u8,
    pub hour: u8,
    pub minute: u8,
    pub second: u8,
}

pub open spec fn is_leap_year(y: int) -> bool {
    (y % 4 == 0 && y % 100 != 0) || y % 400 == 0
}

pub open spec fn year_length(y: int) -> int {
    if is_leap_year(y) {
        366
    } else {
        365
    }
}

pub open spec fn month_length(y: int, m: int) -> int {
    if m == 2 {
        if is_leap_year(y) {
            29
        } else {
            28
        }
    } else if m == 4 || m == 6 || m == 9 || m == 11 {
        30
    } else {
        31
    }
}

/// Days from 0001-01-01 to the first day of year `y`.
pub open spec fn days_before_year(y: int) -> int
    decreases y,
{
    if y <= 1 {
        0
    } else {
        days_before_year(y - 1) + year_length(y - 1)
    }
}

/// Days from the first of January of year `y` to the first day of month `m`.
pub open spec fn days_before_month(y: int, m: int) -> int
    decreases m,
{
    if m <= 1 {
        0
    } else {
        days_before_month(y, m - 1) + month_length(y, m - 1)
    }
}

/// Days from 0001-01-01 to the day of `t`.
pub open spec fn day_number(t: Timestamp) -> int {
    days_before_year(t.year as int) + days_before_month(t.year as int, t.month as int) + t.day - 1
}

/// Seconds from 0001-01-01T00:00:00 to `t`.
pub open spec fn instant(t: Timestamp) -> int {
    day_number(t) * 86400 + t.hour * 3600 + t.minute * 60 + t.second
}

/// Seconds from `from` to `to`; negative when `to` comes first.
pub open spec fn seconds_between(from: Timestamp, to: Timestamp) -> int {
    instant(to) - instant(from)
}

/// Integer division rounded toward zero.
pub open spec fn div_toward_zero(a: int, b: int) -> int {
    if a >= 0 {
        a / b
    } else {
        -((-a) / b)
    }
}

impl Timestamp {
    pub open spec fn wf(&self) -> bool {
        &&& 1 <= self.year <= 9999
        &&& 1 <= self.month <= 12
        &&& 1 <= self.day <= month_length(self.year as int, self.month as int)
        &&& self.hour < 24
        &&& self.minute < 60
        &&& self.second < 60
    }
}

proof fn lemma_days_before_year_bounds(y: int)
    requires
        y >= 1,
    ensures
        365 * (y - 1) <= days_before_year(y) <= 366 * (y - 1),
    decreases y,
{
    if y > 1 {
        lemma_days_before_year_bounds(y - 1);
    }
}

proof fn lemma_days_before_month_bounds(y: int, m: int)
    requires
        1 <= m <= 13,
    ensures
        0 <= days_before_month(y, m) <= 31 * (m - 1),
    decreases m,
{
    if m > 1 {
        lemma_days_before_month_bounds(y, m - 1);
    }
}

/// Bounds on `instant` that keep the arithmetic below within `i64`.
pub proof fn lemma_instant_bounds(t: Timestamp)
    requires
        t.wf(),
    ensures
        0 <= instant(t) < 10000 * 366 * 86400,
{
    lemma_days_before_year_bounds(t.year as int);
    lemma_days_before_month_bounds(t.year as int, t.month as int);
    assert(0 <= day_number(t) < 10000 * 366);
    assert(0 <= day_number(t) * 86400 < 10000 * 366 * 86400 - 86400) by (nonlinear_arith)
        requires
            0 <= day_number(t) < 10000 * 366 - 1,
    ;
}

pub fn is_leap(y: u16) -> (r: bool)
    ensures
        r == is_leap_year(y as int),
{
    (y % 4 == 0 && y % 100 != 0) || y % 400 == 0
}

/// Number of days in month `m` of year `y`.
pub fn days_in_month(y: u16, m: u8) -> (r: u8)
    ensures
        r as int == month_length(y as int, m as int),
{
    if m == 2 {
        if is_leap(y) {
            29
        } else {
            28
        }
    } else if m == 4 || m == 6 || m == 9 || m == 11 {
        30
    } else {
        31
    }
}

impl Timestamp {
    /// Whether the fields name a real moment (year 1 to 9999).
    pub fn is_valid(&self) -> (r: bool)
        ensures
            r == self.wf(),
    {
        1 <= self.year && self.year <= 9999 && 1 <= self.month && self.month <= 12 && 1 <= self.day
            && self.day <= days_in_month(self.year, self.month) && self.hour < 24 && self.minute < 60
            && self.second < 60
    }

    /// Days from 0001-01-01 to this day.
    pub fn day_number(&self) -> (r: i64)
        requires
            self.wf(),
        ensures
            r == day_number(*self),
    {
        proof {
            lemma_days_before_year_bounds(self.year as int);
            lemma_days_before_month_bounds(self.year as int, self.month as int);
        }
        let mut days: i64 = 0;
        let mut y: u16 = 1;
        while y < self.year
            invariant
                1 <= y <= self.year <= 9999,
                days == days_before_year(y as int),
                self.wf(),
            decreases self.year - y,
        {
            proof {
                lemma_days_before_year_bounds(y as int);
            }
            if is_leap(y) {
                days = days + 366;
            } else {
                days = days + 365;
            }
            y = y + 1;
        }
        let mut m: u8 = 1;
        while m < self.month
            invariant
                1 <= m <= self.month <= 12,
                days == days_before_year(self.year as int) + days_before_month(
                    self.year as int,
                    m as int,
                ),
                days_before_year(self.year as int) <= 366 * 9999,
            decreases self.month - m,
        {
            proof {
                lemma_days_before_month_bounds(self.year as int, m as int);
            }
            days = days + days_in_month(self.year, m) as i64;
            m = m + 1;
        }
        days + self.day as i64 - 1
    }

    /// Seconds from 0001-01-01T00:00:00 to this moment.
    pub fn instant(&self) -> (r: i64)
        requires
            self.wf(),
        ensures
            r == instant(*self),
    {
        proof {
            lemma_instant_bounds(*self);
        }
        let d = self.day_number();
        d * SECONDS_PER_DAY + self.hour as i64 * 3600 + self.minute as i64 * 60 + self.second as i64
    }
}

/// The signed difference from `from` to `to`, as whole days and the seconds
/// left over; both parts carry the sign of the difference.
pub fn time_diff(from: &Timestamp, to: &Timestamp) -> (r: (i64, i64))
    requires
        from.wf(),
        to.wf(),
    ensures
        r.0 * 86400 + r.1 == seconds_between(*from, *to),
        r.0 == div_toward_zero(seconds_between(*from, *to), 86400),
        -86400 < r.1 < 86400,
        seconds_between(*from, *to) >= 0 ==> r.1 >= 0,
        seconds_between(*from, *to) < 0 ==> r.1 <= 0,
{
    proof {
        lemma_instant_bounds(*from);
        lemma_instant_bounds(*to);
    }
    let total = to.instant() - from.instant();
    if total >= 0 {
        (total / SECONDS_PER_DAY, total % SECONDS_PER_DAY)
    } else {
        let magnitude = -total;
        (-(magnitude / SECONDS_PER_DAY), -(magnitude % SECONDS_PER_DAY))
    }
}

} // verus!
