//! Instants, half-open intervals, times of day and calendar dates.
//!
//! An instant is kept as signed milliseconds since the Unix epoch, in UTC;
//! rendering it as text happens at the I/O boundary. Intervals are half
//! open: the start belongs to the interval, the end does not.

use vstd::prelude::*;

verus! {

/// Milliseconds in one day.
pub const MILLIS_PER_DAY: i64 = 86400000;

/// An instant in UTC, as milliseconds since the Unix epoch.
#[derive(Clone, Copy, Debug, PartialEq, Eq, Hash, Structural)]
pub struct Timestamp {
    pub millis: i64,
}

impl Timestamp {
    /// The instant `millis` milliseconds after the Unix epoch.
    pub fn new(millis: i64) -> (r: Timestamp)
        ensures
            r == (Timestamp { millis }),
    {
        Timestamp { millis }
    }

    /// The time-of-day component, as milliseconds since the preceding UTC
    /// midnight.
    pub fn time_of_day_millis(&self) -> (r: i64)
        ensures
            r == time_of_day_of(*self),
            0 <= r < MILLIS_PER_DAY,
    {
        let ghost a = self.millis as int;
        let ghost d = MILLIS_PER_DAY as int;
        if self.millis >= 0 {
            let m = (self.millis as u64) % (MILLIS_PER_DAY as u64);
            m as i64
        } else {
            let pos: u64 = (-(self.millis as i128)) as u64;
            let rem: u64 = pos % (MILLIS_PER_DAY as u64);
            proof {
                let q = pos as int / d;
                vstd::arithmetic::div_mod::lemma_fundamental_div_mod(pos as int, d);
                assert(pos as int == d * q + rem);
                assert(a == -(pos as int));
                if rem == 0 {
                    assert(a == (-q) * d + 0) by (nonlinear_arith)
                        requires
                            pos as int == d * q,
                            a == -(pos as int),
                    ;
                    vstd::arithmetic::div_mod::lemma_fundamental_div_mod_converse(a, d, -q, 0);
                } else {
                    assert(a == (-q - 1) * d + (d - rem)) by (nonlinear_arith)
                        requires
                            pos as int == d * q + rem,
                            a == -(pos as int),
                    ;
                    vstd::arithmetic::div_mod::lemma_fundamental_div_mod_converse(
                        a,
                        d,
                        -q - 1,
                        d - rem,
                    );
                }
            }
            if rem == 0 {
                0
            } else {
                MILLIS_PER_DAY - (rem as i64)
            }
        }
    }
}

impl Default for Timestamp {
    /// The Unix epoch itself.
    fn default() -> (r: Timestamp)
        ensures
            r == (Timestamp { millis: 0 }),
    {
        Timestamp { millis: 0 }
    }
}

/// The milliseconds elapsed since the preceding UTC midnight.
pub open spec fn time_of_day_of(t: Timestamp) -> int {
    (t.millis as int) % (MILLIS_PER_DAY as int)
}

/// A half-open interval of instants: `start` is inside, `end` is not.
#[derive(Clone, Copy, Debug, PartialEq, Eq, Hash, Structural)]
pub struct TimeInterval {
    pub start: Timestamp,
    pub end: Timestamp,
}

/// Two half-open intervals intersect exactly when each starts before the
/// other ends.
pub open spec fn intervals_overlap(a: TimeInterval, b: TimeInterval) -> bool {
    a.start.millis < b.end.millis && b.start.millis < a.end.millis
}

/// An instant lies in a half-open interval.
pub open spec fn interval_contains(a: TimeInterval, t: Timestamp) -> bool {
    a.start.millis <= t.millis && t.millis < a.end.millis
}

impl TimeInterval {
    /// The interval from `start` inclusive to `end` exclusive.
    pub fn new(start: Timestamp, end: Timestamp) -> (r: TimeInterval)
        ensures
            r == (TimeInterval { start, end }),
    {
        TimeInterval { start, end }
    }

    /// Whether this interval and `other` share an instant.
    pub fn overlaps(&self, other: &TimeInterval) -> (r: bool)
        ensures
            r == intervals_overlap(*self, *other),
    {
        self.start.millis < other.end.millis && other.start.millis < self.end.millis
    }

    /// Whether `t` lies in the interval.
    pub fn contains(&self, t: &Timestamp) -> (r: bool)
        ensures
            r == interval_contains(*self, *t),
    {
        self.start.millis <= t.millis && t.millis < self.end.millis
    }
}

impl Default for TimeInterval {
    /// The empty interval at the epoch.
    fn default() -> (r: TimeInterval)
        ensures
            r == (TimeInterval { start: Timestamp { millis: 0 }, end: Timestamp { millis: 0 } }),
    {
        TimeInterval { start: Timestamp { millis: 0 }, end: Timestamp { millis: 0 } }
    }
}

/// A half-open range of times of day, in milliseconds since midnight.
#[derive(Clone, Copy, Debug, PartialEq, Eq, Hash, Structural)]
pub struct TimeOfDayInterval {
    pub start: i64,
    pub end: i64,
}

/// A well-formed time-of-day range lies within one day.
pub open spec fn time_of_day_interval_wf(i: TimeOfDayInterval) -> bool {
    0 <= i.start && i.start <= i.end && i.end <= MILLIS_PER_DAY
}

/// A time of day lies in a half-open time-of-day range.
pub open spec fn time_of_day_contains(i: TimeOfDayInterval, tod: int) -> bool {
    i.start <= tod && tod < i.end
}

impl TimeOfDayInterval {
    /// Whether the time of day `tod` lies in the range.
    pub fn contains(&self, tod: i64) -> (r: bool)
        ensures
            r == time_of_day_contains(*self, tod as int),
    {
        self.start <= tod && tod < self.end
    }
}

/// A calendar date.
#[derive(Clone, Copy, Debug, PartialEq, Eq, Hash, PartialOrd, Ord, Structural)]
pub struct Date {
    pub year: i32,
    pub month: u8,
    pub day: u8,
}

/// Whether `year` is a leap year of the proleptic Gregorian calendar.
pub open spec fn is_leap_year(year: int) -> bool {
    (year % 4 == 0 && year % 100 != 0) || year % 400 == 0
}

/// The number of days of `month` in `year`.
pub open spec fn days_in_month(year: int, month: int) -> int {
    if month == 2 {
        if is_leap_year(year) {
            29
        } else {
            28
        }
    } else if month == 4 || month == 6 || month == 9 || month == 11 {
        30
    } else {
        31
    }
}

/// A valid calendar date within the supported range of years.
pub open spec fn date_wf(d: Date) -> bool {
    1 <= d.year <= 9999 && 1 <= d.month <= 12 && 1 <= d.day <= days_in_month(
        d.year as int,
        d.month as int,
    )
}

/// `a` falls strictly earlier in the year than `b`, by month then day.
pub open spec fn earlier_in_year(a: Date, b: Date) -> bool {
    a.month < b.month || (a.month == b.month && a.day < b.day)
}

impl Date {
    /// The date of the given year, month and day, checked for validity.
    pub fn new(year: i32, month: u8, day: u8) -> (r: Option<Date>)
        ensures
            match r {
                Some(d) => d == (Date { year, month, day }) && date_wf(d),
                None => !date_wf(Date { year, month, day }),
            },
    {
        if year < 1 || year > 9999 || month < 1 || month > 12 {
            return None;
        }
        let leap = (year % 4 == 0 && year % 100 != 0) || year % 400 == 0;
        let max_day: u8 = if month == 2 {
            if leap {
                29
            } else {
                28
            }
        } else if month == 4 || month == 6 || month == 9 || month == 11 {
            30
        } else {
            31
        };
        if day < 1 || day > max_day {
            return None;
        }
        Some(Date { year, month, day })
    }
}

/// A date of birth.
#[derive(Clone, Copy, Debug, PartialEq, Eq, Hash, PartialOrd, Ord, Structural)]
pub struct Birthday(pub Date);

/// The age in whole years on `today`: the year difference, less one if the
/// birthday has not yet come round in `today`'s year.
pub open spec fn age_on_spec(birth: Date, today: Date) -> int {
    if earlier_in_year(today, birth) {
        today.year - birth.year - 1
    } else {
        today.year - birth.year
    }
}

impl Birthday {
    /// The underlying date.
    pub fn date(&self) -> (r: Date)
        ensures
            r == self.0,
    {
        self.0
    }

    /// The age in whole years on `today`, local to whatever time zone the
    /// caller derived `today` in.
    pub fn age_on(&self, today: Date) -> (r: i32)
        requires
            date_wf(self.0),
            date_wf(today),
        ensures
            r == age_on_spec(self.0, today),
    {
        let birth = self.0;
        let years = today.year - birth.year;
        if today.month > birth.month {
            years
        } else if today.month == birth.month && today.day >= birth.day {
            years
        } else {
            years - 1
        }
    }
}

} // verus!
