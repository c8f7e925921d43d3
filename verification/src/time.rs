//! Time model of the scheduler: UTC timestamps in whole seconds, local calendar
//! days and seconds since local midnight, weekdays, time ranges and daily times.
//!
//! The conversions between UTC and the local calendar depend on the machine's
//! time zone; they are made by `chrono` behind the trusted items of this module.

use vstd::prelude::*;

use chrono::{Datelike, Timelike};

verus! {

/// Seconds in a day.
pub const SECONDS_PER_DAY: u32 = 86400;

/// Largest number of days from 1970-01-01 (either way) that the library works with.
pub const MAX_ABS_DAY: i64 = 94000000;

/// Largest UTC timestamp (either way, in seconds) that the library works with.
pub const MAX_ABS_TIMESTAMP: i64 = 8000000000000;

/// Largest current time or last break time (either way) that scheduling accepts;
/// the margin up to `MAX_ABS_TIMESTAMP` leaves room for intervals and postponements.
pub const MAX_ABS_SCHEDULING_TIME: i64 = 6000000000000;

/// Days from 0001-01-01 (day 1 in `chrono`'s count) to 1970-01-01.
pub const UNIX_EPOCH_DAYS_FROM_CE: i64 = 719163;

/// A UTC timestamp within the range the library works with.
pub open spec fn valid_timestamp(ts: int) -> bool {
    -MAX_ABS_TIMESTAMP <= ts <= MAX_ABS_TIMESTAMP
}

/// Days of the week.
#[derive(Debug, Clone, Copy, PartialEq, Eq, Structural, Hash)]
pub enum Weekday {
    Mon,
    Tue,
    Wed,
    Thu,
    Fri,
    Sat,
    Sun,
}

/// The weekday with the given number, Monday being 0.
pub open spec fn weekday_from_index(i: int) -> Weekday {
    if i == 0 { Weekday::Mon } else if i == 1 { Weekday::Tue } else if i == 2 { Weekday::Wed }
    else if i == 3 { Weekday::Thu } else if i == 4 { Weekday::Fri } else if i == 5 { Weekday::Sat }
    else { Weekday::Sun }
}

/// The weekday of a calendar day counted from 1970-01-01, which was a Thursday.
pub open spec fn weekday_of_day(day: int) -> Weekday {
    weekday_from_index((day + 3) % 7)
}

/// Returns the weekday of a calendar day counted from 1970-01-01.
pub fn weekday_from_day(day: i64) -> (w: Weekday)
    requires
        -MAX_ABS_DAY - 16 <= day <= MAX_ABS_DAY + 16,
    ensures
        w == weekday_of_day(day as int),
{
    let i = (day + 3) % 7;
    let i = if i < 0 { i + 7 } else { i };
    assert(i == (day + 3) % 7);
    if i == 0 { Weekday::Mon } else if i == 1 { Weekday::Tue } else if i == 2 { Weekday::Wed }
    else if i == 3 { Weekday::Thu } else if i == 4 { Weekday::Fri } else if i == 5 { Weekday::Sat }
    else { Weekday::Sun }
}

/// Returns whether `days` holds `day`.
pub fn days_contain(days: &Vec<Weekday>, day: Weekday) -> (r: bool)
    ensures
        r == days@.contains(day),
{
    let mut i: usize = 0;
    while i < days.len()
        invariant
            i <= days.len(),
            forall|j: int| 0 <= j < i ==> days@[j] != day,
        decreases days.len() - i,
    {
        if days[i] == day {
            return true;
        }
        i += 1;
    }
    false
}

/// A current time or last break time within the range that scheduling accepts.
pub open spec fn schedulable(ts: int) -> bool {
    -MAX_ABS_SCHEDULING_TIME <= ts <= MAX_ABS_SCHEDULING_TIME
}

/// A point in local time: a calendar day counted from 1970-01-01 and the
/// seconds elapsed since that day's local midnight.
#[derive(Debug, Clone, Copy, PartialEq, Eq, Structural)]
pub struct LocalDateTime {
    pub day: i64,
    pub secs: u32,
}

impl LocalDateTime {
    /// The day lies in the supported range and the time of day is below 24 hours.
    pub open spec fn wf(self) -> bool {
        &&& -MAX_ABS_DAY - 1 <= self.day <= MAX_ABS_DAY + 1
        &&& self.secs < SECONDS_PER_DAY
    }

    /// Seconds from 1970-01-01 00:00 of the local calendar.
    pub open spec fn naive_seconds(self) -> int {
        self.day * 86400 + self.secs
    }

    /// The weekday of this point in time.
    pub open spec fn weekday(self) -> Weekday {
        weekday_of_day(self.day as int)
    }
}

/// A daily time range `[start, end)` in seconds since local midnight.
/// A range whose start equals its end covers the whole day.
#[derive(Debug, Clone, Copy, PartialEq, Eq, Structural)]
pub struct TimeRange {
    pub start: u32,
    pub end: u32,
}

impl TimeRange {
    /// Whether the range holds the time of day `t`.
    pub open spec fn spec_contains(self, t: int) -> bool {
        if self.start == self.end {
            true
        } else {
            self.start <= t < self.end
        }
    }

    /// Returns whether the range holds the time of day `t`.
    pub fn contains(&self, t: u32) -> (r: bool)
        ensures
            r == self.spec_contains(t as int),
    {
        if self.start == self.end {
            true
        } else {
            self.start <= t && t < self.end
        }
    }
}

/// A set of times of day (seconds since local midnight).
#[derive(Debug, Clone)]
pub struct ShortTimes {
    pub times: Vec<u32>,
}

/// `x` is the smallest element of `s` that is above `t`.
pub open spec fn is_least_above(s: Seq<u32>, t: int, x: u32) -> bool {
    &&& s.contains(x)
    &&& x > t
    &&& forall|i: int| 0 <= i < s.len() && s[i] > t ==> x <= s[i]
}

impl ShortTimes {
    /// Creates a set from the given times.
    pub fn new(times: Vec<u32>) -> (r: ShortTimes)
        ensures
            r.times@ == times@,
    {
        ShortTimes { times }
    }

    /// Returns whether no time is configured.
    pub fn is_empty(&self) -> (r: bool)
        ensures
            r == (self.times@.len() == 0),
    {
        self.times.len() == 0
    }

    /// Returns the earliest time strictly after `t`, if any.
    pub fn earliest_after(&self, t: u32) -> (r: Option<u32>)
        ensures
            r is None <==> (forall|i: int| 0 <= i < self.times@.len() ==> self.times@[i] <= t),
            r matches Some(x) ==> is_least_above(self.times@, t as int, x),
    {
        let mut best: Option<u32> = None;
        let mut i: usize = 0;
        while i < self.times.len()
            invariant
                i <= self.times.len(),
                best is None <==> (forall|j: int| 0 <= j < i ==> self.times@[j] <= t),
                best matches Some(x) ==> {
                    &&& self.times@.subrange(0, i as int).contains(x)
                    &&& x > t
                    &&& forall|j: int| 0 <= j < i && self.times@[j] > t ==> x <= self.times@[j]
                },
            decreases self.times.len() - i,
        {
            let v = self.times[i];
            if v > t {
                match best {
                    None => {
                        best = Some(v);
                    },
                    Some(b) => {
                        if v < b {
                            best = Some(v);
                        }
                    },
                }
            }
            proof {
                let s1 = self.times@.subrange(0, i as int);
                let s2 = self.times@.subrange(0, i + 1);
                assert(s2 == s1.push(v));
                assert(s2[i as int] == v);
                if let Some(x) = best {
                    if x != v {
                        let k = choose|k: int| 0 <= k < s1.len() && s1[k] == x;
                        assert(s2[k] == x);
                    }
                }
            }
            i += 1;
        }
        proof {
            assert(self.times@.subrange(0, self.times@.len() as int) == self.times@);
        }
        best
    }

    /// Returns the earliest time of the set, if any.
    pub fn first(&self) -> (r: Option<u32>)
        ensures
            r is None <==> self.times@.len() == 0,
            r matches Some(x) ==> {
                &&& self.times@.contains(x)
                &&& forall|i: int| 0 <= i < self.times@.len() ==> x <= self.times@[i]
            },
    {
        if self.times.len() == 0 {
            return None;
        }
        let mut best = self.times[0];
        let mut i: usize = 1;
        while i < self.times.len()
            invariant
                1 <= i <= self.times.len(),
                self.times@.contains(best),
                forall|j: int| 0 <= j < i ==> best <= self.times@[j],
            decreases self.times.len() - i,
        {
            if self.times[i] < best {
                best = self.times[i];
            }
            i += 1;
        }
        Some(best)
    }
}

/// The current time as whole seconds since 1970-01-01 UTC, or `None` when the
/// system clock reads before that instant (or beyond what an `i64` holds).
///
/// Calls `std::time::SystemTime::now` and measures it from `UNIX_EPOCH` with
/// `duration_since`, which fails for a clock before the epoch. Nothing is stated of
/// the result: it is the clock's reading.
#[verifier::external_body]
pub(crate) fn now_utc() -> Option<i64> {
    match std::time::SystemTime::now().duration_since(std::time::UNIX_EPOCH) {
        Ok(d) => i64::try_from(d.as_secs()).ok(),
        Err(_) => None,
    }
}

/// Reads a UTC timestamp in the machine's time zone, as the day counted from
/// 0001-01-01 (day 1, `chrono`'s count) and the seconds since local midnight.
///
/// Calls `chrono::DateTime::with_timezone` with `chrono::Local`, then
/// `Datelike::num_days_from_ce` and `Timelike::num_seconds_from_midnight`. The claim
/// is what `chrono` shows of any time zone offset: it lies strictly between minus one
/// and plus one day, so the local reading is within a day of the UTC one, and the
/// time of day is below 24 hours. Which offset applies is left unsaid: it depends on
/// the machine.
#[verifier::external_body]
fn local_reading_from_ce(ts: i64) -> (r: (i32, u32))
    requires
        valid_timestamp(ts as int),
    ensures
        r.1 < SECONDS_PER_DAY,
        -MAX_ABS_DAY - 1 <= r.0 - UNIX_EPOCH_DAYS_FROM_CE <= MAX_ABS_DAY + 1,
        -86400 < (r.0 - UNIX_EPOCH_DAYS_FROM_CE) * 86400 + r.1 - ts < 86400,
{
    let local = chrono::DateTime::from_timestamp(ts, 0).unwrap().with_timezone(&chrono::Local);
    (local.date_naive().num_days_from_ce(), local.time().num_seconds_from_midnight())
}

/// Converts a UTC timestamp to the local calendar of the machine's time zone.
pub fn local_from_utc(ts: i64) -> (r: LocalDateTime)
    requires
        valid_timestamp(ts as int),
    ensures
        r.wf(),
        -86400 < r.naive_seconds() - ts < 86400,
{
    let (ce_day, secs) = local_reading_from_ce(ts);
    LocalDateTime { day: ce_day as i64 - UNIX_EPOCH_DAYS_FROM_CE, secs }
}

/// Resolves a local reading, given as the day counted from 0001-01-01 and the
/// seconds since midnight, to a UTC timestamp in the machine's time zone.
///
/// Calls `chrono::NaiveDateTime::and_local_timezone` with `chrono::Local`. A local time
/// that does not exist (skipped by a clock change) gives `None`; an ambiguous one gives
/// its earlier reading. The claim is that a resolved timestamp lies within a day of the
/// local reading, as any `chrono` offset does; which readings resolve, and to what,
/// depends on the machine's time zone and is left unsaid.
#[verifier::external_body]
fn utc_from_ce_reading(ce_day: i32, secs: u32) -> (r: Option<i64>)
    requires
        -MAX_ABS_DAY - 16 <= ce_day - UNIX_EPOCH_DAYS_FROM_CE <= MAX_ABS_DAY + 16,
        secs < SECONDS_PER_DAY,
    ensures
        r matches Some(ts) ==> -86400 < ((ce_day - UNIX_EPOCH_DAYS_FROM_CE) * 86400 + secs) - ts < 86400,
{
    let date = chrono::NaiveDate::from_num_days_from_ce_opt(ce_day).unwrap();
    let time = chrono::NaiveTime::from_num_seconds_from_midnight_opt(secs, 0).unwrap();
    match date.and_time(time).and_local_timezone(chrono::Local) {
        chrono::LocalResult::Single(dt) => Some(dt.timestamp()),
        chrono::LocalResult::Ambiguous(dt, _) => Some(dt.timestamp()),
        chrono::LocalResult::None => None,
    }
}

/// Resolves a local calendar day (counted from 1970-01-01) and time of day to a UTC
/// timestamp in the machine's time zone; `None` for a local time skipped by a clock change.
pub fn utc_from_local(day: i64, secs: u32) -> (r: Option<i64>)
    requires
        -MAX_ABS_DAY - 16 <= day <= MAX_ABS_DAY + 16,
        secs < SECONDS_PER_DAY,
    ensures
        r matches Some(ts) ==> -86400 < (day * 86400 + secs) - ts < 86400,
{
    let ce_day = (day + UNIX_EPOCH_DAYS_FROM_CE) as i32;
    utc_from_ce_reading(ce_day, secs)
}

/// The RFC 3339 text of a UTC timestamp, as `chrono` writes it.
pub uninterp spec fn rfc3339_text(ts: int) -> Seq<char>;

/// Formats a UTC timestamp in RFC 3339.
///
/// Calls `chrono::DateTime::<Utc>::to_rfc3339`. The claim is only that the text is a
/// function of the timestamp, named `rfc3339_text`.
#[verifier::external_body]
pub(crate) fn format_rfc3339(ts: i64) -> (s: String)
    requires
        valid_timestamp(ts as int),
    ensures
        s@ == rfc3339_text(ts as int),
{
    chrono::DateTime::from_timestamp(ts, 0).unwrap().to_rfc3339()
}

} // verus!
