//! Selection of the schedule that applies at a given local time.

use vstd::prelude::*;

use crate::config::{AppConfig, ScheduleSettings};
use crate::time::{days_contain, Weekday};

verus! {

/// Whether a schedule applies at time of day `t` on weekday `d`: it is enabled,
/// lists the weekday, and its time range holds the time.
pub open spec fn schedule_applies(s: ScheduleSettings, t: int, d: Weekday) -> bool {
    &&& s.enabled
    &&& s.days_of_week@.contains(d)
    &&& s.time_range.spec_contains(t)
}

/// `i` is the first schedule of `ss` that applies at `t` on `d`.
pub open spec fn is_first_applying(ss: Seq<ScheduleSettings>, t: int, d: Weekday, i: int) -> bool {
    &&& 0 <= i < ss.len()
    &&& schedule_applies(ss[i], t, d)
    &&& forall|j: int| 0 <= j < i ==> !schedule_applies(#[trigger] ss[j], t, d)
}

/// No schedule of `ss` applies at `t` on `d`.
pub open spec fn none_applies(ss: Seq<ScheduleSettings>, t: int, d: Weekday) -> bool {
    forall|j: int| 0 <= j < ss.len() ==> !schedule_applies(#[trigger] ss[j], t, d)
}

/// The index of the first schedule of `ss` that applies at `t` on `d`, if any.
pub open spec fn spec_active_index(ss: Seq<ScheduleSettings>, t: int, d: Weekday) -> Option<int> {
    if exists|i: int| is_first_applying(ss, t, d, i) {
        Some(choose|i: int| is_first_applying(ss, t, d, i))
    } else {
        None
    }
}

/// The first applying index is unique, and exists unless no schedule applies.
pub proof fn lemma_active_index(ss: Seq<ScheduleSettings>, t: int, d: Weekday)
    ensures
        spec_active_index(ss, t, d) matches Some(i) ==> is_first_applying(ss, t, d, i),
        spec_active_index(ss, t, d) is None <==> none_applies(ss, t, d),
        forall|i: int| #[trigger] is_first_applying(ss, t, d, i) ==> spec_active_index(ss, t, d) == Some(i),
{
    assert forall|i: int, k: int| is_first_applying(ss, t, d, i) && is_first_applying(ss, t, d, k) implies i == k by {
        if i < k {
            assert(!schedule_applies(ss[i], t, d));
        } else if k < i {
            assert(!schedule_applies(ss[k], t, d));
        }
    }
    if !none_applies(ss, t, d) {
        let w = choose|j: int| 0 <= j < ss.len() && schedule_applies(#[trigger] ss[j], t, d);
        lemma_first_exists(ss, t, d, w);
    }
}

proof fn lemma_first_exists(ss: Seq<ScheduleSettings>, t: int, d: Weekday, w: int)
    requires
        0 <= w < ss.len(),
        schedule_applies(ss[w], t, d),
    ensures
        exists|i: int| is_first_applying(ss, t, d, i),
    decreases w,
{
    if forall|j: int| 0 <= j < w ==> !schedule_applies(#[trigger] ss[j], t, d) {
        assert(is_first_applying(ss, t, d, w));
    } else {
        let v = choose|j: int| 0 <= j < w && schedule_applies(#[trigger] ss[j], t, d);
        lemma_first_exists(ss, t, d, v);
    }
}

/// Returns the index of the first schedule that applies at time of day `now_time`
/// on weekday `now_day`.
pub fn active_schedule_index(config: &AppConfig, now_time: u32, now_day: Weekday) -> (r: Option<usize>)
    ensures
        r matches Some(i) ==> spec_active_index(config.schedules@, now_time as int, now_day) == Some(i as int),
        r is None ==> spec_active_index(config.schedules@, now_time as int, now_day) is None,
{
    let ghost ss = config.schedules@;
    proof {
        lemma_active_index(ss, now_time as int, now_day);
    }
    let mut i: usize = 0;
    while i < config.schedules.len()
        invariant
            i <= config.schedules.len(),
            ss == config.schedules@,
            forall|j: int| 0 <= j < i ==> !schedule_applies(#[trigger] ss[j], now_time as int, now_day),
        decreases config.schedules.len() - i,
    {
        let s = &config.schedules[i];
        if s.enabled && days_contain(&s.days_of_week, now_day) && s.time_range.contains(now_time) {
            proof {
                assert(is_first_applying(ss, now_time as int, now_day, i as int));
                lemma_active_index(ss, now_time as int, now_day);
            }
            return Some(i);
        }
        i += 1;
    }
    proof {
        lemma_active_index(ss, now_time as int, now_day);
    }
    None
}

/// Returns the first schedule that applies at time of day `now_time` on weekday `now_day`.
pub fn get_active_schedule(config: &AppConfig, now_time: u32, now_day: Weekday) -> (r: Option<&ScheduleSettings>)
    ensures
        r == (match spec_active_index(config.schedules@, now_time as int, now_day) {
            Some(i) => Some(&config.schedules@[i]),
            None => None,
        }),
{
    match active_schedule_index(config, now_time, now_day) {
        Some(i) => Some(&config.schedules[i]),
        None => None,
    }
}

} // verus!
