//! Building blocks for scheduler scenarios: a configuration builder with test
//! defaults, time range construction and a tolerance check for durations.

use vstd::prelude::*;
use vstd::string::*;

use crate::config::{default_schedule, AdvancedSettings, AppConfig, BaseBreakSettings, LongBreakSettings, MiniBreakSettings, ScheduleSettings};
use crate::models::BreakId;
use crate::time::{TimeRange, Weekday};

verus! {

/// Builder of configurations with one schedule to adjust.
pub struct TestConfigBuilder {
    pub config: AppConfig,
}

/// The first schedule of the builder's configuration, the one the setters adjust.
pub open spec fn first_schedule(b: TestConfigBuilder) -> ScheduleSettings {
    b.config.schedules@[0]
}

impl TestConfigBuilder {
    /// The builder has a first schedule to adjust.
    pub open spec fn wf(self) -> bool {
        self.config.schedules@.len() > 0
    }

    /// A builder holding one test schedule ("Test Schedule", the default schedule
    /// settings) and nothing else.
    pub fn new() -> (b: TestConfigBuilder)
        ensures
            b.wf(),
            b.config.schedules@.len() == 1,
            first_schedule(b).name@ == "Test Schedule"@,
            first_schedule(b).enabled,
            first_schedule(b).mini_breaks.interval_s == 1200,
            first_schedule(b).mini_breaks.base.duration_s == 20,
            first_schedule(b).long_breaks.after_mini_breaks == 4,
            first_schedule(b).notification_before_s == 0,
            first_schedule(b).mini_breaks.base == (BaseBreakSettings { id: BreakId(1), enabled: true, duration_s: 20, postponed_s: 300, max_postpone_count: 2 }),
            first_schedule(b).long_breaks.base == (BaseBreakSettings { id: BreakId(2), enabled: true, duration_s: 300, postponed_s: 300, max_postpone_count: 2 }),
            first_schedule(b).time_range == (TimeRange { start: 0, end: 0 }),
            first_schedule(b).days_of_week@ == seq![Weekday::Mon, Weekday::Tue, Weekday::Wed, Weekday::Thu, Weekday::Fri, Weekday::Sat, Weekday::Sun],
            b.config.inactive_s == 300,
            b.config.app_exclusions@.len() == 0,
            b.config.advanced.reset_mini_break_counter_on_pause_reasons@.len() == 0,
            b.config.attentions@.len() == 0,
    {
        TestConfigBuilder {
            config: AppConfig {
                schedules: vec![default_schedule(String::from_str("Test Schedule"))],
                attentions: Vec::new(),
                inactive_s: 300,
                app_exclusions: Vec::new(),
                advanced: AdvancedSettings { reset_mini_break_counter_on_pause_reasons: Vec::new() },
            },
        }
    }

    /// Sets the mini break interval (seconds).
    pub fn mini_break_interval_s(self, seconds: u32) -> (b: TestConfigBuilder)
        requires
            self.wf(),
        ensures
            b.wf(),
            b.config.schedules@ == self.config.schedules@.update(0, { let s = first_schedule(self); (ScheduleSettings { mini_breaks: MiniBreakSettings { interval_s: seconds, ..s.mini_breaks }, ..s }) }),
            b.config.attentions@ == self.config.attentions@,
            b.config.inactive_s == self.config.inactive_s,
    {
        let ghost old_schedules = self.config.schedules@;
        let mut b = self;
        let mut s = b.config.schedules.remove(0);
        s.mini_breaks.interval_s = seconds;
        b.config.schedules.insert(0, s);
        assert(b.config.schedules@ =~= old_schedules.update(0, s));
        b
    }

    /// Sets the mini break duration (seconds).
    pub fn mini_break_duration_s(self, seconds: u32) -> (b: TestConfigBuilder)
        requires
            self.wf(),
        ensures
            b.wf(),
            b.config.schedules@ == self.config.schedules@.update(0, { let s = first_schedule(self); (ScheduleSettings { mini_breaks: MiniBreakSettings { base: BaseBreakSettings { duration_s: seconds, ..s.mini_breaks.base }, ..s.mini_breaks }, ..s }) }),
            b.config.attentions@ == self.config.attentions@,
            b.config.inactive_s == self.config.inactive_s,
    {
        let ghost old_schedules = self.config.schedules@;
        let mut b = self;
        let mut s = b.config.schedules.remove(0);
        s.mini_breaks.base.duration_s = seconds;
        b.config.schedules.insert(0, s);
        assert(b.config.schedules@ =~= old_schedules.update(0, s));
        b
    }

    /// Sets the long break duration (seconds).
    pub fn long_break_duration_s(self, seconds: u32) -> (b: TestConfigBuilder)
        requires
            self.wf(),
        ensures
            b.wf(),
            b.config.schedules@ == self.config.schedules@.update(0, { let s = first_schedule(self); (ScheduleSettings { long_breaks: LongBreakSettings { base: BaseBreakSettings { duration_s: seconds, ..s.long_breaks.base }, ..s.long_breaks }, ..s }) }),
            b.config.attentions@ == self.config.attentions@,
            b.config.inactive_s == self.config.inactive_s,
    {
        let ghost old_schedules = self.config.schedules@;
        let mut b = self;
        let mut s = b.config.schedules.remove(0);
        s.long_breaks.base.duration_s = seconds;
        b.config.schedules.insert(0, s);
        assert(b.config.schedules@ =~= old_schedules.update(0, s));
        b
    }

    /// Sets how many mini breaks come before a long break.
    pub fn long_break_after_mini_breaks(self, count: u8) -> (b: TestConfigBuilder)
        requires
            self.wf(),
        ensures
            b.wf(),
            b.config.schedules@ == self.config.schedules@.update(0, { let s = first_schedule(self); (ScheduleSettings { long_breaks: LongBreakSettings { after_mini_breaks: count, ..s.long_breaks }, ..s }) }),
            b.config.attentions@ == self.config.attentions@,
            b.config.inactive_s == self.config.inactive_s,
    {
        let ghost old_schedules = self.config.schedules@;
        let mut b = self;
        let mut s = b.config.schedules.remove(0);
        s.long_breaks.after_mini_breaks = count;
        b.config.schedules.insert(0, s);
        assert(b.config.schedules@ =~= old_schedules.update(0, s));
        b
    }

    /// Sets the notification lead time (seconds).
    pub fn notification_before_s(self, seconds: u32) -> (b: TestConfigBuilder)
        requires
            self.wf(),
        ensures
            b.wf(),
            b.config.schedules@ == self.config.schedules@.update(0, { let s = first_schedule(self); (ScheduleSettings { notification_before_s: seconds, ..s }) }),
            b.config.attentions@ == self.config.attentions@,
            b.config.inactive_s == self.config.inactive_s,
    {
        let ghost old_schedules = self.config.schedules@;
        let mut b = self;
        let mut s = b.config.schedules.remove(0);
        s.notification_before_s = seconds;
        b.config.schedules.insert(0, s);
        assert(b.config.schedules@ =~= old_schedules.update(0, s));
        b
    }

    /// Sets the daily time range of the schedule.
    pub fn time_range(self, range: TimeRange) -> (b: TestConfigBuilder)
        requires
            self.wf(),
        ensures
            b.wf(),
            b.config.schedules@ == self.config.schedules@.update(0, { let s = first_schedule(self); (ScheduleSettings { time_range: range, ..s }) }),
            b.config.attentions@ == self.config.attentions@,
            b.config.inactive_s == self.config.inactive_s,
    {
        let ghost old_schedules = self.config.schedules@;
        let mut b = self;
        let mut s = b.config.schedules.remove(0);
        s.time_range = range;
        b.config.schedules.insert(0, s);
        assert(b.config.schedules@ =~= old_schedules.update(0, s));
        b
    }

    /// Enables or disables mini breaks.
    pub fn mini_breaks_enabled(self, enabled: bool) -> (b: TestConfigBuilder)
        requires
            self.wf(),
        ensures
            b.wf(),
            b.config.schedules@ == self.config.schedules@.update(0, { let s = first_schedule(self); (ScheduleSettings { mini_breaks: MiniBreakSettings { base: BaseBreakSettings { enabled: enabled, ..s.mini_breaks.base }, ..s.mini_breaks }, ..s }) }),
            b.config.attentions@ == self.config.attentions@,
            b.config.inactive_s == self.config.inactive_s,
    {
        let ghost old_schedules = self.config.schedules@;
        let mut b = self;
        let mut s = b.config.schedules.remove(0);
        s.mini_breaks.base.enabled = enabled;
        b.config.schedules.insert(0, s);
        assert(b.config.schedules@ =~= old_schedules.update(0, s));
        b
    }

    /// Enables or disables long breaks.
    pub fn long_breaks_enabled(self, enabled: bool) -> (b: TestConfigBuilder)
        requires
            self.wf(),
        ensures
            b.wf(),
            b.config.schedules@ == self.config.schedules@.update(0, { let s = first_schedule(self); (ScheduleSettings { long_breaks: LongBreakSettings { base: BaseBreakSettings { enabled: enabled, ..s.long_breaks.base }, ..s.long_breaks }, ..s }) }),
            b.config.attentions@ == self.config.attentions@,
            b.config.inactive_s == self.config.inactive_s,
    {
        let ghost old_schedules = self.config.schedules@;
        let mut b = self;
        let mut s = b.config.schedules.remove(0);
        s.long_breaks.base.enabled = enabled;
        b.config.schedules.insert(0, s);
        assert(b.config.schedules@ =~= old_schedules.update(0, s));
        b
    }

    /// Enables or disables the whole schedule.
    pub fn schedule_enabled(self, enabled: bool) -> (b: TestConfigBuilder)
        requires
            self.wf(),
        ensures
            b.wf(),
            b.config.schedules@ == self.config.schedules@.update(0, { let s = first_schedule(self); (ScheduleSettings { enabled: enabled, ..s }) }),
            b.config.attentions@ == self.config.attentions@,
            b.config.inactive_s == self.config.inactive_s,
    {
        let ghost old_schedules = self.config.schedules@;
        let mut b = self;
        let mut s = b.config.schedules.remove(0);
        s.enabled = enabled;
        b.config.schedules.insert(0, s);
        assert(b.config.schedules@ =~= old_schedules.update(0, s));
        b
    }

    /// Sets the postpone limit and duration of both break kinds.
    pub fn postpone_settings(self, max_count: u8, postponed_s: u32) -> (b: TestConfigBuilder)
        requires
            self.wf(),
        ensures
            b.wf(),
            b.config.schedules@ == self.config.schedules@.update(0, { let s = first_schedule(self); (ScheduleSettings { mini_breaks: MiniBreakSettings { base: BaseBreakSettings { max_postpone_count: max_count, postponed_s: postponed_s, ..s.mini_breaks.base }, ..s.mini_breaks }, long_breaks: LongBreakSettings { base: BaseBreakSettings { max_postpone_count: max_count, postponed_s: postponed_s, ..s.long_breaks.base }, ..s.long_breaks }, ..s }) }),
            b.config.attentions@ == self.config.attentions@,
            b.config.inactive_s == self.config.inactive_s,
    {
        let ghost old_schedules = self.config.schedules@;
        let mut b = self;
        let mut s = b.config.schedules.remove(0);
        s.mini_breaks.base.max_postpone_count = max_count;
        s.mini_breaks.base.postponed_s = postponed_s;
        s.long_breaks.base.max_postpone_count = max_count;
        s.long_breaks.base.postponed_s = postponed_s;
        b.config.schedules.insert(0, s);
        assert(b.config.schedules@ =~= old_schedules.update(0, s));
        b
    }

    /// Adds another schedule after the existing ones.
    pub fn add_schedule(self, schedule: ScheduleSettings) -> (b: TestConfigBuilder)
        requires
            self.wf(),
        ensures
            b.wf(),
            b.config.schedules@ == self.config.schedules@.push(schedule),
            b.config.attentions@ == self.config.attentions@,
            b.config.inactive_s == self.config.inactive_s,
    {
        let mut b = self;
        b.config.schedules.push(schedule);
        b
    }

    /// Sets the weekdays of the schedule.
    pub fn days_of_week(self, days: Vec<Weekday>) -> (b: TestConfigBuilder)
        requires
            self.wf(),
        ensures
            b.wf(),
            b.config.schedules@ == self.config.schedules@.update(0, ScheduleSettings { days_of_week: days, ..first_schedule(self) }),
            b.config.attentions@ == self.config.attentions@,
            b.config.inactive_s == self.config.inactive_s,
    {
        let ghost old_schedules = self.config.schedules@;
        let mut b = self;
        let mut s = b.config.schedules.remove(0);
        s.days_of_week = days;
        b.config.schedules.insert(0, s);
        assert(b.config.schedules@ =~= old_schedules.update(0, s));
        b
    }

    /// The configuration built.
    pub fn build(self) -> (c: AppConfig)
        ensures
            c == self.config,
    {
        self.config
    }
}

impl Default for TestConfigBuilder {
    /// The builder `new` gives.
    fn default() -> (b: TestConfigBuilder)
        ensures
            b.wf(),
            b.config.schedules@.len() == 1,
            first_schedule(b).name@ == "Test Schedule"@,
            first_schedule(b).enabled,
            first_schedule(b).mini_breaks.interval_s == 1200,
            first_schedule(b).mini_breaks.base.duration_s == 20,
            first_schedule(b).long_breaks.after_mini_breaks == 4,
            first_schedule(b).notification_before_s == 0,
            first_schedule(b).mini_breaks.base == (BaseBreakSettings { id: BreakId(1), enabled: true, duration_s: 20, postponed_s: 300, max_postpone_count: 2 }),
            first_schedule(b).long_breaks.base == (BaseBreakSettings { id: BreakId(2), enabled: true, duration_s: 300, postponed_s: 300, max_postpone_count: 2 }),
            first_schedule(b).time_range == (TimeRange { start: 0, end: 0 }),
            first_schedule(b).days_of_week@ == seq![Weekday::Mon, Weekday::Tue, Weekday::Wed, Weekday::Thu, Weekday::Fri, Weekday::Sat, Weekday::Sun],
            b.config.inactive_s == 300,
            b.config.app_exclusions@.len() == 0,
            b.config.advanced.reset_mini_break_counter_on_pause_reasons@.len() == 0,
            b.config.attentions@.len() == 0,
    {
        TestConfigBuilder::new()
    }
}

/// A daily time range from `start_hour:start_min` to `end_hour:end_min`.
pub fn time_range(start_hour: u32, start_min: u32, end_hour: u32, end_min: u32) -> (r: TimeRange)
    requires
        start_hour < 24,
        start_min < 60,
        end_hour < 24,
        end_min < 60,
    ensures
        r == (TimeRange { start: (start_hour * 3600 + start_min * 60) as u32, end: (end_hour * 3600 + end_min * 60) as u32 }),
{
    TimeRange { start: start_hour * 3600 + start_min * 60, end: end_hour * 3600 + end_min * 60 }
}

/// All seven weekdays, Monday first.
pub fn all_weekdays() -> (v: Vec<Weekday>)
    ensures
        v@ == seq![Weekday::Mon, Weekday::Tue, Weekday::Wed, Weekday::Thu, Weekday::Fri, Weekday::Sat, Weekday::Sun],
{
    vec![Weekday::Mon, Weekday::Tue, Weekday::Wed, Weekday::Thu, Weekday::Fri, Weekday::Sat, Weekday::Sun]
}

/// Monday to Friday.
pub fn workdays() -> (v: Vec<Weekday>)
    ensures
        v@ == seq![Weekday::Mon, Weekday::Tue, Weekday::Wed, Weekday::Thu, Weekday::Fri],
{
    vec![Weekday::Mon, Weekday::Tue, Weekday::Wed, Weekday::Thu, Weekday::Fri]
}

/// Saturday and Sunday.
pub fn weekend_days() -> (v: Vec<Weekday>)
    ensures
        v@ == seq![Weekday::Sat, Weekday::Sun],
{
    vec![Weekday::Sat, Weekday::Sun]
}

/// The time of day `hour:min:sec`, in seconds since midnight.
pub fn naive_time(hour: u32, min: u32, sec: u32) -> (t: u32)
    requires
        hour < 24,
        min < 60,
        sec < 60,
    ensures
        t == hour * 3600 + min * 60 + sec,
{
    hour * 3600 + min * 60 + sec
}

/// A schedule named "Minimal Schedule" over `time_range` and `days`, with a
/// 20-second mini break every `mini_interval_s` seconds (up to 2 postponements of
/// 5 minutes), no notification and long breaks disabled.
pub fn minimal_schedule(time_range: TimeRange, days: Vec<Weekday>, mini_interval_s: u32) -> (s: ScheduleSettings)
    ensures
        s.name@ == "Minimal Schedule"@,
        s.enabled,
        s.time_range == time_range,
        s.days_of_week@ == days@,
        s.notification_before_s == 0,
        s.mini_breaks.interval_s == mini_interval_s,
        s.mini_breaks.base.enabled,
        s.mini_breaks.base.duration_s == 20,
        s.mini_breaks.base.max_postpone_count == 2,
        s.mini_breaks.base.postponed_s == 300,
        !s.long_breaks.base.enabled,
        s.long_breaks.after_mini_breaks == 0,
{
    let d = default_schedule(String::from_str("Minimal Schedule"));
    ScheduleSettings {
        name: d.name,
        enabled: true,
        time_range,
        days_of_week: days,
        notification_before_s: 0,
        mini_breaks: MiniBreakSettings { base: d.mini_breaks.base, interval_s: mini_interval_s },
        long_breaks: LongBreakSettings {
            base: BaseBreakSettings { enabled: false, ..d.long_breaks.base },
            after_mini_breaks: 0,
        },
    }
}

/// The time range covering the whole day.
pub fn full_time_range() -> (r: TimeRange)
    ensures
        r == (TimeRange { start: 0, end: 0 }),
{
    TimeRange { start: 0, end: 0 }
}

/// Checks that a duration in seconds is within `tolerance_seconds` of the expected
/// one; callers assert the result.
pub fn assert_duration_near(actual_seconds: i64, expected_seconds: i64, tolerance_seconds: i64) -> (ok: bool)
    requires
        i64::MIN < actual_seconds - expected_seconds <= i64::MAX,
    ensures
        ok == ((if actual_seconds >= expected_seconds { actual_seconds - expected_seconds } else { expected_seconds - actual_seconds }) <= tolerance_seconds),
{
    let diff = actual_seconds - expected_seconds;
    let diff = if diff < 0 { -diff } else { diff };
    diff <= tolerance_seconds
}

} // verus!
