//! Application configuration: break schedules, attention reminders, idle
//! threshold and application exclusion rules.

use vstd::prelude::*;
use vstd::string::*;

use crate::models::{AttentionId, BreakId, PauseReason};
use crate::time::{ShortTimes, TimeRange, Weekday};

verus! {

/// Settings shared by mini and long breaks.
#[derive(Debug, Clone)]
pub struct BaseBreakSettings {
    pub id: BreakId,
    pub enabled: bool,
    pub duration_s: u32,
    pub postponed_s: u32,
    pub max_postpone_count: u8,
}

/// Mini break settings: the base settings and the interval between breaks.
#[derive(Debug, Clone)]
pub struct MiniBreakSettings {
    pub base: BaseBreakSettings,
    pub interval_s: u32,
}

/// Long break settings: the base settings and how many mini breaks come first.
#[derive(Debug, Clone)]
pub struct LongBreakSettings {
    pub base: BaseBreakSettings,
    pub after_mini_breaks: u8,
}

/// A break schedule that applies on some days during a daily time range.
#[derive(Debug, Clone)]
pub struct ScheduleSettings {
    pub name: String,
    pub enabled: bool,
    pub time_range: TimeRange,
    pub days_of_week: Vec<Weekday>,
    pub notification_before_s: u32,
    pub mini_breaks: MiniBreakSettings,
    pub long_breaks: LongBreakSettings,
}

impl ScheduleSettings {
    /// Whether a notification precedes each break.
    pub open spec fn spec_has_notification(&self) -> bool {
        self.notification_before_s > 0
    }

    /// Returns whether a notification precedes each break.
    pub fn has_notification(&self) -> (r: bool)
        ensures
            r == self.spec_has_notification(),
    {
        self.notification_before_s > 0
    }
}

/// An attention reminder shown at fixed times of day on some weekdays.
#[derive(Debug, Clone)]
pub struct AttentionSettings {
    pub id: AttentionId,
    pub name: String,
    pub enabled: bool,
    pub times: ShortTimes,
    pub days_of_week: Vec<Weekday>,
}

impl AttentionSettings {
    /// Every configured time is a time of day (below 24 hours).
    pub open spec fn wf(&self) -> bool {
        forall|i: int| 0 <= i < self.times.times@.len() ==> #[trigger] self.times.times@[i] < 86400
    }
}

/// What an application exclusion rule does while its applications run.
#[derive(Debug, Clone, Copy, PartialEq, Eq, Structural)]
pub enum ExclusionRule {
    /// Pause while a matching application runs.
    Pause,
    /// Pause while no matching application runs.
    Resume,
}

/// An application exclusion rule.
#[derive(Debug, Clone)]
pub struct AppExclusion {
    pub active: bool,
    pub rule: ExclusionRule,
    pub patterns: Vec<String>,
}

impl AppExclusion {
    /// An active rule that pauses while one of `patterns` runs.
    pub fn pause(patterns: Vec<String>) -> (r: AppExclusion)
        ensures
            r.active,
            r.rule == ExclusionRule::Pause,
            r.patterns@ == patterns@,
    {
        AppExclusion { active: true, rule: ExclusionRule::Pause, patterns }
    }

    /// An active rule that pauses while none of `patterns` runs.
    pub fn resume(patterns: Vec<String>) -> (r: AppExclusion)
        ensures
            r.active,
            r.rule == ExclusionRule::Resume,
            r.patterns@ == patterns@,
    {
        AppExclusion { active: true, rule: ExclusionRule::Resume, patterns }
    }

    /// Whether some pattern of the rule equals `name`.
    pub open spec fn spec_matches(&self, name: Seq<char>) -> bool {
        exists|i: int| 0 <= i < self.patterns@.len() && self.patterns@[i]@ == name
    }

    /// Returns whether some pattern of the rule equals `name`.
    pub fn matches(&self, name: &str) -> (r: bool)
        ensures
            r == self.spec_matches(name@),
    {
        let wanted = String::from_str(name);
        let mut i: usize = 0;
        while i < self.patterns.len()
            invariant
                i <= self.patterns.len(),
                wanted@ == name@,
                forall|j: int| 0 <= j < i ==> self.patterns@[j]@ != name@,
            decreases self.patterns.len() - i,
        {
            if self.patterns[i] == wanted {
                return true;
            }
            i += 1;
        }
        false
    }
}

/// Advanced scheduling settings.
#[derive(Debug, Clone)]
pub struct AdvancedSettings {
    /// Pause reasons that reset the mini break counter, so that the next break
    /// cycle starts over.
    pub reset_mini_break_counter_on_pause_reasons: Vec<PauseReason>,
}

impl AdvancedSettings {
    /// Returns whether a pause for `reason` resets the mini break counter.
    pub fn resets_counter_on(&self, reason: PauseReason) -> (r: bool)
        ensures
            r == self.reset_mini_break_counter_on_pause_reasons@.contains(reason),
    {
        let v = &self.reset_mini_break_counter_on_pause_reasons;
        let mut i: usize = 0;
        while i < v.len()
            invariant
                i <= v.len(),
                v@ == self.reset_mini_break_counter_on_pause_reasons@,
                forall|j: int| 0 <= j < i ==> v@[j] != reason,
            decreases v.len() - i,
        {
            if v[i] == reason {
                assert(v@[i as int] == reason);
                return true;
            }
            i += 1;
        }
        false
    }
}

/// The application configuration.
#[derive(Debug, Clone)]
pub struct AppConfig {
    pub schedules: Vec<ScheduleSettings>,
    pub attentions: Vec<AttentionSettings>,
    /// Seconds without input after which the user counts as idle.
    pub inactive_s: u32,
    pub app_exclusions: Vec<AppExclusion>,
    pub advanced: AdvancedSettings,
}

impl AppConfig {
    /// Every configured attention time is a time of day (below 24 hours).
    pub open spec fn wf(&self) -> bool {
        forall|i: int| 0 <= i < self.attentions@.len() ==> #[trigger] self.attentions@[i].wf()
    }
}

/// The schedule a new configuration starts with: all day, every day, a 20-second
/// mini break every 20 minutes, a 5-minute long break after 4 mini breaks, up to 2
/// postponements of 5 minutes each, no notification.
pub fn default_schedule(name: String) -> (s: ScheduleSettings)
    ensures
        s.name@ == name@,
        s.enabled,
        s.time_range == (TimeRange { start: 0, end: 0 }),
        s.days_of_week@ == seq![Weekday::Mon, Weekday::Tue, Weekday::Wed, Weekday::Thu, Weekday::Fri, Weekday::Sat, Weekday::Sun],
        s.notification_before_s == 0,
        s.mini_breaks.interval_s == 1200,
        s.mini_breaks.base == (BaseBreakSettings { id: BreakId(1), enabled: true, duration_s: 20, postponed_s: 300, max_postpone_count: 2 }),
        s.long_breaks.after_mini_breaks == 4,
        s.long_breaks.base == (BaseBreakSettings { id: BreakId(2), enabled: true, duration_s: 300, postponed_s: 300, max_postpone_count: 2 }),
{
    ScheduleSettings {
        name,
        enabled: true,
        time_range: TimeRange { start: 0, end: 0 },
        days_of_week: vec![Weekday::Mon, Weekday::Tue, Weekday::Wed, Weekday::Thu, Weekday::Fri, Weekday::Sat, Weekday::Sun],
        notification_before_s: 0,
        mini_breaks: MiniBreakSettings {
            base: BaseBreakSettings { id: BreakId(1), enabled: true, duration_s: 20, postponed_s: 300, max_postpone_count: 2 },
            interval_s: 1200,
        },
        long_breaks: LongBreakSettings {
            base: BaseBreakSettings { id: BreakId(2), enabled: true, duration_s: 300, postponed_s: 300, max_postpone_count: 2 },
            after_mini_breaks: 4,
        },
    }
}

impl Default for AppConfig {
    /// One default schedule, no attention reminders, an idle threshold of five
    /// minutes and no exclusion rules.
    fn default() -> (c: AppConfig)
        ensures
            c.schedules@.len() == 1,
            c.schedules@[0].enabled,
            c.schedules@[0].mini_breaks.interval_s == 1200,
            c.schedules@[0].notification_before_s == 0,
            c.attentions@.len() == 0,
            c.inactive_s == 300,
            c.app_exclusions@.len() == 0,
            c.advanced.reset_mini_break_counter_on_pause_reasons@.len() == 0,
            c.wf(),
    {
        AppConfig {
            schedules: vec![default_schedule(String::from_str("Default Schedule"))],
            attentions: Vec::new(),
            inactive_s: 300,
            app_exclusions: Vec::new(),
            advanced: AdvancedSettings { reset_mini_break_counter_on_pause_reasons: Vec::new() },
        }
    }
}

} // verus!
