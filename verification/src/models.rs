//! Scheduler events, commands, pause reasons and status snapshots.

use vstd::prelude::*;
use vstd::string::*;

use crate::config::AppConfig;
use crate::text::{concat3, decimal, u64_to_decimal};
use crate::time::{format_rfc3339, rfc3339_text, valid_timestamp};

verus! {

/// Identifier of a configured break kind (mini or long).
#[derive(Debug, Clone, Copy, PartialEq, Eq, Structural, Hash)]
pub struct BreakId(pub u64);

/// Identifier of a configured attention reminder.
#[derive(Debug, Clone, Copy, PartialEq, Eq, Structural, Hash)]
pub struct AttentionId(pub u64);

/// Events sent to the frontend for display.
#[derive(Debug, Clone, Copy, PartialEq, Eq, Structural, Hash)]
pub enum SchedulerEvent {
    MiniBreak(BreakId),
    LongBreak(BreakId),
    Attention(AttentionId),
}

/// The text shown for an event: its kind followed by its identifier in parentheses.
pub open spec fn event_text(e: SchedulerEvent) -> Seq<char> {
    match e {
        SchedulerEvent::MiniBreak(id) => "MiniBreak("@ + decimal(id.0 as nat) + ")"@,
        SchedulerEvent::LongBreak(id) => "LongBreak("@ + decimal(id.0 as nat) + ")"@,
        SchedulerEvent::Attention(id) => "Attention("@ + decimal(id.0 as nat) + ")"@,
    }
}

impl SchedulerEvent {
    /// Check if the event is a break (mini or long).
    pub fn is_break(&self) -> (r: bool)
        ensures
            r == (self is MiniBreak || self is LongBreak),
    {
        match self {
            SchedulerEvent::MiniBreak(_) | SchedulerEvent::LongBreak(_) => true,
            SchedulerEvent::Attention(_) => false,
        }
    }

    /// Check if the event is an attention reminder.
    pub fn is_attention(&self) -> (r: bool)
        ensures
            r == (self is Attention),
    {
        matches!(self, SchedulerEvent::Attention(_))
    }

    /// Check if the event is a mini break.
    pub fn is_mini(&self) -> (r: bool)
        ensures
            r == (self is MiniBreak),
    {
        matches!(self, SchedulerEvent::MiniBreak(_))
    }

    /// Check if the event is a long break.
    pub fn is_long(&self) -> (r: bool)
        ensures
            r == (self is LongBreak),
    {
        matches!(self, SchedulerEvent::LongBreak(_))
    }

    /// The display text of the event, such as `MiniBreak(7)`.
    pub fn display_string(&self) -> (s: String)
        ensures
            s@ == event_text(*self),
    {
        let (prefix, raw) = match self {
            SchedulerEvent::MiniBreak(id) => ("MiniBreak(", id.0),
            SchedulerEvent::LongBreak(id) => ("LongBreak(", id.0),
            SchedulerEvent::Attention(id) => ("Attention(", id.0),
        };
        let mut s = String::from_str(prefix);
        let digits = u64_to_decimal(raw);
        s.append(digits.as_str());
        s.append(")");
        s
    }
}

/// Reason for pausing the scheduler.
#[derive(Debug, Clone, Copy, PartialEq, Eq, Structural, Hash)]
pub enum PauseReason {
    UserIdle,
    Dnd,
    Manual,
    AppExclusion,
    /// A manual pause for a set number of minutes.
    TimedManual,
}

/// The name of a pause reason in PascalCase.
pub open spec fn reason_text(r: PauseReason) -> Seq<char> {
    match r {
        PauseReason::UserIdle => "UserIdle"@,
        PauseReason::Dnd => "Dnd"@,
        PauseReason::Manual => "Manual"@,
        PauseReason::AppExclusion => "AppExclusion"@,
        PauseReason::TimedManual => "TimedManual"@,
    }
}

impl PauseReason {
    /// The name of the reason in PascalCase, such as `UserIdle`.
    pub fn as_str(&self) -> (s: &'static str)
        ensures
            s@ == reason_text(*self),
    {
        match self {
            PauseReason::UserIdle => "UserIdle",
            PauseReason::Dnd => "Dnd",
            PauseReason::Manual => "Manual",
            PauseReason::AppExclusion => "AppExclusion",
            PauseReason::TimedManual => "TimedManual",
        }
    }

    /// The name of the reason as an owned string.
    pub fn display_string(&self) -> (s: String)
        ensures
            s@ == reason_text(*self),
    {
        String::from_str(self.as_str())
    }

    /// Parses a reason from its PascalCase name.
    pub fn parse(s: &str) -> (r: Option<PauseReason>)
        ensures
            r matches Some(x) ==> reason_text(x) == s@,
            r is None ==> forall|x: PauseReason| reason_text(x) != s@,
    {
        let owned = String::from_str(s);
        let candidates = [
            PauseReason::UserIdle,
            PauseReason::Dnd,
            PauseReason::Manual,
            PauseReason::AppExclusion,
            PauseReason::TimedManual,
        ];
        let mut i: usize = 0;
        while i < 5
            invariant
                i <= 5,
                owned@ == s@,
                candidates@ == seq![
                    PauseReason::UserIdle,
                    PauseReason::Dnd,
                    PauseReason::Manual,
                    PauseReason::AppExclusion,
                    PauseReason::TimedManual,
                ],
                forall|j: int| 0 <= j < i ==> reason_text(candidates@[j]) != s@,
            decreases 5 - i,
        {
            let c = candidates[i];
            if String::from_str(c.as_str()) == owned {
                return Some(c);
            }
            i += 1;
        }
        proof {
            assert forall|x: PauseReason| reason_text(x) != s@ by {
                match x {
                    PauseReason::UserIdle => assert(candidates@[0] == x),
                    PauseReason::Dnd => assert(candidates@[1] == x),
                    PauseReason::Manual => assert(candidates@[2] == x),
                    PauseReason::AppExclusion => assert(candidates@[3] == x),
                    PauseReason::TimedManual => assert(candidates@[4] == x),
                }
            }
        }
        None
    }
}

/// A set of pause reasons, kept as one flag per reason: user idle, DND, manual
/// and app exclusion. A timed manual pause carries a deadline and is kept beside
/// these flags, by the shared state; this set never holds it.
#[derive(Debug, Clone, Copy, PartialEq, Eq, Structural)]
pub struct PauseReasons {
    pub user_idle: bool,
    pub dnd: bool,
    pub manual: bool,
    pub app_exclusion: bool,
}

/// The flag value of a single pause reason.
pub open spec fn reason_bit(r: PauseReason) -> u8 {
    match r {
        PauseReason::UserIdle => 1,
        PauseReason::Dnd => 2,
        PauseReason::Manual => 4,
        PauseReason::AppExclusion => 8,
        PauseReason::TimedManual => 0,
    }
}

impl View for PauseReasons {
    type V = Set<PauseReason>;

    open spec fn view(&self) -> Set<PauseReason> {
        Set::new(|r: PauseReason| self.spec_contains(r))
    }
}

impl PauseReasons {
    /// Whether the set holds `r`.
    pub open spec fn spec_contains(self, r: PauseReason) -> bool {
        match r {
            PauseReason::UserIdle => self.user_idle,
            PauseReason::Dnd => self.dnd,
            PauseReason::Manual => self.manual,
            PauseReason::AppExclusion => self.app_exclusion,
            PauseReason::TimedManual => false,
        }
    }

    /// The reasons of the set in flag order: user idle, DND, manual, app exclusion.
    pub open spec fn spec_active(self) -> Seq<PauseReason> {
        (if self.user_idle { seq![PauseReason::UserIdle] } else { Seq::empty() })
            + (if self.dnd { seq![PauseReason::Dnd] } else { Seq::empty() })
            + (if self.manual { seq![PauseReason::Manual] } else { Seq::empty() })
            + (if self.app_exclusion { seq![PauseReason::AppExclusion] } else { Seq::empty() })
    }

    /// The flag bits of the set.
    pub open spec fn spec_bits(self) -> u8 {
        ((if self.user_idle { 1u8 } else { 0u8 }) + (if self.dnd { 2u8 } else { 0u8 })
            + (if self.manual { 4u8 } else { 0u8 }) + (if self.app_exclusion { 8u8 } else { 0u8 })) as u8
    }

    /// The set without reasons.
    pub fn empty() -> (r: PauseReasons)
        ensures
            r@ == Set::<PauseReason>::empty(),
    {
        let r = PauseReasons { user_idle: false, dnd: false, manual: false, app_exclusion: false };
        assert(r@ =~= Set::<PauseReason>::empty());
        r
    }

    /// The set of all four flagged reasons.
    pub fn all() -> (r: PauseReasons)
        ensures
            r@ == Set::<PauseReason>::full().remove(PauseReason::TimedManual),
    {
        let r = PauseReasons { user_idle: true, dnd: true, manual: true, app_exclusion: true };
        assert(r@ =~= Set::<PauseReason>::full().remove(PauseReason::TimedManual)) by {
            assert forall|x: PauseReason| x != PauseReason::TimedManual implies r@.contains(x) by {
                match x {
                    PauseReason::UserIdle => {},
                    PauseReason::Dnd => {},
                    PauseReason::Manual => {},
                    PauseReason::AppExclusion => {},
                    PauseReason::TimedManual => {},
                }
            }
        }
        r
    }

    /// The set holding only `reason` (empty for a timed manual pause, which no
    /// flag holds).
    pub fn single(reason: PauseReason) -> (r: PauseReasons)
        ensures
            r@ == set![reason].remove(PauseReason::TimedManual),
    {
        let mut r = PauseReasons::empty();
        r.insert(reason);
        assert(r@ =~= set![reason].remove(PauseReason::TimedManual));
        r
    }

    /// The flag bits of the set: 1 for user idle, 2 for DND, 4 for manual, 8 for app exclusion.
    pub fn bits(&self) -> (b: u8)
        ensures
            b == self.spec_bits(),
    {
        (if self.user_idle { 1u8 } else { 0u8 }) + (if self.dnd { 2u8 } else { 0u8 })
            + (if self.manual { 4u8 } else { 0u8 }) + (if self.app_exclusion { 8u8 } else { 0u8 })
    }

    /// Returns whether the set holds `reason`.
    pub fn contains(&self, reason: PauseReason) -> (b: bool)
        ensures
            b == self@.contains(reason),
    {
        match reason {
            PauseReason::UserIdle => self.user_idle,
            PauseReason::Dnd => self.dnd,
            PauseReason::Manual => self.manual,
            PauseReason::AppExclusion => self.app_exclusion,
            PauseReason::TimedManual => false,
        }
    }

    /// Adds `reason` to the set; returns whether it was absent. A timed manual
    /// pause has no flag and leaves the set as it is.
    pub fn insert(&mut self, reason: PauseReason) -> (added: bool)
        ensures
            final(self)@ == old(self)@.insert(reason).remove(PauseReason::TimedManual),
            added == (reason != PauseReason::TimedManual && !old(self)@.contains(reason)),
    {
        let added = !self.contains(reason) && reason != PauseReason::TimedManual;
        match reason {
            PauseReason::UserIdle => self.user_idle = true,
            PauseReason::Dnd => self.dnd = true,
            PauseReason::Manual => self.manual = true,
            PauseReason::AppExclusion => self.app_exclusion = true,
            PauseReason::TimedManual => {},
        }
        assert(self@ =~= old(self)@.insert(reason).remove(PauseReason::TimedManual));
        added
    }

    /// Removes `reason` from the set; returns whether it was present.
    pub fn remove(&mut self, reason: PauseReason) -> (removed: bool)
        ensures
            final(self)@ == old(self)@.remove(reason),
            removed == old(self)@.contains(reason),
    {
        let removed = self.contains(reason);
        match reason {
            PauseReason::UserIdle => self.user_idle = false,
            PauseReason::Dnd => self.dnd = false,
            PauseReason::Manual => self.manual = false,
            PauseReason::AppExclusion => self.app_exclusion = false,
            PauseReason::TimedManual => {},
        }
        assert(self@ =~= old(self)@.remove(reason));
        removed
    }

    /// The union of two sets.
    pub fn union(self, other: PauseReasons) -> (r: PauseReasons)
        ensures
            r@ == self@.union(other@),
    {
        let r = PauseReasons {
            user_idle: self.user_idle || other.user_idle,
            dnd: self.dnd || other.dnd,
            manual: self.manual || other.manual,
            app_exclusion: self.app_exclusion || other.app_exclusion,
        };
        assert(r@ =~= self@.union(other@));
        r
    }

    /// Returns whether the set holds no reason.
    pub fn is_empty(&self) -> (b: bool)
        ensures
            b == (self@ == Set::<PauseReason>::empty()),
    {
        let b = !(self.user_idle || self.dnd || self.manual || self.app_exclusion);
        if !b {
            let w = if self.user_idle { PauseReason::UserIdle } else if self.dnd { PauseReason::Dnd }
                else if self.manual { PauseReason::Manual } else { PauseReason::AppExclusion };
            assert(self@.contains(w));
        } else {
            assert(self@ =~= Set::<PauseReason>::empty());
        }
        b
    }

    /// The reasons of the set are those of `spec_active`, each once.
    pub proof fn lemma_active(self)
        ensures
            self.spec_active().no_duplicates(),
            self.spec_active().to_set() == self@,
            self.spec_active().len() == self@.len(),
            self@.finite(),
    {
        let s = self.spec_active();
        assert forall|x: PauseReason| s.contains(x) <==> self@.contains(x) by {
            if self.spec_contains(x) {
                match x {
                    PauseReason::UserIdle => {
                        assert(s[0] == x);
                    },
                    PauseReason::Dnd => {
                        let k = if self.user_idle { 1int } else { 0int };
                        assert(s[k] == x);
                    },
                    PauseReason::Manual => {
                        let k = (if self.user_idle { 1int } else { 0int }) + (if self.dnd { 1int } else { 0int });
                        assert(s[k] == x);
                    },
                    PauseReason::AppExclusion => {
                        let k = (if self.user_idle { 1int } else { 0int }) + (if self.dnd { 1int } else { 0int })
                            + (if self.manual { 1int } else { 0int });
                        assert(s[k] == x);
                    },
                    PauseReason::TimedManual => {},
                }
            }
        }
        assert(s.to_set() =~= self@);
        assert(s.no_duplicates()) by {
            assert forall|i: int, j: int| 0 <= i < s.len() && 0 <= j < s.len() && i != j implies s[i] != s[j] by {
                assert(reason_bit(s[i]) != reason_bit(s[j])) by {
                    let k0 = if self.user_idle { 1int } else { 0int };
                    let k1 = k0 + (if self.dnd { 1int } else { 0int });
                    let k2 = k1 + (if self.manual { 1int } else { 0int });
                    assert(forall|m: int| 0 <= m < k0 ==> s[m] == PauseReason::UserIdle);
                    assert(forall|m: int| k0 <= m < k1 ==> s[m] == PauseReason::Dnd);
                    assert(forall|m: int| k1 <= m < k2 ==> s[m] == PauseReason::Manual);
                    assert(forall|m: int| k2 <= m < s.len() ==> s[m] == PauseReason::AppExclusion);
                    assert(k1 - k0 <= 1 && k2 - k1 <= 1 && s.len() - k2 <= 1 && k0 <= 1);
                }
            }
        }
        s.unique_seq_to_set();
        vstd::seq_lib::seq_to_set_is_finite(s);
    }

    /// Returns the number of active pause reasons.
    pub fn len(&self) -> (n: usize)
        ensures
            n == self@.len(),
    {
        proof {
            self.lemma_active();
        }
        (if self.user_idle { 1usize } else { 0usize }) + (if self.dnd { 1usize } else { 0usize })
            + (if self.manual { 1usize } else { 0usize }) + (if self.app_exclusion { 1usize } else { 0usize })
    }

    /// Returns the active pause reasons in flag order: user idle, DND, manual, app exclusion.
    pub fn to_vec(&self) -> (v: Vec<PauseReason>)
        ensures
            v@ == self.spec_active(),
    {
        let mut v: Vec<PauseReason> = Vec::new();
        if self.user_idle {
            v.push(PauseReason::UserIdle);
        }
        if self.dnd {
            v.push(PauseReason::Dnd);
        }
        if self.manual {
            v.push(PauseReason::Manual);
        }
        if self.app_exclusion {
            v.push(PauseReason::AppExclusion);
        }
        assert(v@ =~= self.spec_active());
        v
    }

    /// Returns all active pause reasons, in flag order.
    pub fn active_reasons(&self) -> (v: Vec<PauseReason>)
        ensures
            v@ == self.spec_active(),
    {
        self.to_vec()
    }
}

impl From<PauseReason> for PauseReasons {
    fn from(reason: PauseReason) -> (r: PauseReasons) {
        PauseReasons {
            user_idle: reason == PauseReason::UserIdle,
            dnd: reason == PauseReason::Dnd,
            manual: reason == PauseReason::Manual,
            app_exclusion: reason == PauseReason::AppExclusion,
        }
    }
}

impl vstd::std_specs::convert::FromSpecImpl<PauseReason> for PauseReasons {
    open spec fn obeys_from_spec() -> bool {
        true
    }

    open spec fn from_spec(reason: PauseReason) -> PauseReasons {
        PauseReasons {
            user_idle: reason == PauseReason::UserIdle,
            dnd: reason == PauseReason::Dnd,
            manual: reason == PauseReason::Manual,
            app_exclusion: reason == PauseReason::AppExclusion,
        }
    }
}

/// A break planned by the break scheduler.
#[derive(Debug, Clone, Copy, PartialEq, Eq, Structural)]
pub struct BreakInfo {
    /// When the break starts (UTC timestamp, seconds).
    pub break_time: i64,
    /// When the notification before the break is sent, if one is.
    pub notification_time: Option<i64>,
    pub event: SchedulerEvent,
    /// Number of times this break has been postponed.
    pub postpone_count: u8,
}

/// Commands sent to the schedulers from outside.
#[derive(Debug, Clone)]
pub enum Command {
    /// Update the scheduler configuration.
    UpdateConfig(AppConfig),
    /// Pause the schedulers.
    Pause(PauseReason),
    /// Resume the schedulers.
    Resume(PauseReason),
    /// Postpone the current break.
    PostponeBreak,
    /// Skip the current break immediately.
    SkipBreak,
    /// Trigger an event by hand.
    TriggerEvent(SchedulerEvent),
    /// Ask the break scheduler to emit its current status.
    RequestBreakStatus,
    /// A break or an attention prompt finished normally.
    PromptFinished(SchedulerEvent),
    /// Start a break of the given kind now, from the schedule in force.
    TriggerBreakNow(BreakKind),
    /// Pause by hand for the given number of minutes.
    PauseForMinutes(u32),
    /// Clear every pause the user started (manual and timed manual) at once.
    ResumeUserPauses,
}

/// The kind of break a manual trigger asks for.
#[derive(Debug, Clone, Copy, PartialEq, Eq, Structural)]
pub enum BreakKind {
    Mini,
    Long,
}

/// The display text of a command.
pub open spec fn command_text(c: Command) -> Seq<char> {
    match c {
        Command::UpdateConfig(_) => "UpdateConfig"@,
        Command::Pause(r) => "Pause("@ + reason_text(r) + ")"@,
        Command::Resume(r) => "Resume("@ + reason_text(r) + ")"@,
        Command::PostponeBreak => "PostponeBreak"@,
        Command::TriggerEvent(e) => "TriggerBreak("@ + event_text(e) + ")"@,
        Command::SkipBreak => "SkipBreak"@,
        Command::RequestBreakStatus => "RequestBreakStatus"@,
        Command::PromptFinished(e) => "PromptFinished("@ + event_text(e) + ")"@,
        Command::TriggerBreakNow(BreakKind::Mini) => "TriggerBreakNow(Mini)"@,
        Command::TriggerBreakNow(BreakKind::Long) => "TriggerBreakNow(Long)"@,
        Command::PauseForMinutes(m) => "PauseForMinutes("@ + decimal(m as nat) + ")"@,
        Command::ResumeUserPauses => "ResumeUserPauses"@,
    }
}

impl Command {
    /// The display text of the command, such as `Pause(UserIdle)`.
    pub fn display_string(&self) -> (s: String)
        ensures
            s@ == command_text(*self),
    {
        match self {
            Command::UpdateConfig(_) => String::from_str("UpdateConfig"),
            Command::Pause(r) => concat3("Pause(", r.as_str(), ")"),
            Command::Resume(r) => concat3("Resume(", r.as_str(), ")"),
            Command::PostponeBreak => String::from_str("PostponeBreak"),
            Command::TriggerEvent(e) => {
                let inner = e.display_string();
                concat3("TriggerBreak(", inner.as_str(), ")")
            },
            Command::SkipBreak => String::from_str("SkipBreak"),
            Command::RequestBreakStatus => String::from_str("RequestBreakStatus"),
            Command::PromptFinished(e) => {
                let inner = e.display_string();
                concat3("PromptFinished(", inner.as_str(), ")")
            },
            Command::TriggerBreakNow(BreakKind::Mini) => String::from_str("TriggerBreakNow(Mini)"),
            Command::TriggerBreakNow(BreakKind::Long) => String::from_str("TriggerBreakNow(Long)"),
            Command::PauseForMinutes(m) => {
                let digits = u64_to_decimal(*m as u64);
                concat3("PauseForMinutes(", digits.as_str(), ")")
            },
            Command::ResumeUserPauses => String::from_str("ResumeUserPauses"),
        }
    }
}

/// Information about a scheduled event, for display.
#[derive(Debug, Clone)]
pub struct SchedulerEventInfo {
    /// The type of event.
    pub kind: SchedulerEvent,
    /// When the event occurs (RFC 3339 text).
    pub time: String,
    /// Seconds until the event.
    pub seconds_until: i32,
}

/// Scheduler status information for display.
#[derive(Debug, Clone)]
pub struct SchedulerStatus {
    /// Whether the break scheduler is paused.
    pub paused: bool,
    /// The next scheduled break event, if any.
    pub next_event: Option<SchedulerEventInfo>,
    /// The current mini break counter.
    pub mini_break_counter: u8,
}

/// The next event of a status report, with its time as a UTC timestamp.
#[derive(Debug, Clone, Copy, PartialEq, Eq, Structural)]
pub struct EventReport {
    pub kind: SchedulerEvent,
    pub time: i64,
    pub seconds_until: i32,
}

/// A status snapshot as the schedulers decide it, before its time is formatted.
#[derive(Debug, Clone, Copy, PartialEq, Eq, Structural)]
pub struct StatusReport {
    pub paused: bool,
    pub next_event: Option<EventReport>,
    pub mini_break_counter: u8,
}

impl StatusReport {
    /// The report's times are within the range `chrono` can format.
    pub open spec fn formattable(self) -> bool {
        self.next_event matches Some(e) ==> valid_timestamp(e.time as int)
    }

    /// The display status of the report: the same fields, with the event time
    /// written in RFC 3339.
    pub fn to_status(&self) -> (st: SchedulerStatus)
        requires
            self.formattable(),
        ensures
            st.paused == self.paused,
            st.mini_break_counter == self.mini_break_counter,
            st.next_event is Some <==> self.next_event is Some,
            self.next_event matches Some(e) ==> {
                let info = st.next_event.unwrap();
                &&& info.kind == e.kind
                &&& info.seconds_until == e.seconds_until
                &&& info.time@ == rfc3339_text(e.time as int)
            },
    {
        let next_event = match &self.next_event {
            Some(e) => Some(SchedulerEventInfo {
                kind: e.kind,
                time: format_rfc3339(e.time),
                seconds_until: e.seconds_until,
            }),
            None => None,
        };
        SchedulerStatus {
            paused: self.paused,
            next_event,
            mini_break_counter: self.mini_break_counter,
        }
    }
}

} // verus!
