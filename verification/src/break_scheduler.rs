//! Break planning and the break scheduler's state machine.
//!
//! The scheduler plans mini breaks at a fixed interval after the last break and a
//! long break once enough mini breaks have been taken. Its decisions are pure
//! functions of its state, the configuration and the current time; the caller
//! performs the actions they return (timers, windows, notifications, events).

use vstd::prelude::*;

use crate::config::{AppConfig, ScheduleSettings};
use crate::event::{active_schedule_index, spec_active_index};
use crate::models::{
    BreakInfo, BreakKind, Command, EventReport, PauseReason, SchedulerEvent, StatusReport, event_text, reason_text,
};
use crate::shared_state::{SharedSchedulerState, SharedStateModel};
use crate::text::concat3;
use crate::time::{
    local_from_utc, schedulable, valid_timestamp, weekday_from_day, LocalDateTime,
    MAX_ABS_SCHEDULING_TIME,
};

verus! {

/// The index of the schedule that applies at local time `local`, if any.
pub open spec fn active_index_at(config: AppConfig, local: LocalDateTime) -> Option<int> {
    spec_active_index(config.schedules@, local.secs as int, local.weekday())
}

/// Whether the next break of schedule `s` is a long one, given the mini break counter.
pub open spec fn long_break_due(s: ScheduleSettings, counter: u8) -> bool {
    s.long_breaks.base.enabled && counter >= s.long_breaks.after_mini_breaks
}

/// The next break planned from schedule `s`.
pub open spec fn plan_from_schedule(s: ScheduleSettings, now: int, counter: u8, last: Option<i64>) -> Option<BreakInfo> {
    let long = long_break_due(s, counter);
    let settings = if long { s.long_breaks.base } else { s.mini_breaks.base };
    let event = if long {
        SchedulerEvent::LongBreak(s.long_breaks.base.id)
    } else {
        SchedulerEvent::MiniBreak(s.mini_breaks.base.id)
    };
    if !settings.enabled {
        None
    } else {
        let base = match last {
            Some(t) => t as int,
            None => now,
        };
        let break_time = base + s.mini_breaks.interval_s;
        let notif = break_time - s.notification_before_s;
        Some(BreakInfo {
            break_time: break_time as i64,
            notification_time: if s.spec_has_notification() && notif > now {
                Some(notif as i64)
            } else {
                None
            },
            event,
            postpone_count: 0,
        })
    }
}

/// The next break: none outside every schedule, otherwise the one planned from the
/// schedule that applies at local time `local`.
pub open spec fn spec_next_break(
    config: AppConfig,
    now: int,
    local: LocalDateTime,
    counter: u8,
    last: Option<i64>,
) -> Option<BreakInfo> {
    match active_index_at(config, local) {
        None => None,
        Some(i) => plan_from_schedule(config.schedules@[i], now, counter, last),
    }
}

/// The current time and the last break time are within the scheduling range.
pub open spec fn schedulable_times(now: int, last: Option<i64>) -> bool {
    &&& schedulable(now)
    &&& last matches Some(t) ==> schedulable(t as int)
}

/// Plans the next break at time `now`, whose local reading is `now_local`.
pub fn calculate_next_break_at(
    config: &AppConfig,
    now: i64,
    now_local: LocalDateTime,
    mini_break_counter: u8,
    last_break_time: Option<i64>,
) -> (r: Option<BreakInfo>)
    requires
        schedulable_times(now as int, last_break_time),
        now_local.wf(),
    ensures
        r == spec_next_break(*config, now as int, now_local, mini_break_counter, last_break_time),
{
    let day = weekday_from_day(now_local.day);
    let idx = active_schedule_index(config, now_local.secs, day);
    let i = match idx {
        None => {
            return None;
        },
        Some(i) => i,
    };
    let s = &config.schedules[i];
    let long = s.long_breaks.base.enabled && mini_break_counter >= s.long_breaks.after_mini_breaks;
    let (event, enabled) = if long {
        (SchedulerEvent::LongBreak(s.long_breaks.base.id), s.long_breaks.base.enabled)
    } else {
        (SchedulerEvent::MiniBreak(s.mini_breaks.base.id), s.mini_breaks.base.enabled)
    };
    if !enabled {
        return None;
    }
    let base = match last_break_time {
        Some(t) => t,
        None => now,
    };
    let break_time = base + s.mini_breaks.interval_s as i64;
    let notification_time = if s.has_notification() {
        let notif = break_time - s.notification_before_s as i64;
        if notif > now {
            Some(notif)
        } else {
            None
        }
    } else {
        None
    };
    Some(BreakInfo { break_time, notification_time, event, postpone_count: 0 })
}

/// Plans the next break at UTC time `now`, reading the local time from the
/// machine's time zone.
pub fn calculate_next_break_pure(
    config: &AppConfig,
    now: i64,
    mini_break_counter: u8,
    last_break_time: Option<i64>,
) -> (r: Option<BreakInfo>)
    requires
        schedulable_times(now as int, last_break_time),
    ensures
        exists|local: LocalDateTime|
            local.wf() && -86400 < local.naive_seconds() - now < 86400
            && r == spec_next_break(*config, now as int, local, mini_break_counter, last_break_time),
{
    let local = local_from_utc(now);
    calculate_next_break_at(config, now, local, mini_break_counter, last_break_time)
}

/// The state of the break scheduler.
#[derive(Debug, Clone, Copy, PartialEq, Eq, Structural)]
pub enum BreakSchedulerState {
    /// Paused.
    Paused(PauseReason),
    /// Running, but no schedule applies (e.g., outside working hours).
    Idle,
    /// Waiting for the notification before a break.
    WaitingForNotification(BreakInfo),
    /// Waiting for a break to start.
    WaitingForBreak(BreakInfo),
    /// In a break (the prompt window is open).
    InBreak(BreakInfo),
}

/// The kind of break a notification announces.
#[derive(Debug, Clone, Copy, PartialEq, Eq, Structural)]
pub enum BreakType {
    MiniBreak,
    LongBreak,
}

/// Work the caller performs on behalf of the break scheduler, in order.
#[derive(Debug, Clone, Copy, PartialEq, Eq, Structural)]
pub enum BreakAction {
    /// Emit a `scheduler-status` event.
    EmitStatus(StatusReport),
    /// Emit a `scheduler-event` event: a break starts.
    EmitEvent(SchedulerEvent),
    /// Emit a `postpone-limit-reached` event.
    EmitPostponeLimitReached,
    /// Send the system notification announcing a break.
    SendNotification { break_type: BreakType, notification_before_s: u32 },
    /// Open the break prompt windows; report a failure back with `on_prompt_windows_failed`.
    CreatePromptWindows { event: SchedulerEvent, postpone_count: u8 },
    /// Close every open break window.
    CloseBreakWindows,
}

/// The break scheduler: its state and its break cycle.
#[derive(Debug, Clone, Copy, PartialEq, Eq, Structural)]
pub struct BreakScheduler {
    pub state: BreakSchedulerState,
    /// Mini breaks taken since the last long break.
    pub mini_break_counter: u8,
    /// When the last break ended, if the cycle has a reference point.
    pub last_break_time: Option<i64>,
}

/// The result of a decision: the scheduler, the shared state and the actions.
pub struct BreakStep {
    pub sched: BreakScheduler,
    pub shared: SharedStateModel,
    pub actions: Seq<BreakAction>,
}

/// Bound on the times of a break postponed `count` times.
pub open spec fn info_bound(count: u8) -> int {
    MAX_ABS_SCHEDULING_TIME + (count + 1) * 4294967296
}

/// A planned break's times are within the bound for its postponements.
pub open spec fn info_wf(info: BreakInfo) -> bool {
    &&& -info_bound(info.postpone_count) <= info.break_time <= info_bound(info.postpone_count)
    &&& info.notification_time matches Some(t) ==> -info_bound(info.postpone_count) <= t <= info_bound(info.postpone_count)
}

/// The break held by a state, if any.
pub open spec fn state_info(st: BreakSchedulerState) -> Option<BreakInfo> {
    match st {
        BreakSchedulerState::WaitingForNotification(i) => Some(i),
        BreakSchedulerState::WaitingForBreak(i) => Some(i),
        BreakSchedulerState::InBreak(i) => Some(i),
        _ => None,
    }
}

/// The text of a state, such as `InBreak(MiniBreak(3))`.
pub open spec fn state_text(st: BreakSchedulerState) -> Seq<char> {
    match st {
        BreakSchedulerState::Paused(r) => "Paused("@ + reason_text(r) + ")"@,
        BreakSchedulerState::Idle => "Idle"@,
        BreakSchedulerState::WaitingForNotification(_) => "WaitingForNotification"@,
        BreakSchedulerState::WaitingForBreak(_) => "WaitingForBreak"@,
        BreakSchedulerState::InBreak(i) => "InBreak("@ + event_text(i.event) + ")"@,
    }
}

impl BreakScheduler {
    /// Times held by the scheduler are within the scheduling range.
    pub open spec fn wf(self) -> bool {
        &&& state_info(self.state) matches Some(i) ==> info_wf(i)
        &&& self.last_break_time matches Some(t) ==> schedulable(t as int)
    }

    /// The mini break counter can grow by one more break.
    pub open spec fn counter_can_grow(self) -> bool {
        self.mini_break_counter < 255
    }
}

/// A step with one more action.
pub open spec fn push_action(st: BreakStep, a: BreakAction) -> BreakStep {
    BreakStep { actions: st.actions.push(a), ..st }
}

/// A step with another scheduler state.
pub open spec fn with_state(st: BreakStep, s: BreakSchedulerState) -> BreakStep {
    BreakStep { sched: BreakScheduler { state: s, ..st.sched }, ..st }
}

/// The status report of a planned break at time `now`.
pub open spec fn info_report(info: BreakInfo, now: int, counter: u8) -> StatusReport {
    StatusReport {
        paused: false,
        next_event: Some(EventReport {
            kind: info.event,
            time: info.break_time,
            seconds_until: (info.break_time - now) as i32,
        }),
        mini_break_counter: counter,
    }
}

/// The status report without a next event.
pub open spec fn plain_report(paused: bool, counter: u8) -> StatusReport {
    StatusReport { paused, next_event: None, mini_break_counter: counter }
}

/// Emits the status of a planned break.
pub open spec fn spec_emit_status(st: BreakStep, info: BreakInfo, now: int) -> BreakStep {
    push_action(st, BreakAction::EmitStatus(info_report(info, now, st.sched.mini_break_counter)))
}

/// The notification lead time of the schedule that applies at `local`, or 0.
pub open spec fn notification_lead(config: AppConfig, local: LocalDateTime) -> u32 {
    match active_index_at(config, local) {
        Some(i) => config.schedules@[i].notification_before_s,
        None => 0,
    }
}

/// Sends the notification announcing a break; attention events get none.
pub open spec fn spec_send_notification(st: BreakStep, event: SchedulerEvent, config: AppConfig, local: LocalDateTime) -> BreakStep {
    match event {
        SchedulerEvent::MiniBreak(_) => push_action(st, BreakAction::SendNotification {
            break_type: BreakType::MiniBreak,
            notification_before_s: notification_lead(config, local),
        }),
        SchedulerEvent::LongBreak(_) => push_action(st, BreakAction::SendNotification {
            break_type: BreakType::LongBreak,
            notification_before_s: notification_lead(config, local),
        }),
        SchedulerEvent::Attention(_) => st,
    }
}

/// Starts a break: the session begins, the event is emitted and the windows open.
pub open spec fn spec_execute_break(st: BreakStep, info: BreakInfo) -> BreakStep {
    BreakStep {
        sched: BreakScheduler { state: BreakSchedulerState::InBreak(info), ..st.sched },
        shared: SharedStateModel { in_break_session: true, ..st.shared },
        actions: st.actions.push(BreakAction::EmitEvent(info.event)).push(
            BreakAction::CreatePromptWindows { event: info.event, postpone_count: info.postpone_count },
        ),
    }
}

/// Closes the break windows and ends the break session.
pub open spec fn spec_close_break_windows(st: BreakStep) -> BreakStep {
    BreakStep {
        shared: SharedStateModel { in_break_session: false, ..st.shared },
        actions: st.actions.push(BreakAction::CloseBreakWindows),
        ..st
    }
}

/// Records a finished break at `now`: a mini break counts, a long break resets the count.
pub open spec fn spec_update_after_break(st: BreakStep, event: SchedulerEvent, now: int) -> BreakStep {
    let c = st.sched.mini_break_counter;
    BreakStep {
        sched: BreakScheduler {
            last_break_time: Some(now as i64),
            mini_break_counter: match event {
                SchedulerEvent::MiniBreak(_) => (c + 1) as u8,
                SchedulerEvent::LongBreak(_) => 0,
                SchedulerEvent::Attention(_) => c,
            },
            ..st.sched
        },
        ..st
    }
}

/// Plans the next break and moves to the state that waits for it: a break whose
/// time has come starts at once; a notification whose time has come is sent at
/// once; outside every schedule the scheduler is idle.
pub open spec fn spec_transition(st: BreakStep, config: AppConfig, now: int, local: LocalDateTime) -> BreakStep {
    match spec_next_break(config, now, local, st.sched.mini_break_counter, st.sched.last_break_time) {
        None => push_action(
            with_state(st, BreakSchedulerState::Idle),
            BreakAction::EmitStatus(plain_report(false, st.sched.mini_break_counter)),
        ),
        Some(info) => if info.break_time <= now {
            spec_execute_break(st, info)
        } else {
            match info.notification_time {
                Some(t) => if t <= now {
                    spec_emit_status(
                        with_state(spec_send_notification(st, info.event, config, local), BreakSchedulerState::WaitingForBreak(info)),
                        info,
                        now,
                    )
                } else {
                    spec_emit_status(with_state(st, BreakSchedulerState::WaitingForNotification(info)), info, now)
                },
                None => spec_emit_status(with_state(st, BreakSchedulerState::WaitingForBreak(info)), info, now),
            }
        },
    }
}

/// The maximum postpone count for the held break under the schedule that applies
/// at `local`; 2 outside every schedule.
pub open spec fn spec_max_postpone_count(state: BreakSchedulerState, config: AppConfig, local: LocalDateTime) -> u8 {
    match active_index_at(config, local) {
        None => 2,
        Some(i) => {
            let s = config.schedules@[i];
            match state_info(state) {
                Some(info) => match info.event {
                    SchedulerEvent::MiniBreak(_) => s.mini_breaks.base.max_postpone_count,
                    SchedulerEvent::LongBreak(_) => s.long_breaks.base.max_postpone_count,
                    SchedulerEvent::Attention(_) => 0,
                },
                None => s.mini_breaks.base.max_postpone_count,
            }
        },
    }
}

/// The postpone duration for the held break under the schedule that applies at
/// `local`; 300 seconds outside every schedule.
pub open spec fn spec_postpone_duration(state: BreakSchedulerState, config: AppConfig, local: LocalDateTime) -> u32 {
    match active_index_at(config, local) {
        None => 300,
        Some(i) => {
            let s = config.schedules@[i];
            match state_info(state) {
                Some(info) => match info.event {
                    SchedulerEvent::LongBreak(_) => s.long_breaks.base.postponed_s,
                    _ => s.mini_breaks.base.postponed_s,
                },
                None => s.mini_breaks.base.postponed_s,
            }
        },
    }
}

/// Postpones the held break unless its postpone limit is reached: an upcoming break
/// moves later by the postpone duration, an active one closes and comes back after
/// that duration from now. Without a held break nothing happens.
pub open spec fn spec_postpone(st: BreakStep, config: AppConfig, now: int, local: LocalDateTime) -> BreakStep {
    match state_info(st.sched.state) {
        None => st,
        Some(info) => {
            let max = spec_max_postpone_count(st.sched.state, config, local);
            if info.postpone_count >= max {
                push_action(st, BreakAction::EmitPostponeLimitReached)
            } else {
                let p = spec_postpone_duration(st.sched.state, config, local);
                match st.sched.state {
                    BreakSchedulerState::InBreak(_) => {
                        let new_info = BreakInfo {
                            postpone_count: (info.postpone_count + 1) as u8,
                            break_time: (now + p) as i64,
                            notification_time: None,
                            ..info
                        };
                        spec_emit_status(
                            with_state(spec_close_break_windows(st), BreakSchedulerState::WaitingForBreak(new_info)),
                            new_info,
                            now,
                        )
                    },
                    _ => {
                        let new_info = BreakInfo {
                            postpone_count: (info.postpone_count + 1) as u8,
                            break_time: (info.break_time + p) as i64,
                            notification_time: None,
                            ..info
                        };
                        spec_emit_status(with_state(st, BreakSchedulerState::WaitingForBreak(new_info)), new_info, now)
                    },
                }
            }
        },
    }
}

/// Pauses: a reason other than a manual pause (timed or not) also drops the break cycle's
/// reference time; a reason that the configuration lists resets the mini break
/// counter; open break windows close.
pub open spec fn spec_pause(st: BreakStep, reason: PauseReason, config: AppConfig) -> BreakStep {
    let st1 = BreakStep {
        sched: BreakScheduler {
            state: BreakSchedulerState::Paused(reason),
            last_break_time: if reason == PauseReason::Manual || reason == PauseReason::TimedManual {
                st.sched.last_break_time
            } else {
                None
            },
            mini_break_counter: if config.advanced.reset_mini_break_counter_on_pause_reasons@.contains(reason) {
                0
            } else {
                st.sched.mini_break_counter
            },
            ..st.sched
        },
        ..st
    };
    let st2 = spec_close_break_windows(st1);
    push_action(st2, BreakAction::EmitStatus(plain_report(true, st2.sched.mini_break_counter)))
}

/// Resumes a paused scheduler, counting the pause as a break; otherwise nothing.
pub open spec fn spec_resume(st: BreakStep, config: AppConfig, now: int, local: LocalDateTime) -> BreakStep {
    match st.sched.state {
        BreakSchedulerState::Paused(_) => spec_transition(
            BreakStep { sched: BreakScheduler { last_break_time: Some(now as i64), ..st.sched }, ..st },
            config,
            now,
            local,
        ),
        _ => st,
    }
}

/// Skips the held break as if it were taken (or, without one, restarts the
/// cycle from now), closes the windows and plans the next break.
pub open spec fn spec_skip(st: BreakStep, config: AppConfig, now: int, local: LocalDateTime) -> BreakStep {
    let st1 = match state_info(st.sched.state) {
        Some(info) => spec_update_after_break(st, info.event, now),
        None => BreakStep { sched: BreakScheduler { last_break_time: Some(now as i64), ..st.sched }, ..st },
    };
    spec_transition(spec_close_break_windows(st1), config, now, local)
}

/// Ends the active break that `event` names and plans the next one; any other
/// notice changes nothing.
pub open spec fn spec_prompt_finished(st: BreakStep, event: SchedulerEvent, config: AppConfig, now: int, local: LocalDateTime) -> BreakStep {
    match st.sched.state {
        BreakSchedulerState::InBreak(info) => if event == info.event {
            let st1 = BreakStep { shared: SharedStateModel { in_break_session: false, ..st.shared }, ..st };
            spec_transition(spec_update_after_break(st1, event, now), config, now, local)
        } else {
            st
        },
        _ => st,
    }
}

/// Starts the given break now.
pub open spec fn spec_trigger(st: BreakStep, event: SchedulerEvent, now: int) -> BreakStep {
    spec_execute_break(st, BreakInfo { break_time: now as i64, notification_time: None, event, postpone_count: 0 })
}

/// `i` is the first enabled schedule of `ss`.
pub open spec fn is_first_enabled(ss: Seq<ScheduleSettings>, i: int) -> bool {
    &&& 0 <= i < ss.len()
    &&& ss[i].enabled
    &&& forall|j: int| 0 <= j < i ==> !(#[trigger] ss[j]).enabled
}

/// The index of the first enabled schedule of `ss`, if any.
pub open spec fn first_enabled_index(ss: Seq<ScheduleSettings>) -> Option<int> {
    if exists|i: int| is_first_enabled(ss, i) {
        Some(choose|i: int| is_first_enabled(ss, i))
    } else {
        None
    }
}

/// The schedule a manual trigger uses: the one that applies at `local`, else the
/// first enabled one.
pub open spec fn trigger_schedule_index(config: AppConfig, local: LocalDateTime) -> Option<int> {
    match active_index_at(config, local) {
        Some(i) => Some(i),
        None => first_enabled_index(config.schedules@),
    }
}

/// The break of kind `kind` that schedule `s` gives.
pub open spec fn kind_event(s: ScheduleSettings, kind: BreakKind) -> SchedulerEvent {
    match kind {
        BreakKind::Mini => SchedulerEvent::MiniBreak(s.mini_breaks.base.id),
        BreakKind::Long => SchedulerEvent::LongBreak(s.long_breaks.base.id),
    }
}

/// Starts a break of kind `kind` now from the schedule a manual trigger uses;
/// nothing while paused or without an enabled schedule.
pub open spec fn spec_trigger_now(st: BreakStep, kind: BreakKind, config: AppConfig, now: int, local: LocalDateTime) -> BreakStep {
    match st.sched.state {
        BreakSchedulerState::Paused(_) => st,
        _ => match trigger_schedule_index(config, local) {
            None => st,
            Some(i) => spec_trigger(st, kind_event(config.schedules@[i], kind), now),
        },
    }
}

/// Replans under a new configuration, unless paused.
pub open spec fn spec_update_config(st: BreakStep, config: AppConfig, now: int, local: LocalDateTime) -> BreakStep {
    match st.sched.state {
        BreakSchedulerState::Paused(_) => st,
        _ => spec_transition(st, config, now, local),
    }
}

/// Emits the current status.
pub open spec fn spec_current_status(st: BreakStep, now: int) -> BreakStep {
    match st.sched.state {
        BreakSchedulerState::Paused(_) => push_action(st, BreakAction::EmitStatus(plain_report(true, st.sched.mini_break_counter))),
        BreakSchedulerState::Idle => push_action(st, BreakAction::EmitStatus(plain_report(false, st.sched.mini_break_counter))),
        BreakSchedulerState::InBreak(_) => push_action(st, BreakAction::EmitStatus(plain_report(false, st.sched.mini_break_counter))),
        BreakSchedulerState::WaitingForNotification(info) => spec_emit_status(st, info, now),
        BreakSchedulerState::WaitingForBreak(info) => spec_emit_status(st, info, now),
    }
}

/// A timer fired: the notification is sent, or the break starts.
pub open spec fn spec_timer_fired(st: BreakStep, config: AppConfig, local: LocalDateTime) -> BreakStep {
    match st.sched.state {
        BreakSchedulerState::WaitingForNotification(info) => with_state(
            spec_send_notification(st, info.event, config, local),
            BreakSchedulerState::WaitingForBreak(info),
        ),
        BreakSchedulerState::WaitingForBreak(info) => spec_execute_break(st, info),
        _ => st,
    }
}

/// The break prompt windows could not open: the session ends, the break counts as
/// taken, and the next one is planned.
pub open spec fn spec_windows_failed(st: BreakStep, event: SchedulerEvent, config: AppConfig, now: int, local: LocalDateTime) -> BreakStep {
    let st1 = BreakStep { shared: SharedStateModel { in_break_session: false, ..st.shared }, ..st };
    spec_transition(spec_update_after_break(st1, event, now), config, now, local)
}

/// The effect of a command on the break scheduler. A timed pause and clearing
/// the user's pauses reach it as `Pause` and `Resume`, through the router.
pub open spec fn spec_handle_command(st: BreakStep, cmd: Command, config: AppConfig, now: int, local: LocalDateTime) -> BreakStep {
    match cmd {
        Command::Pause(reason) => spec_pause(st, reason, config),
        Command::Resume(_) => spec_resume(st, config, now, local),
        Command::PostponeBreak => spec_postpone(st, config, now, local),
        Command::SkipBreak => spec_skip(st, config, now, local),
        Command::PromptFinished(event) => spec_prompt_finished(st, event, config, now, local),
        Command::TriggerEvent(event) => spec_trigger(st, event, now),
        Command::TriggerBreakNow(kind) => spec_trigger_now(st, kind, config, now, local),
        Command::UpdateConfig(new_config) => spec_update_config(st, new_config, now, local),
        Command::RequestBreakStatus => spec_current_status(st, now),
        Command::PauseForMinutes(_) | Command::ResumeUserPauses => st,
    }
}

/// The step made of a scheduler, a shared state and the actions so far.
pub open spec fn step_of(s: BreakScheduler, sh: SharedStateModel, a: Seq<BreakAction>) -> BreakStep {
    BreakStep { sched: s, shared: sh, actions: a }
}

impl BreakScheduler {
    /// A scheduler that has not planned anything yet.
    pub fn new() -> (s: BreakScheduler)
        ensures
            s.state == BreakSchedulerState::Idle,
            s.mini_break_counter == 0,
            s.last_break_time is None,
            s.wf(),
    {
        BreakScheduler { state: BreakSchedulerState::Idle, mini_break_counter: 0, last_break_time: None }
    }

    /// The text of the current state, such as `WaitingForBreak`.
    pub fn get_state(&self) -> (s: String)
        ensures
            s@ == state_text(self.state),
    {
        match &self.state {
            BreakSchedulerState::Paused(r) => concat3("Paused(", r.as_str(), ")"),
            BreakSchedulerState::Idle => String::from_str("Idle"),
            BreakSchedulerState::WaitingForNotification(_) => String::from_str("WaitingForNotification"),
            BreakSchedulerState::WaitingForBreak(_) => String::from_str("WaitingForBreak"),
            BreakSchedulerState::InBreak(info) => {
                let inner = info.event.display_string();
                concat3("InBreak(", inner.as_str(), ")")
            },
        }
    }

    /// The number of mini breaks taken since the last long break.
    pub fn get_mini_break_counter(&self) -> (c: u8)
        ensures
            c == self.mini_break_counter,
    {
        self.mini_break_counter
    }

    /// When the last break ended, if the cycle has a reference point.
    pub fn get_last_break_time(&self) -> (t: Option<i64>)
        ensures
            t == self.last_break_time,
    {
        self.last_break_time
    }

    /// Seconds until the timer of the current state fires, if it has one: the
    /// notification time while waiting for it, the break time while waiting for the break.
    pub fn get_duration_for_current_state(&self, now: i64) -> (d: Option<i64>)
        requires
            self.wf(),
            schedulable(now as int),
        ensures
            d == (match self.state {
                BreakSchedulerState::WaitingForNotification(info) => match info.notification_time {
                    Some(t) => Some((t - now) as i64),
                    None => None,
                },
                BreakSchedulerState::WaitingForBreak(info) => Some((info.break_time - now) as i64),
                _ => None,
            }),
    {
        match &self.state {
            BreakSchedulerState::WaitingForNotification(info) => match info.notification_time {
                Some(t) => Some(t - now),
                None => None,
            },
            BreakSchedulerState::WaitingForBreak(info) => Some(info.break_time - now),
            _ => None,
        }
    }

    fn emit_status(&self, info: &BreakInfo, now: i64, actions: &mut Vec<BreakAction>)
        requires
            info_wf(*info),
            schedulable(now as int),
        ensures
            final(actions)@ == old(actions)@.push(BreakAction::EmitStatus(info_report(*info, now as int, self.mini_break_counter))),
    {
        let d: i64 = info.break_time - now;
        let secs = d as i32;
        actions.push(BreakAction::EmitStatus(StatusReport {
            paused: false,
            next_event: Some(EventReport { kind: info.event, time: info.break_time, seconds_until: secs }),
            mini_break_counter: self.mini_break_counter,
        }));
    }

    fn notification_lead(config: &AppConfig, now_local: LocalDateTime) -> (n: u32)
        requires
            now_local.wf(),
        ensures
            n == notification_lead(*config, now_local),
    {
        let day = weekday_from_day(now_local.day);
        match active_schedule_index(config, now_local.secs, day) {
            Some(i) => config.schedules[i].notification_before_s,
            None => 0,
        }
    }

    fn send_notification(
        &self,
        event: SchedulerEvent,
        config: &AppConfig,
        now_local: LocalDateTime,
        actions: &mut Vec<BreakAction>,
    )
        requires
            now_local.wf(),
        ensures
            final(actions)@ == spec_send_notification(step_of(*self, SharedStateModel { reasons: Set::empty(), timed_pause_until: None, in_break_session: false, in_attention_session: false }, old(actions)@), event, *config, now_local).actions,
    {
        match event {
            SchedulerEvent::MiniBreak(_) => {
                let n = Self::notification_lead(config, now_local);
                actions.push(BreakAction::SendNotification { break_type: BreakType::MiniBreak, notification_before_s: n });
            },
            SchedulerEvent::LongBreak(_) => {
                let n = Self::notification_lead(config, now_local);
                actions.push(BreakAction::SendNotification { break_type: BreakType::LongBreak, notification_before_s: n });
            },
            SchedulerEvent::Attention(_) => {},
        }
    }

    fn execute_break(&mut self, info: BreakInfo, shared: &mut SharedSchedulerState, actions: &mut Vec<BreakAction>)
        requires
            old(self).wf(),
            info_wf(info),
        ensures
            step_of(*final(self), final(shared)@, final(actions)@) == spec_execute_break(step_of(*old(self), old(shared)@, old(actions)@), info),
            final(self).wf(),
    {
        self.state = BreakSchedulerState::InBreak(info);
        shared.start_break_session();
        actions.push(BreakAction::EmitEvent(info.event));
        actions.push(BreakAction::CreatePromptWindows { event: info.event, postpone_count: info.postpone_count });
    }

    fn close_break_windows(&self, shared: &mut SharedSchedulerState, actions: &mut Vec<BreakAction>)
        ensures
            step_of(*self, final(shared)@, final(actions)@) == spec_close_break_windows(step_of(*self, old(shared)@, old(actions)@)),
    {
        actions.push(BreakAction::CloseBreakWindows);
        shared.end_break_session();
    }

    fn update_state_after_break(&mut self, event: SchedulerEvent, now: i64)
        requires
            old(self).wf(),
            event is MiniBreak ==> old(self).counter_can_grow(),
            schedulable(now as int),
        ensures
            final(self).wf(),
            forall|sh: SharedStateModel, a: Seq<BreakAction>|
                #[trigger] step_of(*final(self), sh, a) == spec_update_after_break(step_of(*old(self), sh, a), event, now as int),
    {
        self.last_break_time = Some(now);
        match event {
            SchedulerEvent::MiniBreak(_) => {
                self.mini_break_counter = self.mini_break_counter + 1;
            },
            SchedulerEvent::LongBreak(_) => {
                self.mini_break_counter = 0;
            },
            SchedulerEvent::Attention(_) => {},
        }
    }

    fn transition_to_calculating(
        &mut self,
        shared: &mut SharedSchedulerState,
        config: &AppConfig,
        now: i64,
        now_local: LocalDateTime,
        actions: &mut Vec<BreakAction>,
    )
        requires
            old(self).wf(),
            schedulable(now as int),
            now_local.wf(),
        ensures
            step_of(*final(self), final(shared)@, final(actions)@) == spec_transition(step_of(*old(self), old(shared)@, old(actions)@), *config, now as int, now_local),
            final(self).wf(),
    {
        let next = calculate_next_break_at(config, now, now_local, self.mini_break_counter, self.last_break_time);
        match next {
            None => {
                self.state = BreakSchedulerState::Idle;
                actions.push(BreakAction::EmitStatus(StatusReport { paused: false, next_event: None, mini_break_counter: self.mini_break_counter }));
            },
            Some(info) => {
                if info.break_time <= now {
                    self.execute_break(info, shared, actions);
                } else {
                    match info.notification_time {
                        Some(t) => {
                            if t <= now {
                                self.send_notification(info.event, config, now_local, actions);
                                self.state = BreakSchedulerState::WaitingForBreak(info);
                                self.emit_status(&info, now, actions);
                            } else {
                                self.state = BreakSchedulerState::WaitingForNotification(info);
                                self.emit_status(&info, now, actions);
                            }
                        },
                        None => {
                            self.state = BreakSchedulerState::WaitingForBreak(info);
                            self.emit_status(&info, now, actions);
                        },
                    }
                }
            },
        }
    }
}

/// Whether the scheduler starts planning when it starts: unless it is paused.
pub open spec fn spec_start(st: BreakStep, config: AppConfig, now: int, local: LocalDateTime) -> BreakStep {
    match st.sched.state {
        BreakSchedulerState::Paused(_) => st,
        _ => spec_transition(st, config, now, local),
    }
}

/// The conditions under which the break scheduler makes a decision: its times are
/// in range, the current time is schedulable and its local reading well formed.
pub open spec fn decision_ready(s: BreakScheduler, now: int, local: LocalDateTime) -> bool {
    &&& s.wf()
    &&& schedulable(now)
    &&& local.wf()
}

/// The mini break counter can count the mini break that a command may complete:
/// the held mini break for a skip, the named mini break for a finished prompt.
pub open spec fn counter_ready(s: BreakScheduler, cmd: Command) -> bool {
    match cmd {
        Command::PromptFinished(e) => e is MiniBreak ==> s.counter_can_grow(),
        Command::SkipBreak => (state_info(s.state) matches Some(info) && info.event is MiniBreak) ==> s.counter_can_grow(),
        _ => true,
    }
}

impl BreakScheduler {
    fn max_postpone_count(&self, config: &AppConfig, now_local: LocalDateTime) -> (m: u8)
        requires
            now_local.wf(),
        ensures
            m == spec_max_postpone_count(self.state, *config, now_local),
    {
        let day = weekday_from_day(now_local.day);
        match active_schedule_index(config, now_local.secs, day) {
            None => 2,
            Some(i) => {
                let s = &config.schedules[i];
                match &self.state {
                    BreakSchedulerState::WaitingForNotification(info)
                    | BreakSchedulerState::WaitingForBreak(info)
                    | BreakSchedulerState::InBreak(info) => match info.event {
                        SchedulerEvent::MiniBreak(_) => s.mini_breaks.base.max_postpone_count,
                        SchedulerEvent::LongBreak(_) => s.long_breaks.base.max_postpone_count,
                        SchedulerEvent::Attention(_) => 0,
                    },
                    _ => s.mini_breaks.base.max_postpone_count,
                }
            },
        }
    }

    fn postpone_duration_s(&self, config: &AppConfig, now_local: LocalDateTime) -> (p: u32)
        requires
            now_local.wf(),
        ensures
            p == spec_postpone_duration(self.state, *config, now_local),
    {
        let day = weekday_from_day(now_local.day);
        match active_schedule_index(config, now_local.secs, day) {
            None => 300,
            Some(i) => {
                let s = &config.schedules[i];
                match &self.state {
                    BreakSchedulerState::WaitingForNotification(info)
                    | BreakSchedulerState::WaitingForBreak(info)
                    | BreakSchedulerState::InBreak(info) => match info.event {
                        SchedulerEvent::LongBreak(_) => s.long_breaks.base.postponed_s,
                        _ => s.mini_breaks.base.postponed_s,
                    },
                    _ => s.mini_breaks.base.postponed_s,
                }
            },
        }
    }

    fn handle_pause_command(
        &mut self,
        reason: PauseReason,
        shared: &mut SharedSchedulerState,
        config: &AppConfig,
        actions: &mut Vec<BreakAction>,
    )
        requires
            old(self).wf(),
        ensures
            step_of(*final(self), final(shared)@, final(actions)@) == spec_pause(step_of(*old(self), old(shared)@, old(actions)@), reason, *config),
            final(self).wf(),
    {
        self.state = BreakSchedulerState::Paused(reason);
        if config.advanced.resets_counter_on(reason) {
            self.mini_break_counter = 0;
        }
        match reason {
            PauseReason::UserIdle | PauseReason::Dnd | PauseReason::AppExclusion => {
                self.last_break_time = None;
            },
            PauseReason::Manual | PauseReason::TimedManual => {},
        }
        self.close_break_windows(shared, actions);
        actions.push(BreakAction::EmitStatus(StatusReport { paused: true, next_event: None, mini_break_counter: self.mini_break_counter }));
    }

    fn handle_resume_command(
        &mut self,
        shared: &mut SharedSchedulerState,
        config: &AppConfig,
        now: i64,
        now_local: LocalDateTime,
        actions: &mut Vec<BreakAction>,
    )
        requires
            decision_ready(*old(self), now as int, now_local),
        ensures
            step_of(*final(self), final(shared)@, final(actions)@) == spec_resume(step_of(*old(self), old(shared)@, old(actions)@), *config, now as int, now_local),
            final(self).wf(),
    {
        if let BreakSchedulerState::Paused(_) = self.state {
            self.last_break_time = Some(now);
            self.transition_to_calculating(shared, config, now, now_local, actions);
        }
    }

    fn handle_postpone_break_command(
        &mut self,
        shared: &mut SharedSchedulerState,
        config: &AppConfig,
        now: i64,
        now_local: LocalDateTime,
        actions: &mut Vec<BreakAction>,
    )
        requires
            decision_ready(*old(self), now as int, now_local),
        ensures
            step_of(*final(self), final(shared)@, final(actions)@) == spec_postpone(step_of(*old(self), old(shared)@, old(actions)@), *config, now as int, now_local),
            final(self).wf(),
    {
        let max_count = self.max_postpone_count(config, now_local);
        let info = match &self.state {
            BreakSchedulerState::WaitingForNotification(info)
            | BreakSchedulerState::WaitingForBreak(info)
            | BreakSchedulerState::InBreak(info) => *info,
            _ => {
                return;
            },
        };
        if info.postpone_count >= max_count {
            actions.push(BreakAction::EmitPostponeLimitReached);
            return;
        }
        let postpone_s = self.postpone_duration_s(config, now_local);
        match self.state {
            BreakSchedulerState::InBreak(_) => {
                let new_info = BreakInfo {
                    postpone_count: info.postpone_count + 1,
                    break_time: now + postpone_s as i64,
                    notification_time: None,
                    event: info.event,
                };
                self.close_break_windows(shared, actions);
                self.state = BreakSchedulerState::WaitingForBreak(new_info);
                self.emit_status(&new_info, now, actions);
            },
            _ => {
                let new_info = BreakInfo {
                    postpone_count: info.postpone_count + 1,
                    break_time: info.break_time + postpone_s as i64,
                    notification_time: None,
                    event: info.event,
                };
                self.state = BreakSchedulerState::WaitingForBreak(new_info);
                self.emit_status(&new_info, now, actions);
            },
        }
    }

    fn handle_skip_break_command(
        &mut self,
        shared: &mut SharedSchedulerState,
        config: &AppConfig,
        now: i64,
        now_local: LocalDateTime,
        actions: &mut Vec<BreakAction>,
    )
        requires
            decision_ready(*old(self), now as int, now_local),
            counter_ready(*old(self), Command::SkipBreak),
        ensures
            step_of(*final(self), final(shared)@, final(actions)@) == spec_skip(step_of(*old(self), old(shared)@, old(actions)@), *config, now as int, now_local),
            final(self).wf(),
    {
        match self.state {
            BreakSchedulerState::WaitingForNotification(info)
            | BreakSchedulerState::WaitingForBreak(info)
            | BreakSchedulerState::InBreak(info) => {
                self.update_state_after_break(info.event, now);
            },
            _ => {
                self.last_break_time = Some(now);
            },
        }
        self.close_break_windows(shared, actions);
        self.transition_to_calculating(shared, config, now, now_local, actions);
    }

    fn handle_prompt_finished_command(
        &mut self,
        event: SchedulerEvent,
        shared: &mut SharedSchedulerState,
        config: &AppConfig,
        now: i64,
        now_local: LocalDateTime,
        actions: &mut Vec<BreakAction>,
    )
        requires
            decision_ready(*old(self), now as int, now_local),
            counter_ready(*old(self), Command::PromptFinished(event)),
        ensures
            step_of(*final(self), final(shared)@, final(actions)@) == spec_prompt_finished(step_of(*old(self), old(shared)@, old(actions)@), event, *config, now as int, now_local),
            final(self).wf(),
    {
        if let BreakSchedulerState::InBreak(info) = self.state {
            if event == info.event {
                shared.end_break_session();
                self.update_state_after_break(event, now);
                self.transition_to_calculating(shared, config, now, now_local, actions);
            }
        }
    }

    fn handle_trigger_event_command(
        &mut self,
        event: SchedulerEvent,
        shared: &mut SharedSchedulerState,
        now: i64,
        actions: &mut Vec<BreakAction>,
    )
        requires
            old(self).wf(),
            schedulable(now as int),
        ensures
            step_of(*final(self), final(shared)@, final(actions)@) == spec_trigger(step_of(*old(self), old(shared)@, old(actions)@), event, now as int),
            final(self).wf(),
    {
        let info = BreakInfo { break_time: now, notification_time: None, event, postpone_count: 0 };
        self.execute_break(info, shared, actions);
    }

    fn first_enabled_schedule(config: &AppConfig) -> (r: Option<usize>)
        ensures
            r matches Some(i) ==> first_enabled_index(config.schedules@) == Some(i as int),
            r is None ==> first_enabled_index(config.schedules@) is None,
    {
        let ghost ss = config.schedules@;
        let mut i: usize = 0;
        while i < config.schedules.len()
            invariant
                i <= config.schedules.len(),
                ss == config.schedules@,
                forall|j: int| 0 <= j < i ==> !(#[trigger] ss[j]).enabled,
            decreases config.schedules.len() - i,
        {
            if config.schedules[i].enabled {
                proof {
                    assert(is_first_enabled(ss, i as int));
                    assert forall|k: int| is_first_enabled(ss, k) implies k == i by {
                        if k < i {
                            assert(!ss[k].enabled);
                        } else if k > i {
                            assert(!ss[i as int].enabled);
                        }
                    }
                }
                return Some(i);
            }
            i += 1;
        }
        proof {
            assert forall|k: int| !is_first_enabled(ss, k) by {
                if 0 <= k < ss.len() {
                    assert(!ss[k].enabled);
                }
            }
        }
        None
    }

    fn handle_trigger_break_now_command(
        &mut self,
        kind: BreakKind,
        shared: &mut SharedSchedulerState,
        config: &AppConfig,
        now: i64,
        now_local: LocalDateTime,
        actions: &mut Vec<BreakAction>,
    )
        requires
            old(self).wf(),
            schedulable(now as int),
            now_local.wf(),
        ensures
            step_of(*final(self), final(shared)@, final(actions)@) == spec_trigger_now(step_of(*old(self), old(shared)@, old(actions)@), kind, *config, now as int, now_local),
            final(self).wf(),
    {
        if let BreakSchedulerState::Paused(_) = self.state {
            return;
        }
        let day = weekday_from_day(now_local.day);
        let idx = match active_schedule_index(config, now_local.secs, day) {
            Some(i) => Some(i),
            None => Self::first_enabled_schedule(config),
        };
        if let Some(i) = idx {
            let s = &config.schedules[i];
            let event = match kind {
                BreakKind::Mini => SchedulerEvent::MiniBreak(s.mini_breaks.base.id),
                BreakKind::Long => SchedulerEvent::LongBreak(s.long_breaks.base.id),
            };
            self.handle_trigger_event_command(event, shared, now, actions);
        }
    }

    fn handle_update_config_command(
        &mut self,
        config: &AppConfig,
        shared: &mut SharedSchedulerState,
        now: i64,
        now_local: LocalDateTime,
        actions: &mut Vec<BreakAction>,
    )
        requires
            decision_ready(*old(self), now as int, now_local),
        ensures
            step_of(*final(self), final(shared)@, final(actions)@) == spec_update_config(step_of(*old(self), old(shared)@, old(actions)@), *config, now as int, now_local),
            final(self).wf(),
    {
        if let BreakSchedulerState::Paused(_) = self.state {
        } else {
            self.transition_to_calculating(shared, config, now, now_local, actions);
        }
    }

    fn emit_current_status(&self, now: i64, actions: &mut Vec<BreakAction>)
        requires
            self.wf(),
            schedulable(now as int),
        ensures
            step_of(*self, SharedStateModel { reasons: Set::empty(), timed_pause_until: None, in_break_session: false, in_attention_session: false }, final(actions)@)
                == spec_current_status(step_of(*self, SharedStateModel { reasons: Set::empty(), timed_pause_until: None, in_break_session: false, in_attention_session: false }, old(actions)@), now as int),
    {
        match &self.state {
            BreakSchedulerState::Paused(_) => {
                actions.push(BreakAction::EmitStatus(StatusReport { paused: true, next_event: None, mini_break_counter: self.mini_break_counter }));
            },
            BreakSchedulerState::Idle | BreakSchedulerState::InBreak(_) => {
                actions.push(BreakAction::EmitStatus(StatusReport { paused: false, next_event: None, mini_break_counter: self.mini_break_counter }));
            },
            BreakSchedulerState::WaitingForNotification(info) | BreakSchedulerState::WaitingForBreak(info) => {
                self.emit_status(info, now, actions);
            },
        }
    }

    /// Starts the scheduler: unless paused, it plans the first break.
    pub fn start(
        &mut self,
        shared: &mut SharedSchedulerState,
        config: &AppConfig,
        now: i64,
        now_local: LocalDateTime,
    ) -> (actions: Vec<BreakAction>)
        requires
            decision_ready(*old(self), now as int, now_local),
        ensures
            step_of(*final(self), final(shared)@, actions@) == spec_start(step_of(*old(self), old(shared)@, Seq::empty()), *config, now as int, now_local),
            final(self).wf(),
    {
        let mut actions: Vec<BreakAction> = Vec::new();
        if let BreakSchedulerState::Paused(_) = self.state {
        } else {
            self.transition_to_calculating(shared, config, now, now_local, &mut actions);
        }
        actions
    }

    /// The timer of the current state fired.
    pub fn on_timer_fired(
        &mut self,
        shared: &mut SharedSchedulerState,
        config: &AppConfig,
        now_local: LocalDateTime,
    ) -> (actions: Vec<BreakAction>)
        requires
            old(self).wf(),
            now_local.wf(),
        ensures
            step_of(*final(self), final(shared)@, actions@) == spec_timer_fired(step_of(*old(self), old(shared)@, Seq::empty()), *config, now_local),
            final(self).wf(),
    {
        let mut actions: Vec<BreakAction> = Vec::new();
        match self.state {
            BreakSchedulerState::WaitingForNotification(info) => {
                self.send_notification(info.event, config, now_local, &mut actions);
                self.state = BreakSchedulerState::WaitingForBreak(info);
            },
            BreakSchedulerState::WaitingForBreak(info) => {
                self.execute_break(info, shared, &mut actions);
            },
            _ => {},
        }
        actions
    }

    /// The prompt windows of the break `event` could not open.
    pub fn on_prompt_windows_failed(
        &mut self,
        event: SchedulerEvent,
        shared: &mut SharedSchedulerState,
        config: &AppConfig,
        now: i64,
        now_local: LocalDateTime,
    ) -> (actions: Vec<BreakAction>)
        requires
            decision_ready(*old(self), now as int, now_local),
            event is MiniBreak ==> old(self).counter_can_grow(),
        ensures
            step_of(*final(self), final(shared)@, actions@) == spec_windows_failed(step_of(*old(self), old(shared)@, Seq::empty()), event, *config, now as int, now_local),
            final(self).wf(),
    {
        let mut actions: Vec<BreakAction> = Vec::new();
        shared.end_break_session();
        self.update_state_after_break(event, now);
        self.transition_to_calculating(shared, config, now, now_local, &mut actions);
        actions
    }

    /// Handles a command at time `now`, whose local reading is `now_local`, under
    /// the configuration `config` (for `UpdateConfig`, the command's own).
    pub fn handle_command(
        &mut self,
        cmd: Command,
        shared: &mut SharedSchedulerState,
        config: &AppConfig,
        now: i64,
        now_local: LocalDateTime,
    ) -> (actions: Vec<BreakAction>)
        requires
            decision_ready(*old(self), now as int, now_local),
            counter_ready(*old(self), cmd),
        ensures
            step_of(*final(self), final(shared)@, actions@) == spec_handle_command(step_of(*old(self), old(shared)@, Seq::empty()), cmd, *config, now as int, now_local),
            final(self).wf(),
    {
        let mut actions: Vec<BreakAction> = Vec::new();
        match cmd {
            Command::Pause(reason) => self.handle_pause_command(reason, shared, config, &mut actions),
            Command::Resume(_) => self.handle_resume_command(shared, config, now, now_local, &mut actions),
            Command::PostponeBreak => self.handle_postpone_break_command(shared, config, now, now_local, &mut actions),
            Command::SkipBreak => self.handle_skip_break_command(shared, config, now, now_local, &mut actions),
            Command::PromptFinished(event) => self.handle_prompt_finished_command(event, shared, config, now, now_local, &mut actions),
            Command::TriggerEvent(event) => self.handle_trigger_event_command(event, shared, now, &mut actions),
            Command::TriggerBreakNow(kind) => self.handle_trigger_break_now_command(kind, shared, config, now, now_local, &mut actions),
            Command::UpdateConfig(new_config) => self.handle_update_config_command(&new_config, shared, now, now_local, &mut actions),
            Command::RequestBreakStatus => self.emit_current_status(now, &mut actions),
            Command::PauseForMinutes(_) | Command::ResumeUserPauses => {},
        }
        actions
    }
}

} // verus!
