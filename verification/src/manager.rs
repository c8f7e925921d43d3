//! Command routing between the outside world and the two schedulers.
//!
//! Pause and resume commands update the shared pause reasons first: only the
//! first reason pauses the schedulers and only clearing the last one resumes
//! them. A timed pause sets its deadline and arms a timer; clearing the user's
//! pauses removes the manual and the timed pause at once. Configuration updates go
//! to both schedulers; event commands go to the scheduler their event belongs to;
//! break commands go to the break scheduler.

use vstd::prelude::*;

use crate::models::{Command, PauseReason, SchedulerEvent, StatusReport};
use crate::shared_state::{SharedSchedulerState, SharedStateModel};
use crate::time::schedulable;

verus! {

/// Work the caller performs for one routed command, in order.
#[derive(Debug, Clone)]
pub enum RouteAction {
    /// Send the command to the break scheduler.
    ToBreak(Command),
    /// Send the command to the attention timer.
    ToAttention(Command),
    /// Send the command to the break scheduler, then to the attention timer.
    ToBoth(Command),
    /// Emit a `scheduler-status` event.
    EmitStatus(StatusReport),
    /// Emit a `scheduler-paused` event.
    EmitPaused,
    /// Emit a `scheduler-resumed` event.
    EmitResumed,
    /// Arm the timer of a timed pause for the given number of minutes.
    ArmTimedPause(u32),
    /// Disarm the timer of a timed pause.
    DisarmTimedPause,
}

/// The status snapshot of the pause state: no next event and no counter.
pub open spec fn pause_report(sh: SharedStateModel) -> StatusReport {
    StatusReport { paused: sh.paused(), next_event: None, mini_break_counter: 0 }
}

/// Adds a pause reason: the first one pauses the schedulers.
pub open spec fn spec_route_pause(r: PauseReason, sh: SharedStateModel) -> (SharedStateModel, Seq<RouteAction>) {
    let sh2 = SharedStateModel { reasons: sh.reasons.insert(r), ..sh };
    if !sh.paused() {
        (sh2, seq![
            RouteAction::EmitStatus(pause_report(sh2)),
            RouteAction::EmitPaused,
            RouteAction::ToBreak(Command::Pause(r)),
            RouteAction::ToAttention(Command::Pause(r)),
        ])
    } else {
        (sh2, seq![RouteAction::EmitStatus(pause_report(sh2))])
    }
}

/// Once the last reason is gone: the schedulers resume, told the given reason;
/// while reasons remain, the paused status is emitted.
pub open spec fn resume_or_status(r: PauseReason, before: SharedStateModel, after: SharedStateModel) -> Seq<RouteAction> {
    if before.paused() && !after.paused() {
        seq![
            RouteAction::EmitResumed,
            RouteAction::ToBreak(Command::Resume(r)),
            RouteAction::ToAttention(Command::Resume(r)),
        ]
    } else {
        seq![RouteAction::EmitStatus(pause_report(after))]
    }
}

/// Removes a pause reason; removing the timed pause also clears its deadline and
/// disarms its timer.
pub open spec fn spec_route_resume(r: PauseReason, sh: SharedStateModel) -> (SharedStateModel, Seq<RouteAction>) {
    let sh2 = SharedStateModel {
        reasons: sh.reasons.remove(r),
        timed_pause_until: if r == PauseReason::TimedManual { None } else { sh.timed_pause_until },
        ..sh
    };
    let disarm = if r == PauseReason::TimedManual { seq![RouteAction::DisarmTimedPause] } else { Seq::empty() };
    (sh2, disarm + resume_or_status(r, sh, sh2))
}

/// The shared state and the actions of routing a command at time `now`.
pub open spec fn spec_route(cmd: Command, sh: SharedStateModel, now: int) -> (SharedStateModel, Seq<RouteAction>) {
    match cmd {
        Command::Pause(r) => spec_route_pause(r, sh),
        Command::Resume(r) => spec_route_resume(r, sh),
        Command::ResumeUserPauses => {
            let sh2 = SharedStateModel {
                reasons: sh.reasons.remove(PauseReason::Manual).remove(PauseReason::TimedManual),
                timed_pause_until: None,
                ..sh
            };
            (sh2, seq![RouteAction::DisarmTimedPause] + resume_or_status(PauseReason::Manual, sh, sh2))
        },
        Command::PauseForMinutes(m) => if m == 0 {
            (sh, Seq::empty())
        } else {
            let sh1 = SharedStateModel { timed_pause_until: Some((now + 60 * m) as i64), ..sh };
            let out = spec_route_pause(PauseReason::TimedManual, sh1);
            (out.0, seq![RouteAction::ArmTimedPause(m)] + out.1)
        },
        Command::UpdateConfig(_) => (sh, seq![RouteAction::ToBoth(cmd)]),
        Command::TriggerEvent(e) => (sh, seq![route_by_event(cmd, e)]),
        Command::PromptFinished(e) => (sh, seq![route_by_event(cmd, e)]),
        _ => (sh, seq![RouteAction::ToBreak(cmd)]),
    }
}

/// Breaks go to the break scheduler, attentions to the attention timer.
pub open spec fn route_by_event(cmd: Command, e: SchedulerEvent) -> RouteAction {
    match e {
        SchedulerEvent::Attention(_) => RouteAction::ToAttention(cmd),
        _ => RouteAction::ToBreak(cmd),
    }
}

/// Whether a timed pause has expired: it is armed, and its monotonic deadline or
/// its wall-clock deadline has been reached. The wall clock catches up after a
/// system sleep, during which the monotonic clock may stand still.
pub fn timed_pause_expired(mono_deadline: Option<u64>, mono_now: u64, wall_until: Option<i64>, wall_now: i64) -> (r: bool)
    ensures
        r == (mono_deadline matches Some(d) && (mono_now >= d || (wall_until matches Some(u) && wall_now >= u))),
{
    match mono_deadline {
        None => false,
        Some(d) => mono_now >= d || match wall_until {
            Some(u) => wall_now >= u,
            None => false,
        },
    }
}

fn emit_paused_status(shared: &SharedSchedulerState, actions: &mut Vec<RouteAction>)
    ensures
        final(actions)@ == old(actions)@.push(RouteAction::EmitStatus(pause_report(shared@))),
{
    actions.push(RouteAction::EmitStatus(StatusReport { paused: shared.is_paused(), next_event: None, mini_break_counter: 0 }));
}

fn handle_pause_command(reason: PauseReason, shared: &mut SharedSchedulerState, actions: &mut Vec<RouteAction>)
    ensures
        ({
            let out = spec_route_pause(reason, old(shared)@);
            final(shared)@ == out.0 && final(actions)@ == old(actions)@ + out.1
        }),
{
    let should_pause = shared.add_pause_reason(reason);
    if should_pause {
        emit_paused_status(shared, actions);
        actions.push(RouteAction::EmitPaused);
        actions.push(RouteAction::ToBreak(Command::Pause(reason)));
        actions.push(RouteAction::ToAttention(Command::Pause(reason)));
    } else {
        emit_paused_status(shared, actions);
    }
    proof {
        assert(final(actions)@ =~= old(actions)@ + spec_route_pause(reason, old(shared)@).1);
    }
}

fn resume_schedulers(reason: PauseReason, actions: &mut Vec<RouteAction>)
    ensures
        final(actions)@ == old(actions)@ + seq![
            RouteAction::EmitResumed,
            RouteAction::ToBreak(Command::Resume(reason)),
            RouteAction::ToAttention(Command::Resume(reason)),
        ],
{
    actions.push(RouteAction::EmitResumed);
    actions.push(RouteAction::ToBreak(Command::Resume(reason)));
    actions.push(RouteAction::ToAttention(Command::Resume(reason)));
}

fn handle_resume_command(reason: PauseReason, shared: &mut SharedSchedulerState, actions: &mut Vec<RouteAction>)
    requires
        old(actions)@.len() == 0,
    ensures
        (final(shared)@, final(actions)@) == spec_route_resume(reason, old(shared)@),
{
    if reason == PauseReason::TimedManual {
        actions.push(RouteAction::DisarmTimedPause);
    }
    let ghost before = shared@;
    let should_resume = shared.remove_pause_reason(reason);
    if should_resume {
        resume_schedulers(reason, actions);
    } else {
        emit_paused_status(shared, actions);
    }
    proof {
        assert(actions@ =~= spec_route_resume(reason, before).1);
    }
}

fn handle_resume_user_pauses(shared: &mut SharedSchedulerState, actions: &mut Vec<RouteAction>)
    requires
        old(actions)@.len() == 0,
    ensures
        (final(shared)@, final(actions)@) == spec_route(Command::ResumeUserPauses, old(shared)@, 0),
{
    actions.push(RouteAction::DisarmTimedPause);
    let ghost before = shared@;
    let was_paused = shared.is_paused();
    shared.remove_pause_reason(PauseReason::Manual);
    shared.remove_pause_reason(PauseReason::TimedManual);
    if was_paused && !shared.is_paused() {
        resume_schedulers(PauseReason::Manual, actions);
    } else {
        emit_paused_status(shared, actions);
    }
    proof {
        assert(actions@ =~= spec_route(Command::ResumeUserPauses, before, 0).1);
    }
}

fn handle_pause_for_minutes(minutes: u32, shared: &mut SharedSchedulerState, now: i64, actions: &mut Vec<RouteAction>)
    requires
        old(actions)@.len() == 0,
        schedulable(now as int),
    ensures
        (final(shared)@, final(actions)@) == spec_route(Command::PauseForMinutes(minutes), old(shared)@, now as int),
{
    if minutes == 0 {
        return;
    }
    let until = now + 60 * (minutes as i64);
    shared.set_timed_pause_until(Some(until));
    actions.push(RouteAction::ArmTimedPause(minutes));
    handle_pause_command(PauseReason::TimedManual, shared, actions);
}

fn route_event_command(cmd: Command, event: SchedulerEvent) -> (a: RouteAction)
    ensures
        a == route_by_event(cmd, event),
{
    match event {
        SchedulerEvent::MiniBreak(_) | SchedulerEvent::LongBreak(_) => RouteAction::ToBreak(cmd),
        SchedulerEvent::Attention(_) => RouteAction::ToAttention(cmd),
    }
}

/// The coordinator of the break scheduler and the attention timer: it routes the
/// commands from outside to them.
pub struct SchedulerManager;

impl SchedulerManager {
    /// Routes one command at time `now` (UTC seconds, used by a timed pause):
    /// updates the shared pause state and returns what to send, emit and arm.
    pub fn route_command(cmd: Command, shared: &mut SharedSchedulerState, now: i64) -> (actions: Vec<RouteAction>)
        requires
            cmd is PauseForMinutes ==> schedulable(now as int),
        ensures
            (final(shared)@, actions@) == spec_route(cmd, old(shared)@, now as int),
    {
        let mut actions: Vec<RouteAction> = Vec::new();
        match cmd {
            Command::Pause(reason) => handle_pause_command(reason, shared, &mut actions),
            Command::Resume(reason) => handle_resume_command(reason, shared, &mut actions),
            Command::ResumeUserPauses => handle_resume_user_pauses(shared, &mut actions),
            Command::PauseForMinutes(minutes) => handle_pause_for_minutes(minutes, shared, now, &mut actions),
            Command::UpdateConfig(_) => actions.push(RouteAction::ToBoth(cmd)),
            Command::TriggerEvent(event) => actions.push(route_event_command(cmd, event)),
            Command::PromptFinished(event) => actions.push(route_event_command(cmd, event)),
            Command::RequestBreakStatus | Command::PostponeBreak | Command::SkipBreak | Command::TriggerBreakNow(_) => {
                actions.push(RouteAction::ToBreak(cmd))
            },
        }
        proof {
            assert(actions@ =~= spec_route(cmd, old(shared)@, now as int).1);
        }
        actions
    }
}

} // verus!
