//! Properties of the library that span several operations or hold of every state.

use vstd::prelude::*;

use crate::attention_timer::{
    attention_candidates, is_first_min, lemma_attention_candidates, spec_apply_next,
    spec_attention_command, spec_select_earliest, AttentionStep, AttentionTimerState,
};
use crate::break_scheduler::{
    long_break_due, plan_from_schedule, spec_handle_command, spec_next_break, spec_postpone,
    spec_max_postpone_count, state_info, active_index_at, BreakSchedulerState, BreakStep,
};
use crate::config::{AppConfig, AttentionSettings};
use crate::manager::{spec_route, RouteAction};
use crate::attention_timer::{AttentionAction, AttentionInfo, AttentionTimer};
use crate::models::{AttentionId, BreakInfo, Command, PauseReason, PauseReasons, SchedulerEvent};
use crate::shared_state::SharedStateModel;
use crate::monitors::idle::spec_idle_check;
use crate::monitors::{IdleMonitor, MonitorAction};
use crate::time::{is_least_above, LocalDateTime};

verus! {

// ---------------------------------------------------------------------------
// Pause reasons
// ---------------------------------------------------------------------------

/// Pausing for a new reason and then resuming for it restores the reasons.
pub proof fn law_pause_resume_round_trip(reasons: Set<PauseReason>, r: PauseReason)
    requires
        !reasons.contains(r),
    ensures
        reasons.insert(r).remove(r) == reasons,
{
    assert(reasons.insert(r).remove(r) =~= reasons);
}

/// Adding a reason twice is the same as adding it once.
pub proof fn law_pause_idempotent(reasons: Set<PauseReason>, r: PauseReason)
    ensures
        reasons.insert(r).insert(r) == reasons.insert(r),
{
    assert(reasons.insert(r).insert(r) =~= reasons.insert(r));
}

/// The scheduler stays paused while another reason remains: removing one reason
/// resumes only when it was the last.
pub proof fn law_resume_needs_all_reasons_cleared(reasons: Set<PauseReason>, r: PauseReason, other: PauseReason)
    requires
        reasons.contains(other),
        other != r,
    ensures
        (SharedStateModel { reasons: reasons.remove(r), timed_pause_until: None, in_break_session: false, in_attention_session: false }).paused(),
{
    assert(reasons.remove(r).contains(other));
}

/// The pause reasons left after removing the first `k` reasons of `rs`, one by one.
pub open spec fn removed_upto(s: Set<PauseReason>, rs: Seq<PauseReason>, k: nat) -> Set<PauseReason>
    decreases k,
{
    if k == 0 {
        s
    } else {
        removed_upto(s, rs, (k - 1) as nat).remove(rs[k - 1])
    }
}

proof fn lemma_removed_upto_member(s: Set<PauseReason>, rs: Seq<PauseReason>, k: nat, x: PauseReason)
    ensures
        removed_upto(s, rs, k).contains(x) <==> (s.contains(x) && forall|j: int| 0 <= j < k ==> rs[j] != x),
    decreases k,
{
    if k > 0 {
        lemma_removed_upto_member(s, rs, (k - 1) as nat, x);
        if s.contains(x) && (forall|j: int| 0 <= j < k - 1 ==> rs[j] != x) && rs[k - 1] != x {
            assert forall|j: int| 0 <= j < k implies rs[j] != x by {
                if j < k - 1 {
                }
            }
        }
    }
}

/// Removing every pause reason one by one, in any order: the scheduler stays
/// paused until the last one goes, and only that removal resumes it.
pub proof fn law_removing_all_reasons_resumes_at_last(s: Set<PauseReason>, rs: Seq<PauseReason>)
    requires
        rs.no_duplicates(),
        rs.to_set() == s,
        rs.len() > 0,
    ensures
        forall|k: nat| k < rs.len() ==> #[trigger] removed_upto(s, rs, k + 1) == removed_upto(s, rs, k).remove(rs[k as int]),
        forall|k: nat| k < rs.len() ==> #[trigger] removed_upto(s, rs, k) != Set::<PauseReason>::empty(),
        forall|k: nat| k < rs.len() ==> (#[trigger] removed_upto(s, rs, k + 1) == Set::<PauseReason>::empty() <==> k + 1 == rs.len()),
{
    let n = rs.len();
    assert forall|k: nat| k < n implies #[trigger] removed_upto(s, rs, k) != Set::<PauseReason>::empty() by {
        let last = rs[n - 1];
        assert(rs.to_set().contains(last));
        lemma_removed_upto_member(s, rs, k, last);
        assert forall|j: int| 0 <= j < k implies rs[j] != last by {
            assert(j != n - 1);
        }
        assert(removed_upto(s, rs, k).contains(last));
    }
    assert forall|k: nat| k < n implies (#[trigger] removed_upto(s, rs, k + 1) == Set::<PauseReason>::empty() <==> k + 1 == n) by {
        if k + 1 == n {
            assert forall|x: PauseReason| !#[trigger] removed_upto(s, rs, k + 1).contains(x) by {
                lemma_removed_upto_member(s, rs, k + 1, x);
                if s.contains(x) {
                    assert(rs.to_set().contains(x));
                    let j = choose|j: int| 0 <= j < rs.len() && rs[j] == x;
                }
            }
            assert(removed_upto(s, rs, k + 1) =~= Set::<PauseReason>::empty());
        } else {
            assert(removed_upto(s, rs, k + 1) != Set::<PauseReason>::empty());
        }
    }
}

/// The pause reasons after a run of operations from the running state: `(true, r)`
/// adds reason `r`, `(false, r)` removes it.
pub open spec fn reasons_after(ops: Seq<(bool, PauseReason)>) -> Set<PauseReason>
    decreases ops.len(),
{
    if ops.len() == 0 {
        Set::empty()
    } else {
        let prev = reasons_after(ops.drop_last());
        if ops.last().0 {
            prev.insert(ops.last().1)
        } else {
            prev.remove(ops.last().1)
        }
    }
}

/// After any run of adds and removes from a fresh state, the pause reasons are
/// exactly those added and not removed since, and the scheduler is paused exactly
/// while one of them remains.
pub proof fn law_reasons_track_operations(ops: Seq<(bool, PauseReason)>)
    ensures
        forall|r: PauseReason| #[trigger] reasons_after(ops).contains(r) <==> exists|i: int|
            0 <= i < ops.len() && ops[i] == (true, r) && forall|j: int| i < j < ops.len() ==> (#[trigger] ops[j]).1 != r,
        (SharedStateModel { reasons: reasons_after(ops), timed_pause_until: None, in_break_session: false, in_attention_session: false }).paused()
            <==> exists|r: PauseReason| reasons_after(ops).contains(r),
    decreases ops.len(),
{
    if ops.len() > 0 {
        let prev_ops = ops.drop_last();
        law_reasons_track_operations(prev_ops);
        let n = ops.len() - 1;
        assert forall|r: PauseReason| #[trigger] reasons_after(ops).contains(r) <==> exists|i: int|
            0 <= i < ops.len() && ops[i] == (true, r) && forall|j: int| i < j < ops.len() ==> (#[trigger] ops[j]).1 != r by {
            if ops[n].1 == r {
                if ops[n].0 {
                    assert(ops[n] == (true, r));
                } else {
                    assert forall|i: int| 0 <= i < ops.len() && ops[i] == (true, r) implies
                        !(forall|j: int| i < j < ops.len() ==> (#[trigger] ops[j]).1 != r) by {
                        if i < n {
                            assert(ops[n].1 == r);
                        }
                    }
                }
            } else {
                if reasons_after(ops).contains(r) {
                    assert(reasons_after(prev_ops).contains(r));
                    let i = choose|i: int| 0 <= i < prev_ops.len() && prev_ops[i] == (true, r)
                        && forall|j: int| i < j < prev_ops.len() ==> (#[trigger] prev_ops[j]).1 != r;
                    assert(ops[i] == prev_ops[i]);
                    assert forall|j: int| i < j < ops.len() implies (#[trigger] ops[j]).1 != r by {
                        if j < n {
                            assert(ops[j] == prev_ops[j]);
                        }
                    }
                }
                if exists|i: int| 0 <= i < ops.len() && ops[i] == (true, r) && forall|j: int| i < j < ops.len() ==> (#[trigger] ops[j]).1 != r {
                    let i = choose|i: int| 0 <= i < ops.len() && ops[i] == (true, r)
                        && forall|j: int| i < j < ops.len() ==> (#[trigger] ops[j]).1 != r;
                    assert(i != n);
                    assert(prev_ops[i] == ops[i]);
                    assert forall|j: int| i < j < prev_ops.len() implies (#[trigger] prev_ops[j]).1 != r by {
                        assert(prev_ops[j] == ops[j]);
                    }
                    assert(reasons_after(prev_ops).contains(r));
                }
            }
        }
    }
    if !(exists|r: PauseReason| reasons_after(ops).contains(r)) {
        assert(reasons_after(ops) =~= Set::<PauseReason>::empty());
    }
}

/// The number of reasons of a set is the length of its list of reasons, and the list
/// names each reason once.
pub proof fn law_reasons_len_matches_list(p: PauseReasons)
    ensures
        p.spec_active().len() == p@.len(),
        p.spec_active().no_duplicates(),
        p.spec_active().to_set() == p@,
{
    p.lemma_active();
}

// ---------------------------------------------------------------------------
// Command routing
// ---------------------------------------------------------------------------

/// Whether routing sends a resume to the schedulers.
pub open spec fn forwards_resume(actions: Seq<RouteAction>) -> bool {
    exists|i: int, r: PauseReason| 0 <= i < actions.len() && actions[i] == RouteAction::ToBreak(Command::Resume(r))
}

/// Whether routing sends a pause to the schedulers.
pub open spec fn forwards_pause(actions: Seq<RouteAction>) -> bool {
    exists|i: int, r: PauseReason| 0 <= i < actions.len() && actions[i] == RouteAction::ToBreak(Command::Pause(r))
}

/// A resume reaches the schedulers exactly when it clears the last pause reason.
pub proof fn law_route_resume_only_when_cleared(sh: SharedStateModel, r: PauseReason, now: int)
    ensures
        forwards_resume(spec_route(Command::Resume(r), sh, now).1)
            <==> (sh.paused() && !spec_route(Command::Resume(r), sh, now).0.paused()),
{
    let out = spec_route(Command::Resume(r), sh, now);
    if sh.paused() && !out.0.paused() {
        if r == PauseReason::TimedManual {
            assert(out.1[2] == RouteAction::ToBreak(Command::Resume(r)));
        } else {
            assert(out.1[1] == RouteAction::ToBreak(Command::Resume(r)));
        }
    }
}

/// A pause reaches the schedulers exactly when it is the first pause reason.
pub proof fn law_route_pause_only_when_first(sh: SharedStateModel, r: PauseReason, now: int)
    ensures
        forwards_pause(spec_route(Command::Pause(r), sh, now).1) <==> !sh.paused(),
        spec_route(Command::Pause(r), sh, now).0.paused(),
{
    let out = spec_route(Command::Pause(r), sh, now);
    if !sh.paused() {
        assert(out.1[2] == RouteAction::ToBreak(Command::Pause(r)));
    }
    assert(out.0.reasons.contains(r));
}

/// Two pauses followed by the resume of one of them keep the schedulers paused and
/// forward no resume.
pub proof fn law_partial_resume_stays_paused(sh: SharedStateModel, r1: PauseReason, r2: PauseReason, now: int)
    requires
        r1 != r2,
    ensures
        ({
            let s1 = spec_route(Command::Pause(r1), sh, now).0;
            let s2 = spec_route(Command::Pause(r2), s1, now).0;
            let out = spec_route(Command::Resume(r1), s2, now);
            out.0.paused() && !forwards_resume(out.1)
        }),
{
    let s1 = spec_route(Command::Pause(r1), sh, now).0;
    let s2 = spec_route(Command::Pause(r2), s1, now).0;
    let out = spec_route(Command::Resume(r1), s2, now);
    assert(out.0.reasons.contains(r2));
    assert(s2.paused()) by {
        assert(s2.reasons.contains(r2));
    }
}

/// Commands about an attention reach only the attention timer; commands about a
/// break reach only the break scheduler; routing them leaves the shared state alone.
pub proof fn law_event_commands_route_by_kind(sh: SharedStateModel, e: SchedulerEvent, now: int)
    ensures
        spec_route(Command::TriggerEvent(e), sh, now) == (sh, seq![
            if e is Attention { RouteAction::ToAttention(Command::TriggerEvent(e)) } else { RouteAction::ToBreak(Command::TriggerEvent(e)) }
        ]),
        spec_route(Command::PromptFinished(e), sh, now) == (sh, seq![
            if e is Attention { RouteAction::ToAttention(Command::PromptFinished(e)) } else { RouteAction::ToBreak(Command::PromptFinished(e)) }
        ]),
{
}

/// Clearing the user's pauses removes the manual and the timed pause with its
/// deadline, keeps every other reason, and resumes the schedulers exactly when no
/// reason remains after a pause.
pub proof fn law_resume_user_pauses(sh: SharedStateModel, now: int)
    ensures
        ({
            let out = spec_route(Command::ResumeUserPauses, sh, now);
            &&& !out.0.reasons.contains(PauseReason::Manual)
            &&& !out.0.reasons.contains(PauseReason::TimedManual)
            &&& out.0.timed_pause_until is None
            &&& forall|r: PauseReason| r != PauseReason::Manual && r != PauseReason::TimedManual
                    ==> (out.0.reasons.contains(r) <==> sh.reasons.contains(r))
            &&& (forwards_resume(out.1) <==> (sh.paused() && !out.0.paused()))
        }),
{
    let out = spec_route(Command::ResumeUserPauses, sh, now);
    if sh.paused() && !out.0.paused() {
        assert(out.1[2] == RouteAction::ToBreak(Command::Resume(PauseReason::Manual)));
    }
}

/// A timed pause of some minutes sets its deadline that many minutes from now,
/// arms its timer and leaves the scheduler paused; zero minutes does nothing.
pub proof fn law_pause_for_minutes(sh: SharedStateModel, m: u32, now: int)
    ensures
        m == 0 ==> spec_route(Command::PauseForMinutes(m), sh, now) == (sh, Seq::<RouteAction>::empty()),
        m > 0 ==> ({
            let out = spec_route(Command::PauseForMinutes(m), sh, now);
            &&& out.0.paused()
            &&& out.0.reasons.contains(PauseReason::TimedManual)
            &&& out.0.timed_pause_until == Some((now + 60 * m) as i64)
            &&& out.1[0] == RouteAction::ArmTimedPause(m)
        }),
{
    if m > 0 {
        let out = spec_route(Command::PauseForMinutes(m), sh, now);
        assert(out.0.reasons.contains(PauseReason::TimedManual));
    }
}

// ---------------------------------------------------------------------------
// Break planning
// ---------------------------------------------------------------------------

/// A planned break is long exactly when long breaks are enabled and enough mini
/// breaks were taken; it comes one mini break interval after the last break (or
/// after now); its notification, if any, lies strictly between now and the break.
pub proof fn law_break_plan_shape(config: AppConfig, now: int, local: LocalDateTime, counter: u8, last: Option<i64>)
    requires
        last matches Some(t) ==> -10000000000000 <= t <= 10000000000000,
        -10000000000000 <= now <= 10000000000000,
    ensures
        spec_next_break(config, now, local, counter, last) matches Some(info) ==> {
            let s = config.schedules@[active_index_at(config, local).unwrap()];
            &&& (info.event is LongBreak <==> long_break_due(s, counter))
            &&& info.break_time == (match last { Some(t) => t as int, None => now }) + s.mini_breaks.interval_s
            &&& info.postpone_count == 0
            &&& (info.notification_time matches Some(n) ==> now < n <= info.break_time && s.notification_before_s > 0)
        },
        active_index_at(config, local) is None ==> spec_next_break(config, now, local, counter, last) is None,
{
}

/// Postponing never lets a break's postpone count exceed the limit: at the limit
/// nothing moves and the limit is reported; below it the count grows by one.
pub proof fn law_postpone_respects_limit(st: BreakStep, config: AppConfig, now: int, local: LocalDateTime)
    requires
        state_info(st.sched.state) is Some,
    ensures
        ({
            let info = state_info(st.sched.state).unwrap();
            let max = spec_max_postpone_count(st.sched.state, config, local);
            let out = spec_postpone(st, config, now, local);
            if info.postpone_count >= max {
                out.sched == st.sched && out.shared == st.shared
            } else {
                &&& state_info(out.sched.state) matches Some(new_info)
                &&& new_info.postpone_count == info.postpone_count + 1
                &&& new_info.postpone_count <= max
                &&& out.sched.state is WaitingForBreak
            }
        }),
{
}

/// Pausing always ends the break session, whatever the state, as the break
/// windows close.
pub proof fn law_pause_ends_break_session(st: BreakStep, r: PauseReason, config: AppConfig, now: int, local: LocalDateTime)
    ensures
        !spec_handle_command(st, Command::Pause(r), config, now, local).shared.in_break_session,
        spec_handle_command(st, Command::Pause(r), config, now, local).sched.state == BreakSchedulerState::Paused(r),
{
}

/// A configuration update while paused keeps the break scheduler paused and does
/// nothing else.
pub proof fn law_update_config_while_paused(st: BreakStep, c: AppConfig, config: AppConfig, now: int, local: LocalDateTime)
    requires
        st.sched.state is Paused,
    ensures
        spec_handle_command(st, Command::UpdateConfig(c), config, now, local) == st,
{
}

/// The break session is open exactly while the scheduler is in a break, and every
/// command except a configuration update during a break keeps it so.
pub proof fn law_session_tracks_break(st: BreakStep, cmd: Command, config: AppConfig, now: int, local: LocalDateTime)
    requires
        st.shared.in_break_session == (st.sched.state is InBreak),
        !(cmd is UpdateConfig && st.sched.state is InBreak),
    ensures
        ({
            let out = spec_handle_command(st, cmd, config, now, local);
            out.shared.in_break_session == (out.sched.state is InBreak)
        }),
{
}

/// A finished mini break counts one more mini break; a finished long break resets
/// the count; the cycle restarts from the end of the break.
pub proof fn law_prompt_finished_counts_breaks(st: BreakStep, info: BreakInfo, config: AppConfig, now: int, local: LocalDateTime)
    requires
        st.sched.state == BreakSchedulerState::InBreak(info),
        st.sched.mini_break_counter < 255,
        -10000000000000 <= now <= 10000000000000,
    ensures
        ({
            let out = spec_handle_command(st, Command::PromptFinished(info.event), config, now, local);
            &&& out.sched.last_break_time == Some(now as i64)
            &&& (info.event is MiniBreak ==> out.sched.mini_break_counter == st.sched.mini_break_counter + 1)
            &&& (info.event is LongBreak ==> out.sched.mini_break_counter == 0)
        }),
{
}

// ---------------------------------------------------------------------------
// Attention reminders
// ---------------------------------------------------------------------------

/// Every candidate occurrence of an attention reminder lies after the current
/// local time: today's candidate is later in the day, the others on later days.
pub proof fn law_attention_candidates_after_now(a: AttentionSettings, now: LocalDateTime)
    requires
        now.wf(),
    ensures
        forall|j: int| 0 <= j < attention_candidates(a, now).len() ==> {
            let c = #[trigger] attention_candidates(a, now)[j];
            (j == 0 && c.0 == now.day && c.1 > now.secs) || c.0 * 86400 + c.1 > now.naive_seconds()
        },
        !a.enabled || a.times.times@.len() == 0 || a.days_of_week@.len() == 0 ==> attention_candidates(a, now).len() == 0,
{
    crate::attention_timer::lemma_candidates_after_now(a, now);
    assert forall|j: int| 0 <= j < attention_candidates(a, now).len() implies {
        let c = #[trigger] attention_candidates(a, now)[j];
        (j == 0 && c.0 == now.day && c.1 > now.secs) || c.0 * 86400 + c.1 > now.naive_seconds()
    } by {
        let c = attention_candidates(a, now)[j];
        if c.0 != now.day {
            assert(c.0 >= now.day + 1);
            assert(c.0 * 86400 >= now.day * 86400 + 86400) by (nonlinear_arith)
                requires
                    c.0 >= now.day + 1,
            ;
        }
    }
}

/// The chosen attention is due no later than any other candidate, and on a tie
/// the first listed wins.
pub proof fn law_earliest_attention(s: Seq<(AttentionId, i64)>)
    ensures
        spec_select_earliest(s) matches Some(e) ==> exists|i: int| {
            &&& is_first_min(s, i)
            &&& s[i] == e
            &&& forall|j: int| 0 <= j < s.len() ==> e.1 <= #[trigger] s[j].1
        },
        s.len() > 0 ==> spec_select_earliest(s) is Some,
{
    if s.len() > 0 {
        crate::attention_timer::lemma_first_min_exists(s);
    }
}

/// While paused, the attention timer only changes its pause reason: resuming is
/// the only way out, and a configuration update keeps it paused.
pub proof fn law_attention_pause_holds(st: AttentionStep, cmd: Command, now: int, next: Option<(AttentionId, i64)>)
    requires
        st.timer.state is Paused,
        !(cmd is Resume),
        !(cmd matches Command::TriggerEvent(SchedulerEvent::Attention(_))),
        !(cmd matches Command::PromptFinished(SchedulerEvent::Attention(_))),
    ensures
        spec_attention_command(st, cmd, now, next).timer.state is Paused,
        spec_attention_command(st, cmd, now, next).actions == st.actions,
{
}

// ---------------------------------------------------------------------------
// Monitors
// ---------------------------------------------------------------------------

/// A run of the idle monitor: at each step the threshold is set, then one reading
/// is checked. The result is the monitor after the run and the pause and resume
/// actions it gave, in order.
pub open spec fn idle_run(m: IdleMonitor, steps: Seq<(u32, Result<u64, String>)>) -> (IdleMonitor, Seq<MonitorAction>)
    decreases steps.len(),
{
    if steps.len() == 0 {
        (m, Seq::empty())
    } else {
        let prev = idle_run(m, steps.drop_last());
        let step = steps.last();
        let out = spec_idle_check(IdleMonitor { inactive_threshold_s: step.0, ..prev.0 }, step.1);
        (out.0, match out.1 {
            Ok(MonitorAction::NoAction) => prev.1,
            Ok(a) => prev.1.push(a),
            Err(_) => prev.1,
        })
    }
}

/// Across any run of readings and threshold changes of an idle monitor that has
/// not seen the user idle, its actions alternate, starting with a pause:
/// pause, resume, pause, ...
pub proof fn law_idle_actions_alternate(m: IdleMonitor, steps: Seq<(u32, Result<u64, String>)>)
    requires
        !m.was_idle,
    ensures
        forall|i: int| 0 <= i < idle_run(m, steps).1.len() ==> #[trigger] idle_run(m, steps).1[i] == (if i % 2 == 0 {
            MonitorAction::Pause(PauseReason::UserIdle)
        } else {
            MonitorAction::Resume(PauseReason::UserIdle)
        }),
        idle_run(m, steps).0.was_idle == (idle_run(m, steps).1.len() % 2 == 1),
    decreases steps.len(),
{
    if steps.len() > 0 {
        law_idle_actions_alternate(m, steps.drop_last());
        let prev = idle_run(m, steps.drop_last());
        let acts = idle_run(m, steps).1;
        assert forall|i: int| 0 <= i < acts.len() implies #[trigger] acts[i] == (if i % 2 == 0 {
            MonitorAction::Pause(PauseReason::UserIdle)
        } else {
            MonitorAction::Resume(PauseReason::UserIdle)
        }) by {
            if i < prev.1.len() {
                assert(acts[i] == prev.1[i]);
            }
        }
    }
}

// ---------------------------------------------------------------------------
// Break scheduler: what each operation does to its inputs
// ---------------------------------------------------------------------------

/// Whatever its kind, a planned break is announced `notification_before_s`
/// seconds ahead whenever the applying schedule asks for a notification and that
/// moment still lies after now.
pub proof fn law_notification_for_every_break(config: AppConfig, now: int, local: LocalDateTime, counter: u8, last: Option<i64>)
    requires
        last matches Some(t) ==> -10000000000000 <= t <= 10000000000000,
        -10000000000000 <= now <= 10000000000000,
    ensures
        spec_next_break(config, now, local, counter, last) matches Some(info) ==> {
            let s = config.schedules@[active_index_at(config, local).unwrap()];
            (s.notification_before_s > 0 && info.break_time - s.notification_before_s > now)
                ==> info.notification_time == Some((info.break_time - s.notification_before_s) as i64)
        },
{
}

/// Postponing a held break below its limit moves it by the postpone duration of
/// its own kind in the applying schedule: from its planned time while it is
/// upcoming, from now while it is on screen.
pub proof fn law_postpone_by_break_kind(st: BreakStep, config: AppConfig, now: int, local: LocalDateTime)
    requires
        state_info(st.sched.state) is Some,
        active_index_at(config, local) is Some,
        -10000000000000 <= now <= 10000000000000,
        -10000000000000 <= state_info(st.sched.state).unwrap().break_time <= 10000000000000,
    ensures
        ({
            let info = state_info(st.sched.state).unwrap();
            let s = config.schedules@[active_index_at(config, local).unwrap()];
            let out = spec_handle_command(st, Command::PostponeBreak, config, now, local);
            let from = if st.sched.state is InBreak { now } else { info.break_time as int };
            &&& (info.event is LongBreak && info.postpone_count < s.long_breaks.base.max_postpone_count) ==>
                    state_info(out.sched.state) == Some(BreakInfo {
                        break_time: (from + s.long_breaks.base.postponed_s) as i64,
                        notification_time: None,
                        postpone_count: (info.postpone_count + 1) as u8,
                        ..info
                    })
            &&& (info.event is MiniBreak && info.postpone_count < s.mini_breaks.base.max_postpone_count) ==>
                    state_info(out.sched.state) == Some(BreakInfo {
                        break_time: (from + s.mini_breaks.base.postponed_s) as i64,
                        notification_time: None,
                        postpone_count: (info.postpone_count + 1) as u8,
                        ..info
                    })
        }),
{
}

/// Skipping a held break counts it as taken: a skipped long break resets the mini
/// break counter, a skipped mini break adds one, and the cycle restarts from now.
pub proof fn law_skip_counts_break(st: BreakStep, config: AppConfig, now: int, local: LocalDateTime)
    requires
        state_info(st.sched.state) is Some,
        st.sched.mini_break_counter < 255,
        -10000000000000 <= now <= 10000000000000,
    ensures
        ({
            let info = state_info(st.sched.state).unwrap();
            let out = spec_handle_command(st, Command::SkipBreak, config, now, local);
            &&& out.sched.last_break_time == Some(now as i64)
            &&& (info.event is LongBreak ==> out.sched.mini_break_counter == 0)
            &&& (info.event is MiniBreak ==> out.sched.mini_break_counter == st.sched.mini_break_counter + 1)
        }),
{
}

/// Resuming a paused break scheduler, whatever the pause reason, restarts the
/// break cycle from now: the last break time becomes now, and a mini break planned
/// from the applying schedule is due one mini break interval later.
pub proof fn law_resume_restarts_cycle(st: BreakStep, r: PauseReason, config: AppConfig, now: int, local: LocalDateTime)
    requires
        st.sched.state is Paused,
        -10000000000000 <= now <= 10000000000000,
    ensures
        ({
            let out = spec_handle_command(st, Command::Resume(r), config, now, local);
            &&& out.sched.last_break_time == Some(now as i64)
            &&& (active_index_at(config, local) is Some && state_info(out.sched.state) is Some ==>
                    state_info(out.sched.state).unwrap().break_time
                        == now + config.schedules@[active_index_at(config, local).unwrap()].mini_breaks.interval_s)
        }),
{
}

// ---------------------------------------------------------------------------
// Attention timer: configuration updates
// ---------------------------------------------------------------------------

/// A configuration update on a timer that is not paused replaces whatever it was
/// waiting for by the attention planned from the new configuration: it waits for a
/// future one, shows one that is due, and is idle without one.
pub proof fn law_update_config_replans_attention(st: AttentionStep, c: AppConfig, now: int, next: Option<(AttentionId, i64)>)
    requires
        !(st.timer.state is Paused),
    ensures
        ({
            let out = spec_attention_command(st, Command::UpdateConfig(c), now, next);
            match next {
                None => out.timer.state == AttentionTimerState::Idle && out.actions == st.actions,
                Some(e) => if e.1 > now {
                    &&& out.timer.state == AttentionTimerState::WaitingForAttention(AttentionInfo { attention_id: e.0, attention_time: e.1 })
                    &&& out.actions == st.actions
                } else {
                    &&& out.shared.in_attention_session
                    &&& out.actions == st.actions.push(AttentionAction::CreatePromptWindows(SchedulerEvent::Attention(e.0))).push(AttentionAction::Recalculate)
                },
            }
        }),
{
}

/// Resuming a paused timer, or finishing an attention prompt, plans from the
/// attention given: it waits for a future one, shows one that is due, and is idle
/// without one; a finished prompt also ends the attention session first.
pub proof fn law_attention_replans_after_resume_or_prompt(st: AttentionStep, cmd: Command, now: int, next: Option<(AttentionId, i64)>)
    requires
        (cmd is Resume && st.timer.state is Paused) || cmd matches Command::PromptFinished(SchedulerEvent::Attention(_)),
    ensures
        ({
            let out = spec_attention_command(st, cmd, now, next);
            &&& (cmd is PromptFinished && !(next matches Some(e) && e.1 <= now)) ==> !out.shared.in_attention_session
            &&& match next {
                None => out.timer.state == AttentionTimerState::Idle && out.actions == st.actions,
                Some(e) => if e.1 > now {
                    &&& out.timer.state == AttentionTimerState::WaitingForAttention(AttentionInfo { attention_id: e.0, attention_time: e.1 })
                    &&& out.actions == st.actions
                } else {
                    &&& out.shared.in_attention_session
                    &&& out.actions == st.actions.push(AttentionAction::CreatePromptWindows(SchedulerEvent::Attention(e.0))).push(AttentionAction::Recalculate)
                },
            }
        }),
{
}

} // verus!
