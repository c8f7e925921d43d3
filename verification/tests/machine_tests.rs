use focust::attention_timer::{AttentionAction, AttentionInfo, AttentionTimer, AttentionTimerState};
use focust::break_scheduler::{BreakAction, BreakScheduler, BreakSchedulerState, BreakType};
use focust::config::{AppConfig, AppExclusion, AttentionSettings};
use focust::manager::{timed_pause_expired, RouteAction, SchedulerManager};
use focust::models::{AttentionId, BreakId, BreakKind, Command, PauseReason, SchedulerEvent, StatusReport};
use focust::monitors::app_whitelist::ProcessInfo;
use focust::monitors::{
    action_to_command, due_monitors, shortest_interval, AppWhitelistMonitor, DndMonitor, IdleMonitor, Monitor, MonitorAction, MonitorError,
    CHECK_INTERVAL_SECS,
};
use focust::shared_state::SharedSchedulerState;
use focust::test_helpers::{all_weekdays, naive_time, TestConfigBuilder};
use focust::time::{LocalDateTime, ShortTimes};

// Wednesday 2025-09-03 (day 20334 from 1970-01-01), 10:00 local reading.
const DAY: i64 = 20334;
const NOW: i64 = 1_756_893_600;

fn at(secs_after: i64) -> (i64, LocalDateTime) {
    (NOW + secs_after, LocalDateTime { day: DAY, secs: (36000 + secs_after) as u32 })
}

fn config_with(interval: u32, notif: u32) -> AppConfig {
    TestConfigBuilder::new().mini_break_interval_s(interval).notification_before_s(notif).build()
}

fn status_of(actions: &[BreakAction]) -> Option<StatusReport> {
    actions.iter().rev().find_map(|a| match a {
        BreakAction::EmitStatus(s) => Some(*s),
        _ => None,
    })
}

// ---------------------------------------------------------------------------
// Break scheduler
// ---------------------------------------------------------------------------

#[test]
fn break_scheduler_starts_waiting_for_notification() {
    let config = config_with(600, 30);
    let mut shared = SharedSchedulerState::new();
    let mut s = BreakScheduler::new();
    assert_eq!(s.get_state(), "Idle");
    let (now, local) = at(0);
    let actions = s.start(&mut shared, &config, now, local);
    match s.state {
        BreakSchedulerState::WaitingForNotification(info) => {
            assert_eq!(info.break_time, NOW + 600);
            assert_eq!(info.notification_time, Some(NOW + 570));
            assert_eq!(info.event, SchedulerEvent::MiniBreak(BreakId(1)));
        }
        other => panic!("unexpected state {:?}", other),
    }
    assert_eq!(s.get_state(), "WaitingForNotification");
    assert_eq!(s.get_duration_for_current_state(now), Some(570));
    let status = status_of(&actions).unwrap();
    assert!(!status.paused);
    assert_eq!(status.next_event.unwrap().seconds_until, 600);
    assert_eq!(status.next_event.unwrap().time, NOW + 600);
}

#[test]
fn complete_break_cycle_counts_mini_break() {
    let config = config_with(600, 30);
    let mut shared = SharedSchedulerState::new();
    let mut s = BreakScheduler::new();
    let (now, local) = at(0);
    s.start(&mut shared, &config, now, local);

    let (_, local) = at(570);
    let actions = s.on_timer_fired(&mut shared, &config, local);
    assert_eq!(
        actions,
        vec![BreakAction::SendNotification { break_type: BreakType::MiniBreak, notification_before_s: 30 }]
    );
    assert_eq!(s.get_state(), "WaitingForBreak");

    let (_, local) = at(600);
    let actions = s.on_timer_fired(&mut shared, &config, local);
    let event = SchedulerEvent::MiniBreak(BreakId(1));
    assert_eq!(
        actions,
        vec![BreakAction::EmitEvent(event), BreakAction::CreatePromptWindows { event, postpone_count: 0 }]
    );
    assert!(shared.in_break_session());
    assert_eq!(s.get_state(), "InBreak(MiniBreak(1))");

    let (now, local) = at(620);
    s.handle_command(Command::PromptFinished(event), &mut shared, &config, now, local);
    assert!(!shared.in_break_session());
    assert_eq!(s.get_mini_break_counter(), 1);
    assert_eq!(s.get_last_break_time(), Some(NOW + 620));
    match s.state {
        BreakSchedulerState::WaitingForNotification(info) => assert_eq!(info.break_time, NOW + 1220),
        other => panic!("unexpected state {:?}", other),
    }
}

#[test]
fn long_break_resets_counter() {
    let config = config_with(600, 0);
    let mut shared = SharedSchedulerState::new();
    let mut s = BreakScheduler { state: BreakSchedulerState::Idle, mini_break_counter: 4, last_break_time: None };
    let (now, local) = at(0);
    s.start(&mut shared, &config, now, local);
    let info = match s.state {
        BreakSchedulerState::WaitingForBreak(info) => info,
        other => panic!("unexpected state {:?}", other),
    };
    assert_eq!(info.event, SchedulerEvent::LongBreak(BreakId(2)));
    let (_, local) = at(600);
    s.on_timer_fired(&mut shared, &config, local);
    let (now, local) = at(900);
    s.handle_command(Command::PromptFinished(info.event), &mut shared, &config, now, local);
    assert_eq!(s.get_mini_break_counter(), 0);
}

#[test]
fn postpone_moves_break_and_respects_limit() {
    let config = TestConfigBuilder::new().mini_break_interval_s(600).postpone_settings(1, 120).build();
    let mut shared = SharedSchedulerState::new();
    let mut s = BreakScheduler::new();
    let (now, local) = at(0);
    s.start(&mut shared, &config, now, local);

    let actions = s.handle_command(Command::PostponeBreak, &mut shared, &config, now, local);
    match s.state {
        BreakSchedulerState::WaitingForBreak(info) => {
            assert_eq!(info.break_time, NOW + 720);
            assert_eq!(info.postpone_count, 1);
            assert_eq!(info.notification_time, None);
        }
        other => panic!("unexpected state {:?}", other),
    }
    assert_eq!(status_of(&actions).unwrap().next_event.unwrap().seconds_until, 720);

    let before = s;
    let actions = s.handle_command(Command::PostponeBreak, &mut shared, &config, now, local);
    assert_eq!(actions, vec![BreakAction::EmitPostponeLimitReached]);
    assert_eq!(s, before);
}

#[test]
fn postpone_during_break_closes_windows() {
    let config = config_with(600, 0);
    let mut shared = SharedSchedulerState::new();
    let mut s = BreakScheduler::new();
    let (now, local) = at(0);
    let event = SchedulerEvent::MiniBreak(BreakId(1));
    s.handle_command(Command::TriggerEvent(event), &mut shared, &config, now, local);
    assert!(shared.in_break_session());
    let (now, local) = at(5);
    let actions = s.handle_command(Command::PostponeBreak, &mut shared, &config, now, local);
    assert_eq!(actions[0], BreakAction::CloseBreakWindows);
    assert!(!shared.in_break_session());
    match s.state {
        BreakSchedulerState::WaitingForBreak(info) => {
            assert_eq!(info.break_time, NOW + 5 + 300);
            assert_eq!(info.postpone_count, 1);
        }
        other => panic!("unexpected state {:?}", other),
    }
}

#[test]
fn skip_break_counts_as_taken() {
    let config = config_with(600, 0);
    let mut shared = SharedSchedulerState::new();
    let mut s = BreakScheduler::new();
    let (now, local) = at(0);
    s.start(&mut shared, &config, now, local);
    let (now, local) = at(100);
    let actions = s.handle_command(Command::SkipBreak, &mut shared, &config, now, local);
    assert_eq!(actions[0], BreakAction::CloseBreakWindows);
    assert_eq!(s.get_mini_break_counter(), 1);
    assert_eq!(s.get_last_break_time(), Some(NOW + 100));
    match s.state {
        BreakSchedulerState::WaitingForBreak(info) => assert_eq!(info.break_time, NOW + 700),
        other => panic!("unexpected state {:?}", other),
    }
}

#[test]
fn pause_and_resume_break_scheduler() {
    let config = config_with(600, 0);
    let mut shared = SharedSchedulerState::new();
    let mut s = BreakScheduler::new();
    let (now, local) = at(0);
    s.start(&mut shared, &config, now, local);
    let actions = s.handle_command(Command::Pause(PauseReason::UserIdle), &mut shared, &config, now, local);
    assert_eq!(s.state, BreakSchedulerState::Paused(PauseReason::UserIdle));
    assert_eq!(s.get_state(), "Paused(UserIdle)");
    assert_eq!(s.get_last_break_time(), None);
    assert!(status_of(&actions).unwrap().paused);
    assert_eq!(s.get_duration_for_current_state(now), None);

    let (now, local) = at(1000);
    s.handle_command(Command::Resume(PauseReason::UserIdle), &mut shared, &config, now, local);
    assert_eq!(s.get_last_break_time(), Some(NOW + 1000));
    match s.state {
        BreakSchedulerState::WaitingForBreak(info) => assert_eq!(info.break_time, NOW + 1600),
        other => panic!("unexpected state {:?}", other),
    }
}

#[test]
fn manual_pause_keeps_cycle_reference() {
    let config = config_with(600, 0);
    let mut shared = SharedSchedulerState::new();
    let mut s = BreakScheduler { state: BreakSchedulerState::Idle, mini_break_counter: 2, last_break_time: Some(NOW - 50) };
    let (now, local) = at(0);
    s.handle_command(Command::Pause(PauseReason::Manual), &mut shared, &config, now, local);
    assert_eq!(s.get_last_break_time(), Some(NOW - 50));
    assert_eq!(s.get_mini_break_counter(), 2);
}

#[test]
fn config_update_while_paused_stays_paused() {
    let config = config_with(600, 0);
    let mut shared = SharedSchedulerState::new();
    let mut s = BreakScheduler::new();
    let (now, local) = at(0);
    s.handle_command(Command::Pause(PauseReason::Manual), &mut shared, &config, now, local);
    let new_config = config_with(60, 0);
    let actions = s.handle_command(Command::UpdateConfig(new_config), &mut shared, &config, now, local);
    assert!(actions.is_empty());
    assert_eq!(s.state, BreakSchedulerState::Paused(PauseReason::Manual));
}

#[test]
fn config_update_replans_with_new_interval() {
    let config = config_with(600, 0);
    let mut shared = SharedSchedulerState::new();
    let mut s = BreakScheduler::new();
    let (now, local) = at(0);
    s.start(&mut shared, &config, now, local);
    let new_config = config_with(60, 0);
    s.handle_command(Command::UpdateConfig(new_config), &mut shared, &config, now, local);
    match s.state {
        BreakSchedulerState::WaitingForBreak(info) => assert_eq!(info.break_time, NOW + 60),
        other => panic!("unexpected state {:?}", other),
    }
}

#[test]
fn scheduler_idle_outside_schedule_and_status_request() {
    let config = TestConfigBuilder::new().schedule_enabled(false).build();
    let mut shared = SharedSchedulerState::new();
    let mut s = BreakScheduler::new();
    let (now, local) = at(0);
    let actions = s.start(&mut shared, &config, now, local);
    assert_eq!(s.state, BreakSchedulerState::Idle);
    assert_eq!(
        actions,
        vec![BreakAction::EmitStatus(StatusReport { paused: false, next_event: None, mini_break_counter: 0 })]
    );
    let actions = s.handle_command(Command::RequestBreakStatus, &mut shared, &config, now, local);
    assert_eq!(
        actions,
        vec![BreakAction::EmitStatus(StatusReport { paused: false, next_event: None, mini_break_counter: 0 })]
    );
}

#[test]
fn prompt_windows_failure_plans_next_break() {
    let config = config_with(600, 0);
    let mut shared = SharedSchedulerState::new();
    let mut s = BreakScheduler::new();
    let (now, local) = at(0);
    let event = SchedulerEvent::MiniBreak(BreakId(1));
    s.handle_command(Command::TriggerEvent(event), &mut shared, &config, now, local);
    s.on_prompt_windows_failed(event, &mut shared, &config, now, local);
    assert!(!shared.in_break_session());
    assert_eq!(s.get_mini_break_counter(), 1);
    match s.state {
        BreakSchedulerState::WaitingForBreak(info) => assert_eq!(info.break_time, NOW + 600),
        other => panic!("unexpected state {:?}", other),
    }
}

#[test]
fn status_report_formats_time() {
    let report = StatusReport {
        paused: false,
        next_event: Some(focust::models::EventReport {
            kind: SchedulerEvent::MiniBreak(BreakId(1)),
            time: 0,
            seconds_until: 42,
        }),
        mini_break_counter: 3,
    };
    let status = report.to_status();
    assert!(!status.paused);
    assert_eq!(status.mini_break_counter, 3);
    let info = status.next_event.unwrap();
    assert_eq!(info.time, "1970-01-01T00:00:00+00:00");
    assert_eq!(info.seconds_until, 42);
}

// ---------------------------------------------------------------------------
// Attention timer
// ---------------------------------------------------------------------------

fn attention_config(id: u64, hour: u32) -> AppConfig {
    let mut config = AppConfig::default();
    config.attentions = vec![AttentionSettings {
        id: AttentionId(id),
        name: "Eyes".to_string(),
        enabled: true,
        times: ShortTimes::new(vec![naive_time(hour, 0, 0)]),
        days_of_week: all_weekdays(),
    }];
    config
}

#[test]
fn attention_timer_apply_and_fire() {
    let mut shared = SharedSchedulerState::new();
    let mut t = AttentionTimer::new();
    assert_eq!(t.get_state(), "Idle");
    let actions = t.apply_calculation(Some((AttentionId(4), NOW + 60)), &mut shared, NOW);
    assert!(actions.is_empty());
    assert_eq!(
        t.state,
        AttentionTimerState::WaitingForAttention(AttentionInfo { attention_id: AttentionId(4), attention_time: NOW + 60 })
    );
    assert_eq!(t.get_state(), "WaitingForAttention(4)");
    assert_eq!(t.get_next_attention_info(), Some((AttentionId(4), NOW + 60)));
    assert_eq!(t.get_duration_for_current_state(NOW), Some(60));

    let actions = t.on_timer_fired(&mut shared);
    assert_eq!(
        actions,
        vec![
            AttentionAction::CreatePromptWindows(SchedulerEvent::Attention(AttentionId(4))),
            AttentionAction::Recalculate
        ]
    );
    assert!(shared.in_attention_session());
}

#[test]
fn attention_due_now_is_shown_at_once() {
    let mut shared = SharedSchedulerState::new();
    let mut t = AttentionTimer::new();
    let actions = t.apply_calculation(Some((AttentionId(2), NOW)), &mut shared, NOW);
    assert_eq!(actions.len(), 2);
    assert!(shared.in_attention_session());
    let actions = t.apply_calculation(None, &mut shared, NOW);
    assert!(actions.is_empty());
    assert_eq!(t.state, AttentionTimerState::Idle);
}

#[test]
fn attention_timer_pause_resume_and_finish() {
    let mut shared = SharedSchedulerState::new();
    let mut t = AttentionTimer::new();
    let next = Some((AttentionId(1), NOW + 300));
    t.handle_command_with(&Command::Pause(PauseReason::Dnd), &mut shared, NOW, next);
    assert_eq!(t.state, AttentionTimerState::Paused(PauseReason::Dnd));
    assert_eq!(t.get_state(), "Paused(Dnd)");
    // A configuration update while paused keeps the timer paused.
    t.handle_command_with(&Command::UpdateConfig(AppConfig::default()), &mut shared, NOW, next);
    assert_eq!(t.state, AttentionTimerState::Paused(PauseReason::Dnd));
    t.handle_command_with(&Command::Resume(PauseReason::Dnd), &mut shared, NOW, next);
    assert_eq!(t.get_next_attention_info(), next);

    shared.start_attention_session();
    let later = Some((AttentionId(1), NOW + 86400));
    t.handle_command_with(
        &Command::PromptFinished(SchedulerEvent::Attention(AttentionId(1))),
        &mut shared,
        NOW,
        later,
    );
    assert!(!shared.in_attention_session());
    assert_eq!(t.get_next_attention_info(), later);
}

#[test]
fn attention_timer_plans_from_config() {
    let config = attention_config(9, 14);
    let mut shared = SharedSchedulerState::new();
    let mut t = AttentionTimer::new();
    let local = LocalDateTime { day: DAY, secs: 36000 };
    t.start(&mut shared, &config, NOW, local);
    let (id, time) = t.get_next_attention_info().unwrap();
    assert_eq!(id, AttentionId(9));
    assert!(time > NOW && time < NOW + 2 * 86400);

    let mut t2 = AttentionTimer::new();
    let actions = t2.handle_command(&Command::UpdateConfig(AppConfig::default()), &mut shared, &config, NOW, local);
    assert!(actions.is_empty());
    assert_eq!(t2.state, AttentionTimerState::Idle);
}

// ---------------------------------------------------------------------------
// Command routing
// ---------------------------------------------------------------------------

#[test]
fn route_pause_and_resume_commands() {
    let mut shared = SharedSchedulerState::new();
    let actions = SchedulerManager::route_command(Command::Pause(PauseReason::UserIdle), &mut shared, NOW);
    assert_eq!(actions.len(), 4);
    assert!(matches!(actions[0], RouteAction::EmitStatus(StatusReport { paused: true, .. })));
    assert!(matches!(actions[1], RouteAction::EmitPaused));
    assert!(matches!(actions[2], RouteAction::ToBreak(Command::Pause(PauseReason::UserIdle))));
    assert!(matches!(actions[3], RouteAction::ToAttention(Command::Pause(PauseReason::UserIdle))));

    let actions = SchedulerManager::route_command(Command::Pause(PauseReason::Dnd), &mut shared, NOW);
    assert_eq!(actions.len(), 1);

    let actions = SchedulerManager::route_command(Command::Resume(PauseReason::UserIdle), &mut shared, NOW);
    assert_eq!(actions.len(), 1);
    assert!(shared.is_paused());

    let actions = SchedulerManager::route_command(Command::Resume(PauseReason::Dnd), &mut shared, NOW);
    assert_eq!(actions.len(), 3);
    assert!(matches!(actions[0], RouteAction::EmitResumed));
    assert!(matches!(actions[1], RouteAction::ToBreak(Command::Resume(PauseReason::Dnd))));
    assert!(matches!(actions[2], RouteAction::ToAttention(Command::Resume(PauseReason::Dnd))));
    assert!(!shared.is_paused());
}

#[test]
fn route_event_and_break_commands() {
    let mut shared = SharedSchedulerState::new();
    let a = SchedulerManager::route_command(
        Command::TriggerEvent(SchedulerEvent::Attention(AttentionId(1))),
        &mut shared,
        NOW,
    );
    assert!(matches!(a[0], RouteAction::ToAttention(_)));
    let a = SchedulerManager::route_command(
        Command::PromptFinished(SchedulerEvent::LongBreak(BreakId(1))),
        &mut shared,
        NOW,
    );
    assert!(matches!(a[0], RouteAction::ToBreak(_)));
    let a = SchedulerManager::route_command(Command::UpdateConfig(AppConfig::default()), &mut shared, NOW);
    assert!(matches!(a[0], RouteAction::ToBoth(Command::UpdateConfig(_))));
    for cmd in [Command::PostponeBreak, Command::SkipBreak, Command::RequestBreakStatus] {
        let a = SchedulerManager::route_command(cmd, &mut shared, NOW);
        assert_eq!(a.len(), 1);
        assert!(matches!(a[0], RouteAction::ToBreak(_)));
    }
}

// ---------------------------------------------------------------------------
// Monitors
// ---------------------------------------------------------------------------

#[test]
fn idle_monitor_pause_resume_and_failures() {
    let mut m = IdleMonitor::new(300);
    assert_eq!(m.name(), "IdleMonitor");
    assert_eq!(m.interval_secs(), CHECK_INTERVAL_SECS);
    assert!(matches!(m.check_with(Ok(10)), Ok(MonitorAction::NoAction)));
    assert!(matches!(m.check_with(Ok(300)), Ok(MonitorAction::Pause(PauseReason::UserIdle))));
    assert!(matches!(m.check_with(Ok(400)), Ok(MonitorAction::NoAction)));
    assert!(matches!(m.check_with(Ok(1)), Ok(MonitorAction::Resume(PauseReason::UserIdle))));
    m.update_threshold(5);
    assert_eq!(m.inactive_threshold_s, 5);
    assert!(matches!(m.check_with(Err("a".to_string())), Err(MonitorError::CheckFailed(_))));
    assert!(matches!(m.check_with(Err("b".to_string())), Err(MonitorError::CheckFailed(_))));
    assert!(!m.disabled);
    assert!(matches!(m.check_with(Err("c".to_string())), Err(MonitorError::CheckFailed(_))));
    assert!(m.disabled);
    assert!(matches!(m.check_with(Ok(100)), Ok(MonitorAction::NoAction)));
}

#[test]
fn dnd_monitor_transitions() {
    let mut m = DndMonitor::new(true);
    assert_eq!(m.name(), "DndMonitor");
    assert!(matches!(m.check_with(Ok(true), false), Ok(MonitorAction::Pause(PauseReason::Dnd))));
    assert!(matches!(m.check_with(Ok(true), false), Ok(MonitorAction::NoAction)));
    assert!(matches!(m.check_with(Ok(false), false), Ok(MonitorAction::Resume(PauseReason::Dnd))));
    assert!(matches!(m.check_with(Err("x".to_string()), false), Err(MonitorError::CheckFailed(_))));
    let mut off = DndMonitor::new(false);
    assert!(matches!(off.check_with(Ok(true), false), Err(MonitorError::Unavailable)));
    assert_eq!(MonitorError::Unavailable.message(), "Monitor unavailable on this platform");
    assert_eq!(MonitorError::CheckFailed("io".to_string()).message(), "Monitor check failed: io");
}

#[test]
fn monitor_actions_become_commands() {
    assert!(action_to_command(MonitorAction::NoAction).is_none());
    assert!(matches!(
        action_to_command(MonitorAction::Pause(PauseReason::AppExclusion)),
        Some(Command::Pause(PauseReason::AppExclusion))
    ));
    assert!(matches!(
        action_to_command(MonitorAction::Resume(PauseReason::Dnd)),
        Some(Command::Resume(PauseReason::Dnd))
    ));
}

fn proc(name: &str) -> ProcessInfo {
    ProcessInfo { name: name.to_string(), exe: None }
}

#[test]
fn test_app_whitelist_monitor_creation() {
    let exclusions = vec![AppExclusion::pause(vec!["chrome.exe".to_string()])];
    let monitor = AppWhitelistMonitor::new(exclusions);
    assert_eq!(monitor.name(), "AppWhitelistMonitor");
    assert_eq!(monitor.interval_secs(), CHECK_INTERVAL_SECS);
    assert!(!monitor.is_paused);
    assert_eq!(monitor.exclusions.len(), 1);
}

#[test]
fn test_app_whitelist_monitor_empty_exclusions() {
    let monitor = AppWhitelistMonitor::new(vec![]);
    assert_eq!(monitor.exclusions.len(), 0);
}

#[test]
fn test_app_whitelist_monitor_update_exclusions() {
    let mut monitor = AppWhitelistMonitor::new(vec![]);
    assert_eq!(monitor.exclusions.len(), 0);
    let new_exclusions = vec![
        AppExclusion::pause(vec!["chrome.exe".to_string()]),
        AppExclusion::pause(vec!["firefox.exe".to_string()]),
    ];
    monitor.update_exclusions(new_exclusions);
    assert_eq!(monitor.exclusions.len(), 2);
}

#[test]
fn test_check_processes_no_exclusions() {
    let monitor = AppWhitelistMonitor::new(vec![]);
    assert!(!monitor.check_processes(&vec![proc("chrome.exe")]));
}

#[test]
fn test_check_processes_inactive_exclusion() {
    let mut exclusion = AppExclusion::pause(vec!["nonexistent.exe".to_string()]);
    exclusion.active = false;
    let monitor = AppWhitelistMonitor::new(vec![exclusion]);
    assert!(!monitor.check_processes(&vec![proc("nonexistent.exe")]));
}

#[test]
fn test_check_returns_none_for_empty_exclusions() {
    let mut monitor = AppWhitelistMonitor::new(vec![]);
    assert!(matches!(monitor.check_with(&vec![proc("a")]), Ok(MonitorAction::NoAction)));
}

#[test]
fn app_whitelist_pause_and_resume_rules() {
    let mut monitor = AppWhitelistMonitor::new(vec![AppExclusion::pause(vec!["game.exe".to_string()])]);
    let game = ProcessInfo { name: "launcher".to_string(), exe: Some("game.exe".to_string()) };
    assert!(matches!(monitor.check_with(&vec![proc("editor")]), Ok(MonitorAction::NoAction)));
    assert!(matches!(monitor.check_with(&vec![game.clone()]), Ok(MonitorAction::Pause(PauseReason::AppExclusion))));
    assert!(monitor.is_paused);
    assert!(matches!(monitor.check_with(&vec![game]), Ok(MonitorAction::NoAction)));
    assert!(matches!(monitor.check_with(&vec![]), Ok(MonitorAction::Resume(PauseReason::AppExclusion))));

    let resume_rule = AppWhitelistMonitor::new(vec![AppExclusion::resume(vec!["ide".to_string()])]);
    assert!(resume_rule.check_processes(&vec![proc("browser")]));
    assert!(!resume_rule.check_processes(&vec![proc("ide")]));
}

#[test]
fn dnd_changes_ignored_during_session() {
    let mut m = DndMonitor::new(true);
    assert!(matches!(m.check_with(Ok(true), true), Ok(MonitorAction::NoAction)));
    assert!(!m.was_dnd_active);
    assert!(matches!(m.check_with(Ok(true), false), Ok(MonitorAction::Pause(PauseReason::Dnd))));
    assert!(matches!(m.check_with(Ok(false), true), Ok(MonitorAction::NoAction)));
    assert!(m.was_dnd_active);
}

#[test]
fn monitors_due_by_interval() {
    let due = due_monitors(&vec![0, 5_000, 9_000], 10_000, &vec![10_000, 10_000, 500]);
    assert_eq!(due, vec![true, false, true]);
    assert_eq!(shortest_interval(&vec![10_000, 3_000, 7_000]), Some(3_000));
    assert_eq!(shortest_interval(&vec![]), None);
}

#[test]
fn trigger_break_now_uses_active_schedule() {
    let mut inactive = TestConfigBuilder::new().build().schedules.remove(0);
    inactive.days_of_week = vec![];
    let mut active = TestConfigBuilder::new().build().schedules.remove(0);
    active.mini_breaks.base.enabled = false;
    active.mini_breaks.base.id = BreakId(77);
    let mut config = TestConfigBuilder::new().build();
    config.schedules = vec![inactive, active];
    let mut shared = SharedSchedulerState::new();
    let mut s = BreakScheduler::new();
    let (now, local) = at(0);
    let actions = s.handle_command(Command::TriggerBreakNow(BreakKind::Mini), &mut shared, &config, now, local);
    assert_eq!(actions[0], BreakAction::EmitEvent(SchedulerEvent::MiniBreak(BreakId(77))));
    assert!(shared.in_break_session());
}

#[test]
fn trigger_break_now_falls_back_to_first_enabled_schedule() {
    let mut first_enabled = TestConfigBuilder::new().build().schedules.remove(0);
    first_enabled.days_of_week = vec![];
    first_enabled.long_breaks.base.id = BreakId(42);
    let mut disabled_active = TestConfigBuilder::new().build().schedules.remove(0);
    disabled_active.enabled = false;
    let mut config = TestConfigBuilder::new().build();
    config.schedules = vec![first_enabled, disabled_active];
    let mut shared = SharedSchedulerState::new();
    let mut s = BreakScheduler::new();
    let (now, local) = at(0);
    let actions = s.handle_command(Command::TriggerBreakNow(BreakKind::Long), &mut shared, &config, now, local);
    assert_eq!(actions[0], BreakAction::EmitEvent(SchedulerEvent::LongBreak(BreakId(42))));
}

#[test]
fn trigger_break_now_rejected_while_paused_or_without_schedule() {
    let config = TestConfigBuilder::new().build();
    let mut shared = SharedSchedulerState::new();
    let mut s = BreakScheduler::new();
    let (now, local) = at(0);
    s.handle_command(Command::Pause(PauseReason::Manual), &mut shared, &config, now, local);
    let before = s;
    let actions = s.handle_command(Command::TriggerBreakNow(BreakKind::Mini), &mut shared, &config, now, local);
    assert!(actions.is_empty());
    assert_eq!(s, before);

    let none = TestConfigBuilder::new().schedule_enabled(false).build();
    let mut s2 = BreakScheduler::new();
    let actions = s2.handle_command(Command::TriggerBreakNow(BreakKind::Mini), &mut shared, &none, now, local);
    assert!(actions.is_empty());
    assert_eq!(s2.state, BreakSchedulerState::Idle);
}

#[test]
fn user_idle_pause_keeps_mini_break_counter_by_default() {
    let config = TestConfigBuilder::new().build();
    let mut shared = SharedSchedulerState::new();
    let mut s = BreakScheduler { state: BreakSchedulerState::Idle, mini_break_counter: 1, last_break_time: None };
    let (now, local) = at(0);
    let actions = s.handle_command(Command::Pause(PauseReason::UserIdle), &mut shared, &config, now, local);
    assert_eq!(status_of(&actions).unwrap().mini_break_counter, 1);
}

#[test]
fn configured_user_idle_pause_resets_mini_break_counter() {
    let mut config = TestConfigBuilder::new().build();
    config.advanced.reset_mini_break_counter_on_pause_reasons = vec![PauseReason::UserIdle];
    let mut shared = SharedSchedulerState::new();
    let mut s = BreakScheduler { state: BreakSchedulerState::Idle, mini_break_counter: 1, last_break_time: None };
    let (now, local) = at(0);
    let actions = s.handle_command(Command::Pause(PauseReason::UserIdle), &mut shared, &config, now, local);
    assert_eq!(s.get_mini_break_counter(), 0);
    assert_eq!(status_of(&actions).unwrap().mini_break_counter, 0);
    let mut s = BreakScheduler { state: BreakSchedulerState::Idle, mini_break_counter: 1, last_break_time: None };
    s.handle_command(Command::Pause(PauseReason::Manual), &mut shared, &config, now, local);
    assert_eq!(s.get_mini_break_counter(), 1);
}

#[test]
fn route_trigger_break_now_to_break_scheduler() {
    let mut shared = SharedSchedulerState::new();
    let a = SchedulerManager::route_command(Command::TriggerBreakNow(BreakKind::Mini), &mut shared, NOW);
    assert_eq!(a.len(), 1);
    assert!(matches!(a[0], RouteAction::ToBreak(Command::TriggerBreakNow(BreakKind::Mini))));
    assert_eq!(Command::TriggerBreakNow(BreakKind::Long).display_string(), "TriggerBreakNow(Long)");
}

#[test]
fn counter_at_limit_still_pauses_and_postpones() {
    let config = config_with(600, 0);
    let mut shared = SharedSchedulerState::new();
    let mut s = BreakScheduler { state: BreakSchedulerState::Idle, mini_break_counter: 255, last_break_time: None };
    let (now, local) = at(0);
    s.start(&mut shared, &config, now, local);
    s.handle_command(Command::PostponeBreak, &mut shared, &config, now, local);
    s.handle_command(Command::Pause(PauseReason::Manual), &mut shared, &config, now, local);
    assert_eq!(s.state, BreakSchedulerState::Paused(PauseReason::Manual));
    assert_eq!(s.get_mini_break_counter(), 255);
}

#[test]
fn pause_for_minutes_sets_deadline_and_arms_timer() {
    let mut shared = SharedSchedulerState::new();
    let a = SchedulerManager::route_command(Command::PauseForMinutes(0), &mut shared, NOW);
    assert!(a.is_empty());
    assert!(!shared.is_paused());
    let a = SchedulerManager::route_command(Command::PauseForMinutes(15), &mut shared, NOW);
    assert!(matches!(a[0], RouteAction::ArmTimedPause(15)));
    assert!(matches!(a[1], RouteAction::EmitStatus(StatusReport { paused: true, .. })));
    assert!(matches!(a[2], RouteAction::EmitPaused));
    assert!(matches!(a[3], RouteAction::ToBreak(Command::Pause(PauseReason::TimedManual))));
    assert!(matches!(a[4], RouteAction::ToAttention(Command::Pause(PauseReason::TimedManual))));
    assert!(shared.is_paused());
    assert_eq!(shared.timed_pause_until(), Some(NOW + 900));
    assert!(shared.pause_reasons().is_empty());

    let a = SchedulerManager::route_command(Command::Resume(PauseReason::TimedManual), &mut shared, NOW);
    assert!(matches!(a[0], RouteAction::DisarmTimedPause));
    assert!(matches!(a[1], RouteAction::EmitResumed));
    assert!(matches!(a[2], RouteAction::ToBreak(Command::Resume(PauseReason::TimedManual))));
    assert!(!shared.is_paused());
    assert_eq!(shared.timed_pause_until(), None);
}

#[test]
fn resume_user_pauses_clears_manual_and_timed() {
    let mut shared = SharedSchedulerState::new();
    SchedulerManager::route_command(Command::Pause(PauseReason::Manual), &mut shared, NOW);
    SchedulerManager::route_command(Command::PauseForMinutes(5), &mut shared, NOW);
    let a = SchedulerManager::route_command(Command::ResumeUserPauses, &mut shared, NOW);
    assert!(matches!(a[0], RouteAction::DisarmTimedPause));
    assert!(matches!(a[1], RouteAction::EmitResumed));
    assert!(matches!(a[2], RouteAction::ToBreak(Command::Resume(PauseReason::Manual))));
    assert!(matches!(a[3], RouteAction::ToAttention(Command::Resume(PauseReason::Manual))));
    assert!(!shared.is_paused());
    assert_eq!(shared.timed_pause_until(), None);

    SchedulerManager::route_command(Command::Pause(PauseReason::Dnd), &mut shared, NOW);
    SchedulerManager::route_command(Command::Pause(PauseReason::Manual), &mut shared, NOW);
    let a = SchedulerManager::route_command(Command::ResumeUserPauses, &mut shared, NOW);
    assert_eq!(a.len(), 2);
    assert!(matches!(a[1], RouteAction::EmitStatus(StatusReport { paused: true, .. })));
    assert!(shared.is_paused());
    assert!(shared.pause_reasons().contains(PauseReason::Dnd));
    assert!(!shared.pause_reasons().contains(PauseReason::Manual));
}

#[test]
fn timed_pause_expiry_by_either_clock() {
    assert!(!timed_pause_expired(None, 100, Some(0), 100));
    assert!(timed_pause_expired(Some(100), 100, None, 0));
    assert!(!timed_pause_expired(Some(100), 99, None, 0));
    assert!(timed_pause_expired(Some(100), 50, Some(1_000), 1_000));
    assert!(!timed_pause_expired(Some(100), 50, Some(1_000), 999));
}

#[test]
fn dnd_unavailable_even_during_session() {
    let mut off = DndMonitor::new(false);
    assert!(matches!(off.check_with(Ok(true), true), Err(MonitorError::Unavailable)));
}

#[test]
fn timed_manual_pause_keeps_cycle_reference() {
    let config = config_with(600, 0);
    let mut shared = SharedSchedulerState::new();
    let mut s = BreakScheduler { state: BreakSchedulerState::Idle, mini_break_counter: 2, last_break_time: Some(NOW - 50) };
    let (now, local) = at(0);
    s.handle_command(Command::Pause(PauseReason::TimedManual), &mut shared, &config, now, local);
    assert_eq!(s.get_last_break_time(), Some(NOW - 50));
    assert_eq!(s.get_state(), "Paused(TimedManual)");
}
