use focust::models::{AttentionId, BreakId, Command, PauseReason, PauseReasons, SchedulerEvent};
use focust::scheduler_state::{SchedulerError, SchedulerState};

// ---------------------------------------------------------------------------
// SchedulerState / SchedulerError
// ---------------------------------------------------------------------------

#[test]
fn test_scheduler_state_equality() {
    assert_eq!(SchedulerState::Running, SchedulerState::Running);
    assert_eq!(SchedulerState::Paused, SchedulerState::Paused);
    assert_ne!(SchedulerState::Running, SchedulerState::Paused);
}

#[test]
fn test_scheduler_state_display() {
    assert_eq!(SchedulerState::Running.display_string(), "Running");
    assert_eq!(SchedulerState::Paused.display_string(), "Paused");
}

#[test]
fn test_scheduler_state_clone() {
    let state = SchedulerState::Running;
    let cloned = state;
    assert_eq!(state, cloned);
}

#[test]
fn test_scheduler_error_no_active_schedule_display() {
    let error = SchedulerError::NoActiveSchedule;
    assert_eq!(error.message(), "No active schedule found for the current time.");
}

#[test]
fn test_scheduler_error_no_active_event_display() {
    let error = SchedulerError::NoActiveEvent;
    assert_eq!(error.message(), "No active event could be scheduled.");
}

// ---------------------------------------------------------------------------
// SchedulerEvent
// ---------------------------------------------------------------------------

#[test]
fn test_scheduler_event_display() {
    let mini_break = SchedulerEvent::MiniBreak(BreakId(1));
    let long_break = SchedulerEvent::LongBreak(BreakId(2));
    let attention = SchedulerEvent::Attention(AttentionId(3));

    assert!(mini_break.display_string().starts_with("MiniBreak("));
    assert!(long_break.display_string().starts_with("LongBreak("));
    assert!(attention.display_string().starts_with("Attention("));
}

#[test]
fn test_scheduler_event_equality() {
    let id = BreakId(7);
    let event1 = SchedulerEvent::MiniBreak(id);
    let event2 = SchedulerEvent::MiniBreak(id);
    let event3 = SchedulerEvent::MiniBreak(BreakId(8));

    assert_eq!(event1, event2);
    assert_ne!(event1, event3);
}

#[test]
fn scheduler_event_display_exact_text() {
    assert_eq!(SchedulerEvent::MiniBreak(BreakId(7)).display_string(), "MiniBreak(7)");
    assert_eq!(SchedulerEvent::LongBreak(BreakId(0)).display_string(), "LongBreak(0)");
    assert_eq!(SchedulerEvent::Attention(AttentionId(1234)).display_string(), "Attention(1234)");
    assert_eq!(
        SchedulerEvent::Attention(AttentionId(u64::MAX)).display_string(),
        "Attention(18446744073709551615)"
    );
}

#[test]
fn scheduler_event_kind_predicates() {
    let mini = SchedulerEvent::MiniBreak(BreakId(1));
    let long = SchedulerEvent::LongBreak(BreakId(1));
    let att = SchedulerEvent::Attention(AttentionId(1));
    assert!(mini.is_break() && mini.is_mini() && !mini.is_long() && !mini.is_attention());
    assert!(long.is_break() && long.is_long() && !long.is_mini() && !long.is_attention());
    assert!(att.is_attention() && !att.is_break() && !att.is_mini() && !att.is_long());
}

// ---------------------------------------------------------------------------
// Command
// ---------------------------------------------------------------------------

#[test]
fn test_command_display() {
    assert_eq!(Command::PostponeBreak.display_string(), "PostponeBreak");
    assert_eq!(Command::SkipBreak.display_string(), "SkipBreak");
    assert_eq!(Command::RequestBreakStatus.display_string(), "RequestBreakStatus");
}

#[test]
fn test_command_pause_display() {
    let cmd = Command::Pause(PauseReason::UserIdle);
    assert_eq!(cmd.display_string(), "Pause(UserIdle)");
}

#[test]
fn command_display_other_variants() {
    assert_eq!(Command::Resume(PauseReason::Dnd).display_string(), "Resume(Dnd)");
    assert_eq!(
        Command::TriggerEvent(SchedulerEvent::LongBreak(BreakId(4))).display_string(),
        "TriggerBreak(LongBreak(4))"
    );
    assert_eq!(
        Command::PromptFinished(SchedulerEvent::Attention(AttentionId(9))).display_string(),
        "PromptFinished(Attention(9))"
    );
    assert_eq!(
        Command::UpdateConfig(focust::config::AppConfig::default()).display_string(),
        "UpdateConfig"
    );
}

// ---------------------------------------------------------------------------
// PauseReason / PauseReasons
// ---------------------------------------------------------------------------

#[test]
fn test_pause_reason_equality() {
    assert_eq!(PauseReason::UserIdle, PauseReason::UserIdle);
    assert_ne!(PauseReason::UserIdle, PauseReason::Manual);
}

#[test]
fn test_pause_reason_display() {
    assert_eq!(PauseReason::UserIdle.display_string(), "UserIdle");
    assert_eq!(PauseReason::Dnd.display_string(), "Dnd");
    assert_eq!(PauseReason::Manual.display_string(), "Manual");
    assert_eq!(PauseReason::AppExclusion.display_string(), "AppExclusion");
}

#[test]
fn pause_reason_parse_round_trip() {
    for r in [
        PauseReason::UserIdle,
        PauseReason::Dnd,
        PauseReason::Manual,
        PauseReason::AppExclusion,
        PauseReason::TimedManual,
    ] {
        assert_eq!(PauseReason::parse(r.as_str()), Some(r));
    }
    assert_eq!(PauseReason::parse("userIdle"), None);
    assert_eq!(PauseReason::parse(""), None);
}

#[test]
fn test_pause_reasons_len() {
    assert_eq!(PauseReasons::empty().len(), 0);
    assert_eq!(PauseReasons::from(PauseReason::UserIdle).len(), 1);
    assert_eq!(
        PauseReasons::from(PauseReason::UserIdle)
            .union(PauseReasons::from(PauseReason::Dnd))
            .len(),
        2
    );
    assert_eq!(PauseReasons::all().len(), 4);
}

#[test]
fn test_pause_reasons_active_reasons() {
    let empty: Vec<PauseReason> = PauseReasons::empty().active_reasons();
    assert_eq!(empty, vec![]);

    let single: Vec<PauseReason> = PauseReasons::from(PauseReason::UserIdle).active_reasons();
    assert_eq!(single, vec![PauseReason::UserIdle]);

    let multiple: Vec<PauseReason> = PauseReasons::from(PauseReason::UserIdle)
        .union(PauseReasons::from(PauseReason::Dnd))
        .active_reasons();
    assert_eq!(multiple.len(), 2);
    assert!(multiple.contains(&PauseReason::UserIdle));
    assert!(multiple.contains(&PauseReason::Dnd));
}

#[test]
fn test_pause_reasons_to_vec() {
    assert_eq!(PauseReasons::empty().to_vec(), vec![]);
    assert_eq!(PauseReasons::from(PauseReason::UserIdle).to_vec(), vec![PauseReason::UserIdle]);
}

#[test]
fn pause_reasons_insert_remove_bits() {
    let mut s = PauseReasons::empty();
    assert!(s.is_empty());
    assert_eq!(s.bits(), 0);
    assert!(s.insert(PauseReason::Manual));
    assert!(!s.insert(PauseReason::Manual));
    assert!(s.insert(PauseReason::AppExclusion));
    assert_eq!(s.bits(), 12);
    assert!(s.contains(PauseReason::Manual));
    assert!(!s.contains(PauseReason::Dnd));
    assert_eq!(s.to_vec(), vec![PauseReason::Manual, PauseReason::AppExclusion]);
    assert!(s.remove(PauseReason::Manual));
    assert!(!s.remove(PauseReason::Manual));
    assert_eq!(s, PauseReasons::single(PauseReason::AppExclusion));
    assert_eq!(PauseReasons::all().bits(), 15);
    assert_eq!(
        PauseReasons::all().to_vec(),
        vec![PauseReason::UserIdle, PauseReason::Dnd, PauseReason::Manual, PauseReason::AppExclusion]
    );
}

#[test]
fn timed_pause_commands_display() {
    assert_eq!(Command::PauseForMinutes(30).display_string(), "PauseForMinutes(30)");
    assert_eq!(Command::ResumeUserPauses.display_string(), "ResumeUserPauses");
    assert_eq!(Command::Pause(PauseReason::TimedManual).display_string(), "Pause(TimedManual)");
}

#[test]
fn flag_set_never_holds_timed_pause() {
    let mut s = PauseReasons::empty();
    assert!(!s.insert(PauseReason::TimedManual));
    assert!(s.is_empty());
    assert!(!s.contains(PauseReason::TimedManual));
    assert_eq!(PauseReasons::single(PauseReason::TimedManual), PauseReasons::empty());
    assert_eq!(PauseReasons::from(PauseReason::TimedManual), PauseReasons::empty());
}
