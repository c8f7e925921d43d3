use focust::models::PauseReason;
use focust::shared_state::SharedSchedulerState;

#[test]
fn test_pause_reason_management() {
    let mut state = SharedSchedulerState::new();

    assert!(!state.is_paused());
    assert!(state.pause_reasons().is_empty());

    assert!(state.add_pause_reason(PauseReason::UserIdle));
    assert!(state.is_paused());
    assert_eq!(state.pause_reasons().len(), 1);

    assert!(!state.add_pause_reason(PauseReason::Dnd));
    assert!(state.is_paused());
    assert_eq!(state.pause_reasons().len(), 2);

    assert!(!state.remove_pause_reason(PauseReason::UserIdle));
    assert!(state.is_paused());
    assert_eq!(state.pause_reasons().len(), 1);

    assert!(state.remove_pause_reason(PauseReason::Dnd));
    assert!(!state.is_paused());
    assert!(state.pause_reasons().is_empty());
}

#[test]
fn test_duplicate_pause_reason() {
    let mut state = SharedSchedulerState::new();
    assert!(state.add_pause_reason(PauseReason::Manual));
    assert!(!state.add_pause_reason(PauseReason::Manual));
    assert_eq!(state.pause_reasons().len(), 1);
}

#[test]
fn test_remove_nonexistent_reason() {
    let mut state = SharedSchedulerState::new();
    state.add_pause_reason(PauseReason::UserIdle);
    assert!(!state.remove_pause_reason(PauseReason::Dnd));
    assert!(state.is_paused());
}

#[test]
fn remove_from_running_state_reports_no_transition() {
    let mut state = SharedSchedulerState::new();
    assert!(!state.remove_pause_reason(PauseReason::Manual));
    assert!(!state.is_paused());
}

#[test]
fn test_session_management() {
    let mut state = SharedSchedulerState::new();

    assert!(!state.in_any_session());
    assert!(!state.in_break_session());
    assert!(!state.in_attention_session());

    state.start_break_session();
    assert!(state.in_any_session());
    assert!(state.in_break_session());
    assert!(!state.in_attention_session());

    state.end_break_session();
    assert!(!state.in_any_session());

    state.start_attention_session();
    assert!(state.in_any_session());
    assert!(!state.in_break_session());
    assert!(state.in_attention_session());

    state.end_attention_session();
    assert!(!state.in_any_session());
}

#[test]
fn test_both_sessions_active() {
    let mut state = SharedSchedulerState::new();
    state.start_break_session();
    state.start_attention_session();
    assert!(state.in_any_session());
    assert!(state.in_break_session());
    assert!(state.in_attention_session());
    state.end_break_session();
    assert!(state.in_any_session());
    state.end_attention_session();
    assert!(!state.in_any_session());
}

#[test]
fn test_idempotent_session_operations() {
    let mut state = SharedSchedulerState::new();
    state.start_break_session();
    state.start_break_session();
    assert!(state.in_break_session());
    state.end_break_session();
    assert!(!state.in_break_session());
    state.end_break_session();
    assert!(!state.in_break_session());
}

#[test]
fn test_multiple_pause_reasons_simultaneously() {
    let mut state = SharedSchedulerState::new();

    assert!(state.add_pause_reason(PauseReason::UserIdle));
    assert!(!state.add_pause_reason(PauseReason::Dnd));
    assert!(!state.add_pause_reason(PauseReason::Manual));

    assert!(state.is_paused());
    assert_eq!(state.pause_reasons().len(), 3);

    assert!(!state.remove_pause_reason(PauseReason::Dnd));
    assert!(state.is_paused());
    assert_eq!(state.pause_reasons().len(), 2);

    assert!(!state.remove_pause_reason(PauseReason::Manual));
    assert!(state.is_paused());
    assert_eq!(state.pause_reasons().len(), 1);

    assert!(state.remove_pause_reason(PauseReason::UserIdle));
    assert!(!state.is_paused());
    assert!(state.pause_reasons().is_empty());
}

#[test]
fn test_pause_during_active_sessions() {
    let mut state = SharedSchedulerState::new();
    state.start_break_session();
    state.start_attention_session();
    assert!(state.in_any_session());

    state.add_pause_reason(PauseReason::Dnd);
    assert!(state.is_paused());
    assert!(state.in_break_session());
    assert!(state.in_attention_session());

    state.remove_pause_reason(PauseReason::Dnd);
    assert!(!state.is_paused());
    assert!(state.in_break_session());
    assert!(state.in_attention_session());
}

#[test]
fn test_session_operations_during_pause() {
    let mut state = SharedSchedulerState::new();
    state.add_pause_reason(PauseReason::Manual);
    assert!(state.is_paused());

    state.start_break_session();
    assert!(state.in_break_session());
    assert!(state.is_paused());

    state.end_break_session();
    assert!(!state.in_break_session());
    assert!(state.is_paused());

    state.remove_pause_reason(PauseReason::Manual);
    assert!(!state.is_paused());
}

#[test]
fn test_rapid_pause_resume_cycles() {
    let mut state = SharedSchedulerState::new();
    for _ in 0..10 {
        assert!(state.add_pause_reason(PauseReason::UserIdle));
        assert!(state.is_paused());
        assert!(state.remove_pause_reason(PauseReason::UserIdle));
        assert!(!state.is_paused());
    }
    assert!(!state.is_paused());
    assert!(state.pause_reasons().is_empty());
}

#[test]
fn test_alternating_pause_reasons() {
    let mut state = SharedSchedulerState::new();

    state.add_pause_reason(PauseReason::UserIdle);
    assert!(state.is_paused());

    state.add_pause_reason(PauseReason::Dnd);
    assert_eq!(state.pause_reasons().len(), 2);

    state.remove_pause_reason(PauseReason::UserIdle);
    assert!(state.is_paused());
    assert_eq!(state.pause_reasons().len(), 1);

    state.add_pause_reason(PauseReason::UserIdle);
    assert_eq!(state.pause_reasons().len(), 2);

    state.remove_pause_reason(PauseReason::Dnd);
    assert!(state.is_paused());
    assert_eq!(state.pause_reasons().len(), 1);
}

#[test]
fn test_session_overlap_scenarios() {
    let mut state = SharedSchedulerState::new();

    state.start_break_session();
    state.start_attention_session();
    state.end_break_session();
    assert!(state.in_attention_session());
    assert!(!state.in_break_session());

    state.start_break_session();
    assert!(state.in_break_session());
    assert!(state.in_attention_session());

    state.end_attention_session();
    assert!(state.in_break_session());
    assert!(!state.in_attention_session());

    state.end_break_session();
    assert!(!state.in_any_session());
}

#[test]
fn test_session_end_without_start() {
    let mut state = SharedSchedulerState::new();
    state.end_break_session();
    state.end_attention_session();
    assert!(!state.in_any_session());
}

#[test]
fn test_complex_interleaved_operations() {
    let mut state = SharedSchedulerState::new();

    state.add_pause_reason(PauseReason::Dnd);
    state.start_break_session();
    state.add_pause_reason(PauseReason::UserIdle);
    state.start_attention_session();
    state.remove_pause_reason(PauseReason::Dnd);
    state.end_break_session();
    state.remove_pause_reason(PauseReason::UserIdle);
    state.end_attention_session();

    assert!(!state.is_paused());
    assert!(!state.in_any_session());
    assert!(state.pause_reasons().is_empty());
}

#[test]
fn test_all_pause_reasons_types() {
    let mut state = SharedSchedulerState::new();

    let all_reasons = vec![
        PauseReason::Manual,
        PauseReason::UserIdle,
        PauseReason::Dnd,
        PauseReason::AppExclusion,
    ];

    for reason in &all_reasons {
        state.add_pause_reason(*reason);
        assert!(state.is_paused());
    }
    assert_eq!(state.pause_reasons().len(), all_reasons.len());

    for reason in &all_reasons {
        assert!(state.is_paused());
        state.remove_pause_reason(*reason);
    }
    assert!(state.pause_reasons().is_empty());
    assert!(!state.is_paused());
}

#[test]
fn default_shared_state_is_running_without_sessions() {
    let state = SharedSchedulerState::default();
    assert!(!state.is_paused());
    assert!(!state.in_any_session());
}

#[test]
fn timed_manual_pause_in_shared_state() {
    let mut state = SharedSchedulerState::new();
    state.set_timed_pause_until(Some(1_000));
    assert!(state.add_pause_reason(PauseReason::TimedManual));
    assert!(state.is_paused());
    assert!(state.pause_reasons().is_empty());
    assert_eq!(state.timed_pause_until(), Some(1_000));
    assert!(!state.add_pause_reason(PauseReason::Manual));
    assert!(!state.remove_pause_reason(PauseReason::TimedManual));
    assert_eq!(state.timed_pause_until(), None);
    assert!(state.is_paused());
    assert!(state.remove_pause_reason(PauseReason::Manual));
    assert!(!state.is_paused());
}
