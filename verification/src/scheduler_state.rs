//! The running/paused state and the errors of the scheduler.

use vstd::prelude::*;

verus! {

/// Whether the scheduler is running or paused.
#[derive(Debug, Clone, Copy, PartialEq, Eq, Structural)]
pub enum SchedulerState {
    Running,
    Paused,
}

impl SchedulerState {
    /// The name of the state.
    pub fn display_string(&self) -> (s: String)
        ensures
            s@ == (match *self {
                SchedulerState::Running => "Running"@,
                SchedulerState::Paused => "Paused"@,
            }),
    {
        match self {
            SchedulerState::Running => String::from_str("Running"),
            SchedulerState::Paused => String::from_str("Paused"),
        }
    }
}

/// Errors of event scheduling.
#[derive(Debug, Clone, Copy, PartialEq, Eq, Structural)]
pub enum SchedulerError {
    NoActiveSchedule,
    NoActiveEvent,
}

impl SchedulerError {
    /// The message of the error.
    pub fn message(&self) -> (s: String)
        ensures
            s@ == (match *self {
                SchedulerError::NoActiveSchedule => "No active schedule found for the current time."@,
                SchedulerError::NoActiveEvent => "No active event could be scheduled."@,
            }),
    {
        match self {
            SchedulerError::NoActiveSchedule => String::from_str("No active schedule found for the current time."),
            SchedulerError::NoActiveEvent => String::from_str("No active event could be scheduled."),
        }
    }
}

} // verus!
