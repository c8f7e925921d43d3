//! Monitor of the user's idle time.

use vstd::prelude::*;

use super::{Monitor, MonitorAction, MonitorError, MonitorResult, CHECK_INTERVAL_SECS};
use crate::models::PauseReason;

verus! {

/// Consecutive failed readings after which idle monitoring stops.
pub const MAX_CONSECUTIVE_FAILURES: u32 = 3;

/// Monitor that pauses the scheduler while the user is idle.
#[derive(Debug, Clone, Copy, PartialEq, Eq, Structural)]
pub struct IdleMonitor {
    /// Idle threshold in seconds.
    pub inactive_threshold_s: u32,
    /// Whether the user was idle at the last check.
    pub was_idle: bool,
    /// Number of consecutive failed readings.
    pub consecutive_failures: u32,
    /// Whether monitoring stopped after repeated failures.
    pub disabled: bool,
}

/// One check of the idle monitor on a reading: the monitor after it and the result.
pub open spec fn spec_idle_check(m: IdleMonitor, reading: Result<u64, String>) -> (IdleMonitor, MonitorResult) {
    if m.disabled {
        (m, Ok(MonitorAction::NoAction))
    } else {
        match reading {
            Ok(idle_s) => {
                let is_idle = idle_s >= m.inactive_threshold_s;
                (
                    IdleMonitor { was_idle: is_idle, consecutive_failures: 0, ..m },
                    Ok(if is_idle && !m.was_idle {
                        MonitorAction::Pause(PauseReason::UserIdle)
                    } else if !is_idle && m.was_idle {
                        MonitorAction::Resume(PauseReason::UserIdle)
                    } else {
                        MonitorAction::NoAction
                    }),
                )
            },
            Err(e) => {
                let failures = m.consecutive_failures + 1;
                (
                    IdleMonitor {
                        consecutive_failures: failures as u32,
                        disabled: failures >= MAX_CONSECUTIVE_FAILURES,
                        ..m
                    },
                    Err(MonitorError::CheckFailed(e)),
                )
            },
        }
    }
}

impl IdleMonitor {
    /// The failure count stays below the limit while monitoring runs.
    pub open spec fn wf(self) -> bool {
        self.disabled || self.consecutive_failures < MAX_CONSECUTIVE_FAILURES
    }

    /// A monitor with the given threshold that has seen no idle period.
    pub fn new(inactive_threshold_s: u32) -> (m: IdleMonitor)
        ensures
            m == (IdleMonitor { inactive_threshold_s, was_idle: false, consecutive_failures: 0, disabled: false }),
            m.wf(),
    {
        IdleMonitor { inactive_threshold_s, was_idle: false, consecutive_failures: 0, disabled: false }
    }

    /// Changes the idle threshold.
    pub fn update_threshold(&mut self, inactive_threshold_s: u32)
        ensures
            *final(self) == (IdleMonitor { inactive_threshold_s, ..*old(self) }),
    {
        self.inactive_threshold_s = inactive_threshold_s;
    }

    /// Handles one reading of the idle time in seconds (or the reason it failed):
    /// becoming idle pauses, becoming active resumes; the third failure in a row
    /// stops monitoring; a stopped monitor does nothing.
    pub fn check_with(&mut self, reading: Result<u64, String>) -> (r: MonitorResult)
        requires
            old(self).wf(),
        ensures
            final(self).wf(),
            (*final(self), r) == spec_idle_check(*old(self), reading),
            old(self).disabled ==> *final(self) == *old(self) && r == Ok::<MonitorAction, MonitorError>(MonitorAction::NoAction),
            !old(self).disabled ==> match reading {
                Ok(idle_s) => {
                    let is_idle = idle_s >= old(self).inactive_threshold_s;
                    &&& final(self).consecutive_failures == 0
                    &&& final(self).disabled == old(self).disabled
                    &&& final(self).inactive_threshold_s == old(self).inactive_threshold_s
                    &&& final(self).was_idle == is_idle
                    &&& r == Ok::<MonitorAction, MonitorError>(
                        if is_idle && !old(self).was_idle {
                            MonitorAction::Pause(PauseReason::UserIdle)
                        } else if !is_idle && old(self).was_idle {
                            MonitorAction::Resume(PauseReason::UserIdle)
                        } else {
                            MonitorAction::NoAction
                        })
                },
                Err(e) => {
                    &&& final(self).consecutive_failures == old(self).consecutive_failures + 1
                    &&& final(self).disabled == (final(self).consecutive_failures >= MAX_CONSECUTIVE_FAILURES)
                    &&& final(self).was_idle == old(self).was_idle
                    &&& final(self).inactive_threshold_s == old(self).inactive_threshold_s
                    &&& r == Err::<MonitorAction, MonitorError>(MonitorError::CheckFailed(e))
                },
            },
    {
        if self.disabled {
            return Ok(MonitorAction::NoAction);
        }
        match reading {
            Ok(idle_seconds) => {
                self.consecutive_failures = 0;
                let is_idle = idle_seconds >= self.inactive_threshold_s as u64;
                if is_idle && !self.was_idle {
                    self.was_idle = true;
                    Ok(MonitorAction::Pause(PauseReason::UserIdle))
                } else if !is_idle && self.was_idle {
                    self.was_idle = false;
                    Ok(MonitorAction::Resume(PauseReason::UserIdle))
                } else {
                    Ok(MonitorAction::NoAction)
                }
            },
            Err(e) => {
                self.consecutive_failures = self.consecutive_failures + 1;
                if self.consecutive_failures >= MAX_CONSECUTIVE_FAILURES {
                    self.disabled = true;
                }
                Err(MonitorError::CheckFailed(e))
            },
        }
    }
}

impl Monitor for IdleMonitor {
    fn name(&self) -> (s: &'static str)
        ensures
            s@ == "IdleMonitor"@,
    {
        "IdleMonitor"
    }

    fn interval_secs(&self) -> (secs: u64)
        ensures
            secs == CHECK_INTERVAL_SECS,
    {
        CHECK_INTERVAL_SECS
    }
}

} // verus!
