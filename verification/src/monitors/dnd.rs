//! Monitor of the system's do-not-disturb (Focus Assist) mode.

use vstd::prelude::*;

use super::{Monitor, MonitorAction, MonitorError, MonitorResult, CHECK_INTERVAL_SECS};
use crate::models::PauseReason;

verus! {

/// Monitor that pauses the scheduler while do-not-disturb mode is on.
#[derive(Debug, Clone, Copy, PartialEq, Eq, Structural)]
pub struct DndMonitor {
    /// Whether do-not-disturb mode was on at the last check.
    pub was_dnd_active: bool,
    /// Whether the platform supports reading the mode.
    pub available: bool,
}

impl DndMonitor {
    /// A monitor for a platform where reading the mode is `available` or not.
    pub fn new(available: bool) -> (m: DndMonitor)
        ensures
            m == (DndMonitor { was_dnd_active: false, available }),
    {
        DndMonitor { was_dnd_active: false, available }
    }

    /// Handles one reading of the mode (or the reason it failed): turning it on
    /// pauses, turning it off resumes; on an unsupported platform the check fails.
    /// Otherwise, while a break or attention window is open (`in_session`), a change
    /// is ignored, so that a full-screen prompt that turns the mode on does not pause
    /// the scheduler.
    pub fn check_with(&mut self, reading: Result<bool, String>, in_session: bool) -> (r: MonitorResult)
        ensures
            !old(self).available ==> *final(self) == *old(self) && r == Err::<MonitorAction, MonitorError>(MonitorError::Unavailable),
            old(self).available && in_session ==> *final(self) == *old(self) && r == Ok::<MonitorAction, MonitorError>(MonitorAction::NoAction),
            old(self).available && !in_session ==> match reading {
                Ok(on) => {
                    &&& *final(self) == (DndMonitor { was_dnd_active: on, ..*old(self) })
                    &&& r == Ok::<MonitorAction, MonitorError>(
                        if on && !old(self).was_dnd_active {
                            MonitorAction::Pause(PauseReason::Dnd)
                        } else if !on && old(self).was_dnd_active {
                            MonitorAction::Resume(PauseReason::Dnd)
                        } else {
                            MonitorAction::NoAction
                        })
                },
                Err(e) => *final(self) == *old(self) && r == Err::<MonitorAction, MonitorError>(MonitorError::CheckFailed(e)),
            },
    {
        if !self.available {
            return Err(MonitorError::Unavailable);
        }
        if in_session {
            return Ok(MonitorAction::NoAction);
        }
        match reading {
            Ok(is_dnd) => {
                if is_dnd && !self.was_dnd_active {
                    self.was_dnd_active = true;
                    Ok(MonitorAction::Pause(PauseReason::Dnd))
                } else if !is_dnd && self.was_dnd_active {
                    self.was_dnd_active = false;
                    Ok(MonitorAction::Resume(PauseReason::Dnd))
                } else {
                    Ok(MonitorAction::NoAction)
                }
            },
            Err(e) => Err(MonitorError::CheckFailed(e)),
        }
    }
}

impl Monitor for DndMonitor {
    fn name(&self) -> (s: &'static str)
        ensures
            s@ == "DndMonitor"@,
    {
        "DndMonitor"
    }

    fn interval_secs(&self) -> (secs: u64)
        ensures
            secs == CHECK_INTERVAL_SECS,
    {
        CHECK_INTERVAL_SECS
    }
}

} // verus!
