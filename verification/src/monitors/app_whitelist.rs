//! Monitor of running applications against the exclusion rules.

use vstd::prelude::*;

use super::{Monitor, MonitorAction, MonitorError, MonitorResult, CHECK_INTERVAL_SECS};
use crate::config::{AppExclusion, ExclusionRule};
use crate::models::PauseReason;

verus! {

/// A running process as the monitor reads it: its name and executable path.
#[derive(Debug, Clone)]
pub struct ProcessInfo {
    pub name: String,
    pub exe: Option<String>,
}

/// Whether a process matches a rule, by its name or its executable path.
pub open spec fn process_matches(rule: AppExclusion, p: ProcessInfo) -> bool {
    ||| rule.spec_matches(p.name@)
    ||| (p.exe matches Some(path) && rule.spec_matches(path@))
}

/// `i` is the first active rule of `rules`.
pub open spec fn is_first_active(rules: Seq<AppExclusion>, i: int) -> bool {
    &&& 0 <= i < rules.len()
    &&& rules[i].active
    &&& forall|j: int| 0 <= j < i ==> !(#[trigger] rules[j]).active
}

/// Whether the rules ask for a pause given the running processes: the first active
/// rule decides; a pause rule while a matching process runs, a resume rule while none
/// does. Without an active rule there is no pause.
pub open spec fn spec_should_pause(rules: Seq<AppExclusion>, procs: Seq<ProcessInfo>) -> bool {
    if exists|i: int| is_first_active(rules, i) {
        let rule = rules[choose|i: int| is_first_active(rules, i)];
        let running = exists|k: int| 0 <= k < procs.len() && process_matches(rule, #[trigger] procs[k]);
        match rule.rule {
            ExclusionRule::Pause => running,
            ExclusionRule::Resume => !running,
        }
    } else {
        false
    }
}

/// Monitor that pauses the scheduler according to the application exclusion rules.
#[derive(Debug, Clone)]
pub struct AppWhitelistMonitor {
    /// Configured exclusion rules.
    pub exclusions: Vec<AppExclusion>,
    /// Whether the monitor paused the scheduler.
    pub is_paused: bool,
}

impl AppWhitelistMonitor {
    /// A monitor with the given rules that has not paused.
    pub fn new(exclusions: Vec<AppExclusion>) -> (m: AppWhitelistMonitor)
        ensures
            m.exclusions@ == exclusions@,
            !m.is_paused,
    {
        AppWhitelistMonitor { exclusions, is_paused: false }
    }

    /// Replaces the rules.
    pub fn update_exclusions(&mut self, exclusions: Vec<AppExclusion>)
        ensures
            final(self).exclusions@ == exclusions@,
            final(self).is_paused == old(self).is_paused,
    {
        self.exclusions = exclusions;
    }

    /// Returns whether the rules ask for a pause given the running processes.
    pub fn check_processes(&self, processes: &Vec<ProcessInfo>) -> (b: bool)
        ensures
            b == spec_should_pause(self.exclusions@, processes@),
    {
        let mut i: usize = 0;
        while i < self.exclusions.len()
            invariant
                i <= self.exclusions.len(),
                forall|j: int| 0 <= j < i ==> !(#[trigger] self.exclusions@[j]).active,
            ensures
                i <= self.exclusions.len(),
                forall|j: int| 0 <= j < i ==> !(#[trigger] self.exclusions@[j]).active,
                i < self.exclusions.len() ==> self.exclusions@[i as int].active,
            decreases self.exclusions.len() - i,
        {
            if self.exclusions[i].active {
                break;
            }
            i += 1;
        }
        if i == self.exclusions.len() {
            proof {
                assert forall|k: int| !is_first_active(self.exclusions@, k) by {
                    if 0 <= k < self.exclusions@.len() {
                        assert(!self.exclusions@[k].active);
                    }
                }
            }
            return false;
        }
        let rule = &self.exclusions[i];
        proof {
            assert(is_first_active(self.exclusions@, i as int));
            assert forall|k: int| is_first_active(self.exclusions@, k) implies k == i by {
                if k < i {
                    assert(!self.exclusions@[k].active);
                } else if k > i {
                    assert(!self.exclusions@[i as int].active);
                }
            }
        }
        let mut running = false;
        let mut k: usize = 0;
        while k < processes.len()
            invariant
                k <= processes.len(),
                running == exists|m: int| 0 <= m < k && process_matches(*rule, #[trigger] processes@[m]),
            decreases processes.len() - k,
        {
            let p = &processes[k];
            let by_name = rule.matches(p.name.as_str());
            let by_path = match &p.exe {
                Some(path) => rule.matches(path.as_str()),
                None => false,
            };
            if by_name || by_path {
                running = true;
            }
            proof {
                if by_name || by_path {
                    assert(process_matches(*rule, processes@[k as int]));
                }
                if !(by_name || by_path) {
                    assert(!process_matches(*rule, processes@[k as int]));
                }
            }
            k += 1;
        }
        match rule.rule {
            ExclusionRule::Pause => running,
            ExclusionRule::Resume => !running,
        }
    }

    /// Handles one reading of the running processes: without rules nothing happens;
    /// otherwise the monitor pauses when the rules start asking for a pause and
    /// resumes when they stop.
    pub fn check_with(&mut self, processes: &Vec<ProcessInfo>) -> (r: MonitorResult)
        ensures
            final(self).exclusions@ == old(self).exclusions@,
            old(self).exclusions@.len() == 0 ==> final(self).is_paused == old(self).is_paused
                && r == Ok::<MonitorAction, MonitorError>(MonitorAction::NoAction),
            old(self).exclusions@.len() > 0 ==> {
                let should = spec_should_pause(old(self).exclusions@, processes@);
                &&& final(self).is_paused == should
                &&& r == Ok::<MonitorAction, MonitorError>(
                    if should && !old(self).is_paused {
                        MonitorAction::Pause(PauseReason::AppExclusion)
                    } else if !should && old(self).is_paused {
                        MonitorAction::Resume(PauseReason::AppExclusion)
                    } else {
                        MonitorAction::NoAction
                    })
            },
    {
        if self.exclusions.len() == 0 {
            return Ok(MonitorAction::NoAction);
        }
        let should_pause = self.check_processes(processes);
        if should_pause && !self.is_paused {
            self.is_paused = true;
            Ok(MonitorAction::Pause(PauseReason::AppExclusion))
        } else if !should_pause && self.is_paused {
            self.is_paused = false;
            Ok(MonitorAction::Resume(PauseReason::AppExclusion))
        } else {
            Ok(MonitorAction::NoAction)
        }
    }
}

impl Monitor for AppWhitelistMonitor {
    fn name(&self) -> (s: &'static str)
        ensures
            s@ == "AppWhitelistMonitor"@,
    {
        "AppWhitelistMonitor"
    }

    fn interval_secs(&self) -> (secs: u64)
        ensures
            secs == CHECK_INTERVAL_SECS,
    {
        CHECK_INTERVAL_SECS
    }
}

} // verus!
