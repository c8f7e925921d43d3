//! Monitors that watch the system (user idle time, do-not-disturb mode, running
//! applications) and ask the scheduler to pause or resume.
//!
//! Each monitor turns one reading of the system into an action; the caller takes
//! the readings at each monitor's interval and sends the resulting commands.

pub mod app_whitelist;
pub mod dnd;
pub mod idle;

pub use app_whitelist::AppWhitelistMonitor;
pub use dnd::DndMonitor;
pub use idle::IdleMonitor;

use vstd::prelude::*;

use crate::models::{Command, PauseReason};
use crate::text::concat2;

verus! {

/// Actions that a monitor can trigger.
#[derive(Debug, Clone, Copy, PartialEq, Eq, Structural)]
pub enum MonitorAction {
    /// No action needed.
    NoAction,
    /// Request to pause the scheduler.
    Pause(PauseReason),
    /// Request to resume the scheduler.
    Resume(PauseReason),
}

/// Errors that can occur during monitoring.
#[derive(Debug, Clone)]
pub enum MonitorError {
    CheckFailed(String),
    Unavailable,
}

/// The message of a monitor error.
pub open spec fn monitor_error_text(e: MonitorError) -> Seq<char> {
    match e {
        MonitorError::CheckFailed(m) => "Monitor check failed: "@ + m@,
        MonitorError::Unavailable => "Monitor unavailable on this platform"@,
    }
}

impl MonitorError {
    /// The message of the error.
    pub fn message(&self) -> (s: String)
        ensures
            s@ == monitor_error_text(*self),
    {
        match self {
            MonitorError::CheckFailed(m) => concat2("Monitor check failed: ", m.as_str()),
            MonitorError::Unavailable => String::from_str("Monitor unavailable on this platform"),
        }
    }
}

/// Result type of monitor checks.
pub type MonitorResult = Result<MonitorAction, MonitorError>;

/// A system state monitor: its name and how often it checks.
pub trait Monitor {
    /// Unique name of the monitor.
    fn name(&self) -> &'static str;

    /// Seconds between two checks.
    fn interval_secs(&self) -> u64;
}

/// Check interval shared by the built-in monitors, in seconds.
pub const CHECK_INTERVAL_SECS: u64 = 10;

/// Which monitors are due at time `now`: those whose interval has elapsed since
/// their last check (times and intervals in one unit, such as milliseconds).
pub fn due_monitors(last: &Vec<u64>, now: u64, intervals: &Vec<u64>) -> (d: Vec<bool>)
    requires
        last@.len() == intervals@.len(),
        forall|i: int| 0 <= i < last@.len() ==> #[trigger] last@[i] <= now,
    ensures
        d@.len() == last@.len(),
        forall|i: int| 0 <= i < d@.len() ==> #[trigger] d@[i] == (now - last@[i] >= intervals@[i]),
{
    let mut d: Vec<bool> = Vec::new();
    let mut i: usize = 0;
    while i < last.len()
        invariant
            i <= last.len(),
            last@.len() == intervals@.len(),
            forall|k: int| 0 <= k < last@.len() ==> #[trigger] last@[k] <= now,
            d@.len() == i,
            forall|k: int| 0 <= k < i ==> #[trigger] d@[k] == (now - last@[k] >= intervals@[k]),
        decreases last.len() - i,
    {
        d.push(now - last[i] >= intervals[i]);
        i += 1;
    }
    d
}

/// The shortest of the monitors' intervals, the pace at which they are looked at;
/// none without monitors.
pub fn shortest_interval(intervals: &Vec<u64>) -> (m: Option<u64>)
    ensures
        m is None <==> intervals@.len() == 0,
        m matches Some(x) ==> intervals@.contains(x) && forall|i: int| 0 <= i < intervals@.len() ==> x <= #[trigger] intervals@[i],
{
    if intervals.len() == 0 {
        return None;
    }
    let mut best = intervals[0];
    let mut i: usize = 1;
    while i < intervals.len()
        invariant
            1 <= i <= intervals.len(),
            intervals@.contains(best),
            forall|k: int| 0 <= k < i ==> best <= #[trigger] intervals@[k],
        decreases intervals.len() - i,
    {
        if intervals[i] < best {
            best = intervals[i];
        }
        i += 1;
    }
    Some(best)
}

/// Converts a monitor action to the command it requests.
pub fn action_to_command(action: MonitorAction) -> (c: Option<Command>)
    ensures
        c == (match action {
            MonitorAction::NoAction => None,
            MonitorAction::Pause(r) => Some(Command::Pause(r)),
            MonitorAction::Resume(r) => Some(Command::Resume(r)),
        }),
{
    match action {
        MonitorAction::NoAction => None,
        MonitorAction::Pause(reason) => Some(Command::Pause(reason)),
        MonitorAction::Resume(reason) => Some(Command::Resume(reason)),
    }
}

} // verus!
