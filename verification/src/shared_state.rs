//! Pause and session state shared by the schedulers and the monitors.
//!
//! The scheduler is paused while at least one pause reason is present and runs
//! again only once every reason is cleared. Sessions mark an open break window or
//! a displayed attention prompt, so that monitors can avoid reacting to them.

use vstd::prelude::*;

use crate::models::{PauseReason, PauseReasons};

verus! {

/// The abstract content of the shared state.
pub struct SharedStateModel {
    pub reasons: Set<PauseReason>,
    /// When a timed manual pause ends by itself (UTC timestamp, seconds), if one was set.
    pub timed_pause_until: Option<i64>,
    pub in_break_session: bool,
    pub in_attention_session: bool,
}

/// State shared between all schedulers and monitors.
#[derive(Debug)]
pub struct SharedSchedulerState {
    pause_reasons: PauseReasons,
    timed_manual: bool,
    timed_pause_until: Option<i64>,
    in_break_session: bool,
    in_attention_session: bool,
}

impl View for SharedSchedulerState {
    type V = SharedStateModel;

    closed spec fn view(&self) -> SharedStateModel {
        SharedStateModel {
            reasons: if self.timed_manual {
                self.pause_reasons@.insert(PauseReason::TimedManual)
            } else {
                self.pause_reasons@
            },
            timed_pause_until: self.timed_pause_until,
            in_break_session: self.in_break_session,
            in_attention_session: self.in_attention_session,
        }
    }
}

impl SharedStateModel {
    /// The scheduler is paused exactly while some pause reason is present.
    pub open spec fn paused(self) -> bool {
        self.reasons != Set::<PauseReason>::empty()
    }
}

impl SharedSchedulerState {
    /// A running state with no session and no timed pause.
    pub fn new() -> (s: SharedSchedulerState)
        ensures
            s@.reasons == Set::<PauseReason>::empty(),
            s@.timed_pause_until is None,
            !s@.in_break_session,
            !s@.in_attention_session,
    {
        SharedSchedulerState {
            pause_reasons: PauseReasons::empty(),
            timed_manual: false,
            timed_pause_until: None,
            in_break_session: false,
            in_attention_session: false,
        }
    }

    /// Adds a pause reason. Returns `true` exactly when this caused the transition
    /// from running to paused, i.e. the set of reasons was empty before.
    pub fn add_pause_reason(&mut self, reason: PauseReason) -> (became_paused: bool)
        ensures
            final(self)@.reasons == old(self)@.reasons.insert(reason),
            final(self)@.timed_pause_until == old(self)@.timed_pause_until,
            final(self)@.in_break_session == old(self)@.in_break_session,
            final(self)@.in_attention_session == old(self)@.in_attention_session,
            became_paused == !old(self)@.paused(),
    {
        let was_running = !self.is_paused();
        if reason == PauseReason::TimedManual {
            self.timed_manual = true;
        } else {
            self.pause_reasons.insert(reason);
        }
        proof {
            assert(self@.reasons =~= old(self)@.reasons.insert(reason));
        }
        was_running
    }

    /// Removes a pause reason; removing the timed manual pause also clears its
    /// deadline. Returns `true` exactly when this caused the transition from paused
    /// to running, i.e. it removed the last reason.
    pub fn remove_pause_reason(&mut self, reason: PauseReason) -> (became_running: bool)
        ensures
            final(self)@.reasons == old(self)@.reasons.remove(reason),
            final(self)@.timed_pause_until == (if reason == PauseReason::TimedManual {
                None
            } else {
                old(self)@.timed_pause_until
            }),
            final(self)@.in_break_session == old(self)@.in_break_session,
            final(self)@.in_attention_session == old(self)@.in_attention_session,
            became_running == (old(self)@.paused() && !final(self)@.paused()),
    {
        let was_paused = self.is_paused();
        if reason == PauseReason::TimedManual {
            self.timed_manual = false;
            self.timed_pause_until = None;
        } else {
            self.pause_reasons.remove(reason);
        }
        proof {
            assert(self@.reasons =~= old(self)@.reasons.remove(reason));
        }
        was_paused && !self.is_paused()
    }

    /// Returns whether any pause reason is present.
    pub fn is_paused(&self) -> (b: bool)
        ensures
            b == self@.paused(),
    {
        let flags_empty = self.pause_reasons.is_empty();
        proof {
            if self.timed_manual {
                assert(self@.reasons.contains(PauseReason::TimedManual));
            } else if flags_empty {
                assert(self@.reasons =~= Set::<PauseReason>::empty());
            }
        }
        !flags_empty || self.timed_manual
    }

    /// Returns the set of active flagged pause reasons: every reason but a timed
    /// manual pause, which `timed_pause_until` and `is_paused` report.
    pub fn pause_reasons(&self) -> (r: PauseReasons)
        ensures
            r@ == self@.reasons.remove(PauseReason::TimedManual),
    {
        proof {
            assert(self.pause_reasons@ =~= self@.reasons.remove(PauseReason::TimedManual));
        }
        self.pause_reasons
    }

    /// Sets (or clears) the deadline of the timed manual pause.
    pub fn set_timed_pause_until(&mut self, until: Option<i64>)
        ensures
            final(self)@ == (SharedStateModel { timed_pause_until: until, ..old(self)@ }),
    {
        self.timed_pause_until = until;
    }

    /// When the timed manual pause ends by itself, if a deadline is set.
    pub fn timed_pause_until(&self) -> (r: Option<i64>)
        ensures
            r == self@.timed_pause_until,
    {
        self.timed_pause_until
    }

    /// Returns whether a break or an attention session is active.
    pub fn in_any_session(&self) -> (b: bool)
        ensures
            b == (self@.in_break_session || self@.in_attention_session),
    {
        self.in_break_session || self.in_attention_session
    }

    /// Returns whether a break session is active.
    pub fn in_break_session(&self) -> (b: bool)
        ensures
            b == self@.in_break_session,
    {
        self.in_break_session
    }

    /// Returns whether an attention session is active.
    pub fn in_attention_session(&self) -> (b: bool)
        ensures
            b == self@.in_attention_session,
    {
        self.in_attention_session
    }

    /// Marks the start of a break session; starting an active one changes nothing.
    pub fn start_break_session(&mut self)
        ensures
            final(self)@ == (SharedStateModel { in_break_session: true, ..old(self)@ }),
    {
        self.in_break_session = true;
    }

    /// Marks the end of a break session; ending an inactive one changes nothing.
    pub fn end_break_session(&mut self)
        ensures
            final(self)@ == (SharedStateModel { in_break_session: false, ..old(self)@ }),
    {
        self.in_break_session = false;
    }

    /// Marks the start of an attention session; starting an active one changes nothing.
    pub fn start_attention_session(&mut self)
        ensures
            final(self)@ == (SharedStateModel { in_attention_session: true, ..old(self)@ }),
    {
        self.in_attention_session = true;
    }

    /// Marks the end of an attention session; ending an inactive one changes nothing.
    pub fn end_attention_session(&mut self)
        ensures
            final(self)@ == (SharedStateModel { in_attention_session: false, ..old(self)@ }),
    {
        self.in_attention_session = false;
    }
}

impl Default for SharedSchedulerState {
    fn default() -> (s: SharedSchedulerState)
        ensures
            s@.reasons == Set::<PauseReason>::empty(),
            s@.timed_pause_until is None,
            !s@.in_break_session,
            !s@.in_attention_session,
    {
        SharedSchedulerState::new()
    }
}

} // verus!
