//! The force-check gate between the background loop and external
//! "check now" requests: a single boolean slot, guarded by the caller's
//! mutex and condition variable. Duplicate triggers collapse into one wake-up.

use vstd::prelude::*;

verus! {

/// The force-check slot.
#[derive(Debug, Clone, Copy, PartialEq, Eq, Structural)]
pub struct WakeGate {
    pub force_check: bool,
}

/// How an interruptible sleep ended.
#[derive(Debug, Clone, Copy, PartialEq, Eq, Structural)]
pub enum SleepOutcome {
    /// The interval elapsed (or the sleep was skipped for shutdown).
    TimedOut,
    /// A trigger ended it early.
    Triggered,
}

impl WakeGate {
    /// An empty slot.
    pub fn new() -> (r: WakeGate)
        ensures
            !r.force_check,
    {
        WakeGate { force_check: false }
    }

    /// Requests an immediate check: fills the slot (whatever it held).
    pub fn emmc_trigger_immediate_check(&mut self)
        ensures
            final(self).force_check,
    {
        self.force_check = true;
    }

    /// The waiting side observes the slot: returns whether it was filled, and
    /// empties it.
    pub fn take(&mut self) -> (r: bool)
        ensures
            r == old(self).force_check,
            !final(self).force_check,
    {
        let filled = self.force_check;
        self.force_check = false;
        filled
    }
}

/// The outcome of an interruptible sleep: when shutting down it does not
/// block and reports a timeout; otherwise it reports a timeout exactly when
/// the wait ran out without the slot being filled.
pub fn emmc_interruptible_sleep(shutting_down: bool, timed_out: bool) -> (r: SleepOutcome)
    ensures
        r == if shutting_down || timed_out {
            SleepOutcome::TimedOut
        } else {
            SleepOutcome::Triggered
        },
{
    if shutting_down || timed_out {
        SleepOutcome::TimedOut
    } else {
        SleepOutcome::Triggered
    }
}

} // verus!
