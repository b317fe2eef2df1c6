//! Actions a split rule can ask for, and the host timer's coarse phase.

use vstd::prelude::*;

verus! {

/// What a split rule asks of the timer on one tick.
#[derive(Clone, Copy, Debug, PartialEq, Eq, Structural)]
pub enum SplitterAction {
    Pass,
    Split,
    Skip,
    Reset,
    ManualSplit,
}

impl Default for SplitterAction {
    fn default() -> (r: SplitterAction)
        ensures
            r == SplitterAction::Pass,
    {
        SplitterAction::Pass
    }
}

impl SplitterAction {
    /// Keeps an action that is not `Pass`; on `Pass`, asks `f` instead.
    pub fn or_else<F: FnOnce() -> SplitterAction>(self, f: F) -> (r: SplitterAction)
        requires
            self == SplitterAction::Pass ==> f.requires(()),
        ensures
            self == SplitterAction::Pass ==> f.ensures((), r),
            self != SplitterAction::Pass ==> r == self,
    {
        match self {
            SplitterAction::Pass => f(),
            a => a,
        }
    }
}

/// `Split` when the condition holds, `Pass` otherwise.
pub open spec fn split_if(b: bool) -> SplitterAction {
    if b {
        SplitterAction::Split
    } else {
        SplitterAction::Pass
    }
}

/// `Split` when `b` holds, `Pass` otherwise.
pub fn should_split(b: bool) -> (r: SplitterAction)
    ensures
        r == split_if(b),
{
    if b {
        SplitterAction::Split
    } else {
        SplitterAction::Pass
    }
}

/// The host timer's coarse phase.
#[derive(Clone, Copy, Debug, PartialEq, Eq, Structural)]
pub enum TimerPhase {
    NotRunning,
    Running,
    Paused,
    Ended,
}

/// Whether the phase lies between two attempts: not started, or finished.
pub open spec fn between_runs(s: TimerPhase) -> bool {
    s == TimerPhase::NotRunning || s == TimerPhase::Ended
}

/// Whether the timer is between two attempts.
pub fn is_timer_state_between_runs(s: TimerPhase) -> (r: bool)
    ensures
        r == between_runs(s),
{
    s == TimerPhase::NotRunning || s == TimerPhase::Ended
}

} // verus!
