//! What the engine exchanges with the host timer: the observation it takes
//! each tick and the commands it gives back.

use vstd::prelude::*;
use crate::timer::TimerPhase;

verus! {

/// The display variables published to the host.
#[derive(Clone, Copy, Debug, PartialEq, Eq, Structural)]
pub enum DisplayVar {
    Hits,
    SegmentHits,
    PbHits,
    ComparisonHits,
    DeltaHits,
}

pub open spec fn display_name(v: DisplayVar) -> Seq<char> {
    match v {
        DisplayVar::Hits => "hits"@,
        DisplayVar::SegmentHits => "segment hits"@,
        DisplayVar::PbHits => "pb hits"@,
        DisplayVar::ComparisonHits => "comparison hits"@,
        DisplayVar::DeltaHits => "delta hits"@,
    }
}

impl DisplayVar {
    /// The key under which the host shows the variable.
    pub fn name(&self) -> (r: &'static str)
        ensures
            r@ == display_name(*self),
    {
        match self {
            DisplayVar::Hits => "hits",
            DisplayVar::SegmentHits => "segment hits",
            DisplayVar::PbHits => "pb hits",
            DisplayVar::ComparisonHits => "comparison hits",
            DisplayVar::DeltaHits => "delta hits",
        }
    }
}

/// A displayed value: a number, or the dash placeholder.
#[derive(Clone, Copy, Debug, PartialEq, Eq, Structural)]
pub enum DisplayValue {
    Count(i64),
    Dash,
}

/// What the engine asks the host timer to do, in order.
#[derive(Clone, Copy, Debug, PartialEq, Eq, Structural)]
pub enum HostCommand {
    Start,
    Split,
    SkipSplit,
    Reset,
    /// The split of a segment that ends by hand: booked as a split, and
    /// distinct from one that a rule detected.
    ManualSplit,
    PauseGameTime,
    ResumeGameTime,
    Show(DisplayVar, DisplayValue),
    /// The comparison record changed: persist `comparison_hits`.
    SaveComparison,
}

/// The host timer as observed on one tick: its phase, and, where the host
/// reports them, the index of the segment in progress and for each earlier
/// segment whether it was split (`true`) or skipped (`false`).
pub struct TimerObservation {
    pub phase: TimerPhase,
    pub split_index: Option<u64>,
    pub segments_splitted: Vec<bool>,
}

/// A host index as the engine holds it; one that does not fit is treated as
/// unavailable.
pub open spec fn host_index(i: Option<u64>) -> Option<usize> {
    match i {
        Some(v) => if v < usize::MAX {
            Some(v as usize)
        } else {
            None
        },
        None => None,
    }
}

pub fn index_from_host(i: Option<u64>) -> (r: Option<usize>)
    ensures
        r == host_index(i),
{
    match i {
        Some(v) => if v < usize::MAX as u64 {
            Some(v as usize)
        } else {
            None
        },
        None => None,
    }
}

} // verus!
