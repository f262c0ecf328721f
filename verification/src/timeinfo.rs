//! Timing metadata of packets and frames.

use crate::rational::Rational64;
use vstd::prelude::*;

verus! {

/// When a unit of media is presented and for how long, as exact fractions.
///
/// Every fraction present has a positive denominator: `Rational64` cannot
/// hold any other.
#[derive(Clone, Copy, Debug, PartialEq, Eq, Structural)]
pub struct TimeInfo {
    /// Presentation timestamp, in units of the time base.
    pub pts: Option<Rational64>,
    /// Duration, in units of the time base.
    pub duration: Option<Rational64>,
    /// Time base: the length in seconds of one unit.
    pub timebase: Option<Rational64>,
}

impl TimeInfo {
    /// The value with no timestamp, no duration and no time base.
    pub open spec fn unset() -> TimeInfo {
        TimeInfo { pts: None, duration: None, timebase: None }
    }
}

impl Default for TimeInfo {
    fn default() -> (t: TimeInfo)
        ensures
            t == TimeInfo::unset(),
    {
        TimeInfo { pts: None, duration: None, timebase: None }
    }
}

} // verus!
