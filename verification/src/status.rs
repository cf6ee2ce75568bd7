//! Status values of behaviors and the kinds of behaviors.

use vstd::prelude::*;

verus! {

/// Status of a behavior after (or during) a tick.
#[derive(Clone, Copy, Debug, PartialEq, Eq, Structural)]
pub enum BehaviorStatus {
    /// not yet ticked or reset
    Idle,
    /// still working
    Running,
    /// finished successfully
    Success,
    /// finished unsuccessfully
    Failure,
    /// did not take part in the tick
    Skipped,
}

/// A status is completed when the behavior has finished its work.
pub open spec fn spec_is_completed(s: BehaviorStatus) -> bool {
    s == BehaviorStatus::Success || s == BehaviorStatus::Failure
}

impl BehaviorStatus {
    /// `true` for [`BehaviorStatus::Success`] and [`BehaviorStatus::Failure`].
    pub fn is_completed(&self) -> (r: bool)
        ensures
            r == spec_is_completed(*self),
    {
        match self {
            BehaviorStatus::Success | BehaviorStatus::Failure => true,
            _ => false,
        }
    }
}

} // verus!
