//! States of builders: which parts a builder has been given so far.

use vstd::prelude::*;
use core::time::Duration;

verus! {

/// The builder has no storage value set.
pub struct NoStorage;

/// The builder has no selector set.
pub struct NoSelector;

/// The builder has the selector set.
pub struct Selector {
    /// the selector
    pub selector: String,
}

/// The builder has no interval set.
pub struct NoInterval;

/// The builder has the interval set.
pub struct Interval {
    /// the duration of the interval
    pub interval: Duration,
}

/// The builder has no callback set.
pub struct NoCallback;

/// The builder has a callback set.
pub struct Callback<C> where C: Send + Sync + 'static {
    /// the callback to use
    pub callback: C,
}

} // verus!
