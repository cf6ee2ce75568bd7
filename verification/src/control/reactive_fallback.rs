//! The reactive-fallback control node.
//!
//! All the children are ticked from first to last in every tick:
//! - If a child returns running, the next sibling is ticked.
//! - If a child returns failure, the next sibling is ticked.
//! - If a child returns success, the node stops and returns success.
//!
//! If all the children fail, the node returns failure; if all were skipped, it
//! returns skipped; if none succeeded but one was running, it returns running.
//! To work properly, the node should not have more than a single asynchronous
//! child.

use vstd::prelude::*;
use crate::behavior::{fresh_data, new_data, Behavior, BehaviorConfig, BehaviorType, NodeContext, PortList};
use crate::status::BehaviorStatus;
use crate::step::{go, go_after, Fault, Halt, Next, Reporter, Step};

verus! {

/// The reactive-fallback control node.
pub struct ReactiveFallback {
    index: usize,
    all_skipped: bool,
    children_count: usize,
    running: bool,
}

/// The state of a [`ReactiveFallback`] within a tick.
pub struct ReactiveFallbackState {
    /// the child ticked last
    pub index: usize,
    /// whether all children ticked in this tick were skipped
    pub all_skipped: bool,
    /// the number of children seen at the start of the current tick
    pub children_count: usize,
    /// whether a child ticked in this tick returned running
    pub running: bool,
}

impl View for ReactiveFallback {
    type V = ReactiveFallbackState;

    closed spec fn view(&self) -> ReactiveFallbackState {
        ReactiveFallbackState {
            index: self.index,
            all_skipped: self.all_skipped,
            children_count: self.children_count,
            running: self.running,
        }
    }
}

/// The status the node ends a tick with when no child succeeded.
pub open spec fn rf_end_status(s: ReactiveFallbackState) -> BehaviorStatus {
    if s.running {
        BehaviorStatus::Running
    } else if s.all_skipped {
        BehaviorStatus::Skipped
    } else {
        BehaviorStatus::Failure
    }
}

/// The end of a tick in which no child succeeded, after halting `halt`: a
/// running child keeps running, else the children are reset.
pub open spec fn rf_end(s: ReactiveFallbackState, halt: Halt, then_reset: Halt) -> Step {
    if s.running {
        go_after(halt, Next::Finish(BehaviorStatus::Running))
    } else {
        go_after(then_reset, Next::Finish(rf_end_status(s)))
    }
}

/// Start of a tick.
pub open spec fn rf_tick(s: ReactiveFallbackState, n: usize) -> (
    ReactiveFallbackState,
    BehaviorStatus,
    Step,
) {
    let s1 = ReactiveFallbackState { index: 0, all_skipped: true, children_count: n, running: false };
    if n > 0 {
        (s1, BehaviorStatus::Running, go(Next::TickChild(0)))
    } else {
        (s1, BehaviorStatus::Running, go_after(Halt::ResetAll, Next::Finish(rf_end_status(s1))))
    }
}

/// Reaction to the status of the child ticked last.
pub open spec fn rf_resume(s: ReactiveFallbackState, child: BehaviorStatus) -> (
    ReactiveFallbackState,
    Step,
) {
    let s1 = ReactiveFallbackState {
        all_skipped: s.all_skipped && child == BehaviorStatus::Skipped,
        running: s.running || child == BehaviorStatus::Running,
        ..s
    };
    let s2 = ReactiveFallbackState { index: (s.index + 1) as usize, ..s1 };
    let more = s.index + 1 < s.children_count;
    match child {
        BehaviorStatus::Running | BehaviorStatus::Failure => if more {
            (s2, go(Next::TickChild(s2.index)))
        } else {
            (s2, rf_end(s2, Halt::Keep, Halt::ResetAll))
        },
        BehaviorStatus::Success => (
            s1,
            go_after(Halt::ResetAll, Next::Finish(BehaviorStatus::Success)),
        ),
        BehaviorStatus::Skipped => if more {
            (s2, go_after(Halt::HaltOne(s.index), Next::TickChild(s2.index)))
        } else {
            (s2, rf_end(s2, Halt::HaltOne(s.index), Halt::HaltOneThenReset(s.index)))
        },
        BehaviorStatus::Idle => (s1, go(Next::Fail(Fault::IdleChild(Reporter::ReactiveFallback)))),
    }
}

impl ReactiveFallback {
    /// A node that has not been ticked yet.
    pub fn new() -> (r: Self)
        ensures
            r@.index == 0,
            r@.all_skipped,
            r@.children_count == 0,
            !r@.running,
    {
        ReactiveFallback { index: 0, all_skipped: true, children_count: 0, running: false }
    }

    fn end_status(&self) -> (r: BehaviorStatus)
        ensures
            r == rf_end_status(self@),
    {
        if self.running {
            BehaviorStatus::Running
        } else if self.all_skipped {
            BehaviorStatus::Skipped
        } else {
            BehaviorStatus::Failure
        }
    }

    fn end(&self, halt: Halt, then_reset: Halt) -> (r: Step)
        ensures
            r == rf_end(self@, halt, then_reset),
    {
        if self.running {
            Step { halt, next: Next::Finish(BehaviorStatus::Running) }
        } else {
            Step { halt: then_reset, next: Next::Finish(self.end_status()) }
        }
    }

    /// Start a tick of a node with `children` children; `status` is the node's own status.
    pub fn tick(&mut self, status: &mut BehaviorStatus, children: usize) -> (r: Step)
        ensures
            (final(self)@, *final(status), r) == rf_tick(old(self)@, children),
    {
        self.all_skipped = true;
        self.running = false;
        *status = BehaviorStatus::Running;
        self.index = 0;
        self.children_count = children;
        if children > 0 {
            Step { halt: Halt::Keep, next: Next::TickChild(0) }
        } else {
            Step { halt: Halt::ResetAll, next: Next::Finish(self.end_status()) }
        }
    }

    /// Continue the tick with the status the child asked for returned.
    pub fn resume(&mut self, child: BehaviorStatus) -> (r: Step)
        requires
            old(self)@.index < old(self)@.children_count,
        ensures
            (final(self)@, r) == rf_resume(old(self)@, child),
    {
        self.all_skipped = self.all_skipped && child == BehaviorStatus::Skipped;
        self.running = self.running || child == BehaviorStatus::Running;
        let index = self.index;
        match child {
            BehaviorStatus::Success => Step {
                halt: Halt::ResetAll,
                next: Next::Finish(BehaviorStatus::Success),
            },
            BehaviorStatus::Idle => Step {
                halt: Halt::Keep,
                next: Next::Fail(Fault::IdleChild(Reporter::ReactiveFallback)),
            },
            BehaviorStatus::Failure | BehaviorStatus::Running => {
                self.index = index + 1;
                if self.index < self.children_count {
                    Step { halt: Halt::Keep, next: Next::TickChild(self.index) }
                } else {
                    self.end(Halt::Keep, Halt::ResetAll)
                }
            },
            BehaviorStatus::Skipped => {
                self.index = index + 1;
                if self.index < self.children_count {
                    Step { halt: Halt::HaltOne(index), next: Next::TickChild(self.index) }
                } else {
                    self.end(Halt::HaltOne(index), Halt::HaltOneThenReset(index))
                }
            },
        }
    }

    /// Halt the node: reset the children.
    pub fn halt(&mut self) -> (r: Halt)
        ensures
            final(self)@ == old(self)@,
            r == Halt::ResetAll,
    {
        Halt::ResetAll
    }
}

impl ReactiveFallback {
    /// Create a behavior of this node type, named `name`, with the given configuration.
    pub fn create_behavior(name: &str, config: BehaviorConfig) -> (r: Behavior)
        ensures
            fresh_data(r.data, name@, "ReactiveFallback"@, BehaviorType::SyncControl, config),
            r.context matches NodeContext::ReactiveFallback(c) && c@ == (ReactiveFallbackState { index: 0, all_skipped: true, children_count: 0, running: false }),
    {
        let ctx = ReactiveFallback::new();
        Behavior {
            data: new_data(name, "ReactiveFallback", BehaviorType::SyncControl, config),
            context: NodeContext::ReactiveFallback(ctx),
        }
    }

    /// The ports of this node type.
    pub fn _ports() -> (r: PortList)
        ensures
            r.ports@.len() == 0,
    {
        let mut ports = PortList::new();
        ports
    }
}

} // verus!
