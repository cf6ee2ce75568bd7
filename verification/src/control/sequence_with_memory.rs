//! The sequence-with-memory control node.
//!
//! It ticks its children in order; children that returned success are not ticked
//! again.
//! - If all the children return success, the node returns success.
//! - If a child returns running, the node returns running; the loop is not
//!   restarted and the same running child is ticked again.
//! - If a child returns failure, the loop stops and the node returns failure; the
//!   loop is not restarted, the same child is ticked again in the next tick.
//! When all children were skipped, the node returns skipped.

use vstd::prelude::*;
use crate::behavior::{fresh_data, new_data, Behavior, BehaviorConfig, BehaviorType, NodeContext, PortList};
use crate::status::BehaviorStatus;
use crate::step::{go, go_after, Fault, Halt, Next, Reporter, Step};

verus! {

/// The sequence-with-memory control node.
pub struct SequenceWithMemory {
    child_idx: usize,
    all_skipped: bool,
    children_count: usize,
}

/// The state of a [`SequenceWithMemory`].
pub struct SequenceWithMemoryState {
    /// the child to tick next
    pub child_idx: usize,
    /// whether all children ticked since the node left idle were skipped
    pub all_skipped: bool,
    /// the number of children seen at the start of the current tick
    pub children_count: usize,
}

impl View for SequenceWithMemory {
    type V = SequenceWithMemoryState;

    closed spec fn view(&self) -> SequenceWithMemoryState {
        SequenceWithMemoryState {
            child_idx: self.child_idx,
            all_skipped: self.all_skipped,
            children_count: self.children_count,
        }
    }
}

/// The loop of the tick: tick the current child, or end the tick when none is left.
pub open spec fn swm_next(s: SequenceWithMemoryState) -> (SequenceWithMemoryState, Step) {
    if s.child_idx < s.children_count {
        (s, go(Next::TickChild(s.child_idx)))
    } else {
        let st = if s.all_skipped { BehaviorStatus::Skipped } else { BehaviorStatus::Success };
        if s.child_idx == s.children_count {
            (
                SequenceWithMemoryState { child_idx: 0, ..s },
                go_after(Halt::ResetAll, Next::Finish(st)),
            )
        } else {
            (s, go(Next::Finish(st)))
        }
    }
}

/// Start of a tick.
pub open spec fn swm_tick(s: SequenceWithMemoryState, status: BehaviorStatus, n: usize) -> (
    SequenceWithMemoryState,
    BehaviorStatus,
    Step,
) {
    let s1 = SequenceWithMemoryState {
        all_skipped: if status == BehaviorStatus::Idle { true } else { s.all_skipped },
        children_count: n,
        ..s
    };
    let (s2, r) = swm_next(s1);
    (s2, BehaviorStatus::Running, r)
}

/// Reaction to the status of the child ticked last.
pub open spec fn swm_resume(s: SequenceWithMemoryState, child: BehaviorStatus) -> (
    SequenceWithMemoryState,
    Step,
) {
    let s1 = SequenceWithMemoryState {
        all_skipped: s.all_skipped && child == BehaviorStatus::Skipped,
        ..s
    };
    match child {
        BehaviorStatus::Running => (s1, go(Next::Finish(BehaviorStatus::Running))),
        BehaviorStatus::Failure => (
            s1,
            go_after(Halt::HaltFrom(s1.child_idx), Next::Finish(BehaviorStatus::Failure)),
        ),
        BehaviorStatus::Success | BehaviorStatus::Skipped => swm_next(
            SequenceWithMemoryState { child_idx: (s1.child_idx + 1) as usize, ..s1 },
        ),
        BehaviorStatus::Idle => (
            s1,
            go(Next::Fail(Fault::IdleChild(Reporter::SequenceWithMemory))),
        ),
    }
}

impl SequenceWithMemory {
    /// A node that has not been ticked yet.
    pub fn new() -> (r: Self)
        ensures
            r@.child_idx == 0,
            !r@.all_skipped,
            r@.children_count == 0,
    {
        SequenceWithMemory { child_idx: 0, all_skipped: false, children_count: 0 }
    }

    fn next(&mut self) -> (r: Step)
        ensures
            (final(self)@, r) == swm_next(old(self)@),
    {
        if self.child_idx < self.children_count {
            return Step { halt: Halt::Keep, next: Next::TickChild(self.child_idx) };
        }
        let mut halt = Halt::Keep;
        if self.child_idx == self.children_count {
            halt = Halt::ResetAll;
            self.child_idx = 0;
        }
        if self.all_skipped {
            Step { halt, next: Next::Finish(BehaviorStatus::Skipped) }
        } else {
            Step { halt, next: Next::Finish(BehaviorStatus::Success) }
        }
    }

    /// Start a tick of a node with `children` children; `status` is the node's own status.
    pub fn tick(&mut self, status: &mut BehaviorStatus, children: usize) -> (r: Step)
        ensures
            (final(self)@, *final(status), r) == swm_tick(old(self)@, *old(status), children),
    {
        if *status == BehaviorStatus::Idle {
            self.all_skipped = true;
        }
        *status = BehaviorStatus::Running;
        self.children_count = children;
        self.next()
    }

    /// Continue the tick with the status the child asked for returned.
    pub fn resume(&mut self, child: BehaviorStatus) -> (r: Step)
        requires
            old(self)@.child_idx < old(self)@.children_count,
        ensures
            (final(self)@, r) == swm_resume(old(self)@, child),
    {
        self.all_skipped = self.all_skipped && child == BehaviorStatus::Skipped;
        match child {
            BehaviorStatus::Running => Step {
                halt: Halt::Keep,
                next: Next::Finish(BehaviorStatus::Running),
            },
            BehaviorStatus::Failure => Step {
                halt: Halt::HaltFrom(self.child_idx),
                next: Next::Finish(BehaviorStatus::Failure),
            },
            BehaviorStatus::Success | BehaviorStatus::Skipped => {
                self.child_idx = self.child_idx + 1;
                self.next()
            },
            BehaviorStatus::Idle => Step {
                halt: Halt::Keep,
                next: Next::Fail(Fault::IdleChild(Reporter::SequenceWithMemory)),
            },
        }
    }

    /// Halt the node: start again with the first child and reset the children.
    pub fn halt(&mut self) -> (r: Halt)
        ensures
            final(self)@ == (SequenceWithMemoryState { child_idx: 0, ..old(self)@ }),
            r == Halt::ResetAll,
    {
        self.child_idx = 0;
        Halt::ResetAll
    }
}

impl SequenceWithMemory {
    /// Create a behavior of this node type, named `name`, with the given configuration.
    pub fn create_behavior(name: &str, config: BehaviorConfig) -> (r: Behavior)
        ensures
            fresh_data(r.data, name@, "SequenceWithMemory"@, BehaviorType::SyncControl, config),
            r.context matches NodeContext::SequenceWithMemory(c) && c@ == (SequenceWithMemoryState { child_idx: 0, all_skipped: false, children_count: 0 }),
    {
        let ctx = SequenceWithMemory::new();
        Behavior {
            data: new_data(name, "SequenceWithMemory", BehaviorType::SyncControl, config),
            context: NodeContext::SequenceWithMemory(ctx),
        }
    }

    /// The ports of this node type.
    pub fn _ports() -> (r: PortList)
        ensures
            r.ports@.len() == 0,
    {
        let mut ports = PortList::new();
        ports
    }
}

} // verus!
