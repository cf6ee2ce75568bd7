//! The reactive-sequence control node.
//!
//! All the children are ticked from first to last in every tick:
//! - If a child returns running, the remaining siblings are halted and the node
//!   returns running.
//! - If a child returns success, the next sibling is ticked.
//! - If a child returns failure, the node stops and returns failure.
//!
//! If all the children return success, the node returns success; if all were
//! skipped, it returns skipped. Only a single child may ever return running.

use vstd::prelude::*;
use crate::behavior::{fresh_data, new_data, Behavior, BehaviorConfig, BehaviorType, NodeContext, PortList};
use crate::status::BehaviorStatus;
use crate::step::{go, go_after, Fault, Halt, Next, Reporter, Step};

verus! {

/// The reactive-sequence control node.
pub struct ReactiveSequence {
    running_child: i32,
    index: usize,
    all_skipped: bool,
    children_count: usize,
}

/// The state of a [`ReactiveSequence`].
pub struct ReactiveSequenceState {
    /// the child that returned running first, -1 while there is none
    pub running_child: i32,
    /// the child ticked last
    pub index: usize,
    /// whether all children ticked in this tick were skipped
    pub all_skipped: bool,
    /// the number of children seen at the start of the current tick
    pub children_count: usize,
}

impl View for ReactiveSequence {
    type V = ReactiveSequenceState;

    closed spec fn view(&self) -> ReactiveSequenceState {
        ReactiveSequenceState {
            running_child: self.running_child,
            index: self.index,
            all_skipped: self.all_skipped,
            children_count: self.children_count,
        }
    }
}

/// The status the node ends a tick with when no child failed or ran.
pub open spec fn rs_end_status(s: ReactiveSequenceState) -> BehaviorStatus {
    if s.all_skipped { BehaviorStatus::Skipped } else { BehaviorStatus::Success }
}

/// Start of a tick.
pub open spec fn rs_tick(s: ReactiveSequenceState, n: usize) -> (
    ReactiveSequenceState,
    BehaviorStatus,
    Step,
) {
    let s1 = ReactiveSequenceState { index: 0, all_skipped: true, children_count: n, ..s };
    if n > 0 {
        (s1, BehaviorStatus::Running, go(Next::TickChild(0)))
    } else {
        (s1, BehaviorStatus::Running, go_after(Halt::ResetAll, Next::Finish(rs_end_status(s1))))
    }
}

/// Reaction to the status of the child ticked last.
pub open spec fn rs_resume(s: ReactiveSequenceState, child: BehaviorStatus) -> (
    ReactiveSequenceState,
    Step,
) {
    let s1 = ReactiveSequenceState {
        all_skipped: s.all_skipped && child == BehaviorStatus::Skipped,
        ..s
    };
    let s2 = ReactiveSequenceState { index: (s.index + 1) as usize, ..s1 };
    let more = s.index + 1 < s.children_count;
    match child {
        BehaviorStatus::Running => if s.running_child == -1 {
            (
                ReactiveSequenceState { running_child: s.index as i32, ..s1 },
                go_after(Halt::HaltAfter(s.index), Next::Finish(BehaviorStatus::Running)),
            )
        } else if s.running_child != s.index as i32 {
            (s1, go_after(Halt::HaltAfter(s.index), Next::Fail(Fault::ReactiveSequenceRunning)))
        } else {
            (s1, go_after(Halt::HaltAfter(s.index), Next::Finish(BehaviorStatus::Running)))
        },
        BehaviorStatus::Failure => (
            s1,
            go_after(Halt::ResetAll, Next::Finish(BehaviorStatus::Failure)),
        ),
        BehaviorStatus::Success => if more {
            (s2, go(Next::TickChild(s2.index)))
        } else {
            (s2, go_after(Halt::ResetAll, Next::Finish(rs_end_status(s2))))
        },
        BehaviorStatus::Skipped => if more {
            (s2, go_after(Halt::HaltOne(s.index), Next::TickChild(s2.index)))
        } else {
            (s2, go_after(Halt::HaltOneThenReset(s.index), Next::Finish(rs_end_status(s2))))
        },
        BehaviorStatus::Idle => (s1, go(Next::Fail(Fault::IdleChild(Reporter::ReactiveSequence)))),
    }
}

impl ReactiveSequence {
    /// A node that has not been ticked yet.
    pub fn new() -> (r: Self)
        ensures
            r@.running_child == -1,
            r@.index == 0,
            r@.all_skipped,
            r@.children_count == 0,
    {
        ReactiveSequence { running_child: -1i32, index: 0, all_skipped: true, children_count: 0 }
    }

    fn end_status(&self) -> (r: BehaviorStatus)
        ensures
            r == rs_end_status(self@),
    {
        if self.all_skipped {
            BehaviorStatus::Skipped
        } else {
            BehaviorStatus::Success
        }
    }

    /// Start a tick of a node with `children` children; `status` is the node's own status.
    pub fn tick(&mut self, status: &mut BehaviorStatus, children: usize) -> (r: Step)
        ensures
            (final(self)@, *final(status), r) == rs_tick(old(self)@, children),
    {
        self.all_skipped = true;
        *status = BehaviorStatus::Running;
        self.index = 0;
        self.children_count = children;
        if children > 0 {
            Step { halt: Halt::Keep, next: Next::TickChild(0) }
        } else {
            Step { halt: Halt::ResetAll, next: Next::Finish(self.end_status()) }
        }
    }

    /// Continue the tick with the status the child asked for returned.
    pub fn resume(&mut self, child: BehaviorStatus) -> (r: Step)
        requires
            old(self)@.index < old(self)@.children_count,
        ensures
            (final(self)@, r) == rs_resume(old(self)@, child),
    {
        self.all_skipped = self.all_skipped && child == BehaviorStatus::Skipped;
        let index = self.index;
        match child {
            BehaviorStatus::Running => {
                let counter = index as i32;
                if self.running_child == -1 {
                    self.running_child = counter;
                } else if self.running_child != counter {
                    return Step {
                        halt: Halt::HaltAfter(index),
                        next: Next::Fail(Fault::ReactiveSequenceRunning),
                    };
                }
                Step { halt: Halt::HaltAfter(index), next: Next::Finish(BehaviorStatus::Running) }
            },
            BehaviorStatus::Failure => Step {
                halt: Halt::ResetAll,
                next: Next::Finish(BehaviorStatus::Failure),
            },
            BehaviorStatus::Idle => Step {
                halt: Halt::Keep,
                next: Next::Fail(Fault::IdleChild(Reporter::ReactiveSequence)),
            },
            BehaviorStatus::Success => {
                self.index = index + 1;
                if self.index < self.children_count {
                    Step { halt: Halt::Keep, next: Next::TickChild(self.index) }
                } else {
                    Step { halt: Halt::ResetAll, next: Next::Finish(self.end_status()) }
                }
            },
            BehaviorStatus::Skipped => {
                self.index = index + 1;
                if self.index < self.children_count {
                    Step { halt: Halt::HaltOne(index), next: Next::TickChild(self.index) }
                } else {
                    Step {
                        halt: Halt::HaltOneThenReset(index),
                        next: Next::Finish(self.end_status()),
                    }
                }
            },
        }
    }

    /// Halt the node: reset the children.
    pub fn halt(&mut self) -> (r: Halt)
        ensures
            final(self)@ == old(self)@,
            r == Halt::ResetAll,
    {
        Halt::ResetAll
    }
}

impl ReactiveSequence {
    /// Create a behavior of this node type, named `name`, with the given configuration.
    pub fn create_behavior(name: &str, config: BehaviorConfig) -> (r: Behavior)
        ensures
            fresh_data(r.data, name@, "ReactiveSequence"@, BehaviorType::SyncControl, config),
            r.context matches NodeContext::ReactiveSequence(c) && c@ == (ReactiveSequenceState { running_child: -1i32, index: 0, all_skipped: true, children_count: 0 }),
    {
        let ctx = ReactiveSequence::new();
        Behavior {
            data: new_data(name, "ReactiveSequence", BehaviorType::SyncControl, config),
            context: NodeContext::ReactiveSequence(ctx),
        }
    }

    /// The ports of this node type.
    pub fn _ports() -> (r: PortList)
        ensures
            r.ports@.len() == 0,
    {
        let mut ports = PortList::new();
        ports
    }
}

} // verus!
