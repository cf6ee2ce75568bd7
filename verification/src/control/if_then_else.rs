//! The if-then-else control node.
//!
//! The node has exactly 2 or 3 children and is not reactive. The first child is
//! the statement of the if. If it returns success, the second child is executed;
//! if it returns failure, the third child is executed. With only 2 children the
//! node returns failure whenever the statement returns failure, as if a third
//! child that always fails were present.

use vstd::prelude::*;
use crate::behavior::{fresh_data, new_data, Behavior, BehaviorConfig, BehaviorType, NodeContext, PortList};
use crate::status::BehaviorStatus;
use crate::step::{go, go_after, Fault, Halt, Next, Reporter, Step};

verus! {

/// The if-then-else control node.
pub struct IfThenElse {
    child_idx: usize,
    children_count: usize,
}

/// The state of an [`IfThenElse`].
pub struct IfThenElseState {
    /// 0 while the statement runs, else the index of the branch being executed
    pub child_idx: usize,
    /// the number of children seen at the start of the current tick
    pub children_count: usize,
}

impl View for IfThenElse {
    type V = IfThenElseState;

    closed spec fn view(&self) -> IfThenElseState {
        IfThenElseState { child_idx: self.child_idx, children_count: self.children_count }
    }
}

/// Start of a tick: check the number of children, mark the node running and
/// tick the statement, or the branch chosen in an earlier tick.
pub open spec fn ite_tick(s: IfThenElseState, status: BehaviorStatus, n: usize) -> (
    IfThenElseState,
    BehaviorStatus,
    Step,
) {
    if !(2 <= n && n <= 3) {
        (s, status, go(Next::Fail(Fault::IfThenElseChildren)))
    } else {
        (
            IfThenElseState { children_count: n, ..s },
            BehaviorStatus::Running,
            go(Next::TickChild(s.child_idx)),
        )
    }
}

/// Reaction to the status of the child ticked last.
pub open spec fn ite_resume(s: IfThenElseState, child: BehaviorStatus) -> (IfThenElseState, Step) {
    if s.child_idx == 0 {
        match child {
            BehaviorStatus::Running => (s, go(Next::Finish(BehaviorStatus::Running))),
            BehaviorStatus::Success => (
                IfThenElseState { child_idx: 1, ..s },
                go(Next::TickChild(1)),
            ),
            BehaviorStatus::Failure => if s.children_count == 3 {
                (IfThenElseState { child_idx: 2, ..s }, go(Next::TickChild(2)))
            } else {
                (s, go(Next::Finish(BehaviorStatus::Failure)))
            },
            BehaviorStatus::Idle => (s, go(Next::Fail(Fault::IdleChild(Reporter::IfThenElse)))),
            BehaviorStatus::Skipped => (s, go(Next::Fail(Fault::IfThenElseUnexpected))),
        }
    } else {
        match child {
            BehaviorStatus::Running => (s, go(Next::Finish(BehaviorStatus::Running))),
            _ => (
                IfThenElseState { child_idx: 0, ..s },
                go_after(Halt::ResetAll, Next::Finish(child)),
            ),
        }
    }
}

impl IfThenElse {
    /// A node that has not been ticked yet.
    pub fn new() -> (r: Self)
        ensures
            r@.child_idx == 0,
            r@.children_count == 0,
    {
        IfThenElse { child_idx: 0, children_count: 0 }
    }

    /// Start a tick of a node with `children` children; `status` is the node's own status.
    pub fn tick(&mut self, status: &mut BehaviorStatus, children: usize) -> (r: Step)
        ensures
            (final(self)@, *final(status), r) == ite_tick(old(self)@, *old(status), children),
    {
        if !(2 <= children && children <= 3) {
            return Step { halt: Halt::Keep, next: Next::Fail(Fault::IfThenElseChildren) };
        }
        *status = BehaviorStatus::Running;
        self.children_count = children;
        Step { halt: Halt::Keep, next: Next::TickChild(self.child_idx) }
    }

    /// Continue the tick with the status the child asked for returned.
    pub fn resume(&mut self, child: BehaviorStatus) -> (r: Step)
        ensures
            (final(self)@, r) == ite_resume(old(self)@, child),
    {
        if self.child_idx == 0 {
            match child {
                BehaviorStatus::Running => {
                    return Step { halt: Halt::Keep, next: Next::Finish(BehaviorStatus::Running) };
                },
                BehaviorStatus::Success => {
                    self.child_idx = 1;
                },
                BehaviorStatus::Failure => {
                    if self.children_count == 3 {
                        self.child_idx = 2;
                    } else {
                        return Step {
                            halt: Halt::Keep,
                            next: Next::Finish(BehaviorStatus::Failure),
                        };
                    }
                },
                BehaviorStatus::Idle => {
                    return Step {
                        halt: Halt::Keep,
                        next: Next::Fail(Fault::IdleChild(Reporter::IfThenElse)),
                    };
                },
                BehaviorStatus::Skipped => {},
            }
            if self.child_idx > 0 {
                Step { halt: Halt::Keep, next: Next::TickChild(self.child_idx) }
            } else {
                Step { halt: Halt::Keep, next: Next::Fail(Fault::IfThenElseUnexpected) }
            }
        } else {
            match child {
                BehaviorStatus::Running => Step {
                    halt: Halt::Keep,
                    next: Next::Finish(BehaviorStatus::Running),
                },
                status => {
                    self.child_idx = 0;
                    Step { halt: Halt::ResetAll, next: Next::Finish(status) }
                },
            }
        }
    }

    /// Halt the node: forget the chosen branch and reset the children.
    pub fn halt(&mut self) -> (r: Halt)
        ensures
            final(self)@ == (IfThenElseState { child_idx: 0, ..old(self)@ }),
            r == Halt::ResetAll,
    {
        self.child_idx = 0;
        Halt::ResetAll
    }
}

impl IfThenElse {
    /// Create a behavior of this node type, named `name`, with the given configuration.
    pub fn create_behavior(name: &str, config: BehaviorConfig) -> (r: Behavior)
        ensures
            fresh_data(r.data, name@, "IfThenElse"@, BehaviorType::SyncControl, config),
            r.context matches NodeContext::IfThenElse(c) && c@ == (IfThenElseState { child_idx: 0, children_count: 0 }),
    {
        let ctx = IfThenElse::new();
        Behavior {
            data: new_data(name, "IfThenElse", BehaviorType::SyncControl, config),
            context: NodeContext::IfThenElse(ctx),
        }
    }

    /// The ports of this node type.
    pub fn _ports() -> (r: PortList)
        ensures
            r.ports@.len() == 0,
    {
        let mut ports = PortList::new();
        ports
    }
}

} // verus!
