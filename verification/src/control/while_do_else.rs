//! The while-do-else control node.
//!
//! It has exactly 2 or 3 children and is the reactive form of the if-then-else
//! node. The first child is the statement and is executed at every tick. If it
//! returns success, the second child is executed; if it returns failure, the
//! third child is executed. If the second or third child is running and the
//! statement changes, the running child is stopped before its sibling starts.

use vstd::prelude::*;
use crate::behavior::{fresh_data, new_data, Behavior, BehaviorConfig, BehaviorType, NodeContext, PortList};
use crate::status::BehaviorStatus;
use crate::step::{go, go_after, Fault, Halt, Next, Step};

verus! {

/// The while-do-else control node.
pub struct WhileDoElse {
    in_branch: bool,
    children_count: usize,
}

/// The state of a [`WhileDoElse`] within a tick.
pub struct WhileDoElseState {
    /// whether the child ticked last is a branch (not the statement)
    pub in_branch: bool,
    /// the number of children seen at the start of the current tick
    pub children_count: usize,
}

impl View for WhileDoElse {
    type V = WhileDoElseState;

    closed spec fn view(&self) -> WhileDoElseState {
        WhileDoElseState { in_branch: self.in_branch, children_count: self.children_count }
    }
}

/// Start of a tick.
pub open spec fn wde_tick(s: WhileDoElseState, status: BehaviorStatus, n: usize) -> (
    WhileDoElseState,
    BehaviorStatus,
    Step,
) {
    if !(2 <= n && n <= 3) {
        (s, status, go(Next::Fail(Fault::WhileDoElseChildren)))
    } else {
        (
            WhileDoElseState { in_branch: false, children_count: n },
            BehaviorStatus::Running,
            go(Next::TickChild(0)),
        )
    }
}

/// Reaction to the status of the child ticked last.
pub open spec fn wde_resume(s: WhileDoElseState, child: BehaviorStatus) -> (WhileDoElseState, Step) {
    let b = WhileDoElseState { in_branch: true, ..s };
    if !s.in_branch {
        match child {
            BehaviorStatus::Running => (s, go(Next::Finish(BehaviorStatus::Running))),
            BehaviorStatus::Success => if s.children_count == 3 {
                (b, go_after(Halt::HaltOne(2), Next::TickChild(1)))
            } else {
                (b, go(Next::TickChild(1)))
            },
            BehaviorStatus::Failure => if s.children_count == 3 {
                (b, go_after(Halt::HaltOne(1), Next::TickChild(2)))
            } else if s.children_count == 2 {
                (s, go_after(Halt::ResetAll, Next::Finish(BehaviorStatus::Failure)))
            } else {
                (s, go_after(Halt::ResetAll, Next::Finish(BehaviorStatus::Idle)))
            },
            _ => (s, go_after(Halt::ResetAll, Next::Finish(BehaviorStatus::Idle))),
        }
    } else {
        match child {
            BehaviorStatus::Running => (s, go(Next::Finish(BehaviorStatus::Running))),
            _ => (s, go_after(Halt::ResetAll, Next::Finish(child))),
        }
    }
}

impl WhileDoElse {
    /// A node that has not been ticked yet.
    pub fn new() -> (r: Self)
        ensures
            !r@.in_branch,
            r@.children_count == 0,
    {
        WhileDoElse { in_branch: false, children_count: 0 }
    }

    /// Start a tick of a node with `children` children; `status` is the node's own status.
    pub fn tick(&mut self, status: &mut BehaviorStatus, children: usize) -> (r: Step)
        ensures
            (final(self)@, *final(status), r) == wde_tick(old(self)@, *old(status), children),
    {
        if !(2 <= children && children <= 3) {
            return Step { halt: Halt::Keep, next: Next::Fail(Fault::WhileDoElseChildren) };
        }
        *status = BehaviorStatus::Running;
        self.in_branch = false;
        self.children_count = children;
        Step { halt: Halt::Keep, next: Next::TickChild(0) }
    }

    /// Continue the tick with the status the child asked for returned.
    pub fn resume(&mut self, child: BehaviorStatus) -> (r: Step)
        ensures
            (final(self)@, r) == wde_resume(old(self)@, child),
    {
        if !self.in_branch {
            match child {
                BehaviorStatus::Running => Step {
                    halt: Halt::Keep,
                    next: Next::Finish(BehaviorStatus::Running),
                },
                BehaviorStatus::Success => {
                    self.in_branch = true;
                    if self.children_count == 3 {
                        Step { halt: Halt::HaltOne(2), next: Next::TickChild(1) }
                    } else {
                        Step { halt: Halt::Keep, next: Next::TickChild(1) }
                    }
                },
                BehaviorStatus::Failure => {
                    if self.children_count == 3 {
                        self.in_branch = true;
                        Step { halt: Halt::HaltOne(1), next: Next::TickChild(2) }
                    } else if self.children_count == 2 {
                        Step { halt: Halt::ResetAll, next: Next::Finish(BehaviorStatus::Failure) }
                    } else {
                        Step { halt: Halt::ResetAll, next: Next::Finish(BehaviorStatus::Idle) }
                    }
                },
                _ => Step { halt: Halt::ResetAll, next: Next::Finish(BehaviorStatus::Idle) },
            }
        } else {
            match child {
                BehaviorStatus::Running => Step {
                    halt: Halt::Keep,
                    next: Next::Finish(BehaviorStatus::Running),
                },
                status => Step { halt: Halt::ResetAll, next: Next::Finish(status) },
            }
        }
    }

    /// Halt the node: reset the children.
    pub fn halt(&mut self) -> (r: Halt)
        ensures
            final(self)@ == old(self)@,
            r == Halt::ResetAll,
    {
        Halt::ResetAll
    }
}

impl WhileDoElse {
    /// Create a behavior of this node type, named `name`, with the given configuration.
    pub fn create_behavior(name: &str, config: BehaviorConfig) -> (r: Behavior)
        ensures
            fresh_data(r.data, name@, "WhileDoElse"@, BehaviorType::SyncControl, config),
            r.context matches NodeContext::WhileDoElse(c) && c@ == (WhileDoElseState { in_branch: false, children_count: 0 }),
    {
        let ctx = WhileDoElse::new();
        Behavior {
            data: new_data(name, "WhileDoElse", BehaviorType::SyncControl, config),
            context: NodeContext::WhileDoElse(ctx),
        }
    }

    /// The ports of this node type.
    pub fn _ports() -> (r: PortList)
        ensures
            r.ports@.len() == 0,
    {
        let mut ports = PortList::new();
        ports
    }
}

} // verus!
