//! The force-success decorator: it returns success whenever its child has completed, else the child's status.

use vstd::prelude::*;
use crate::behavior::{fresh_data, new_data, Behavior, BehaviorConfig, BehaviorType, NodeContext, PortList};
use crate::status::{BehaviorStatus, spec_is_completed};
use crate::step::{go, go_after, Halt, Next, Step};

verus! {

/// The force-success decorator: it returns success whenever its child has completed, else the child's status.
pub struct ForceSuccess {}

/// Reaction to the status of the child.
pub open spec fn fs_resume(child: BehaviorStatus) -> Step {
    if spec_is_completed(child) {
        go_after(Halt::ResetAll, Next::Finish(BehaviorStatus::Success))
    } else {
        go(Next::Finish(child))
    }
}

impl ForceSuccess {
    /// A new node.
    pub fn new() -> (r: Self) {
        ForceSuccess {}
    }

    /// Start a tick: mark the node running and tick the child.
    pub fn tick(&mut self, status: &mut BehaviorStatus, children: usize) -> (r: Step)
        requires
            children >= 1,
        ensures
            *final(status) == BehaviorStatus::Running,
            r == go(Next::TickChild(0)),
    {
        *status = BehaviorStatus::Running;
        Step { halt: Halt::Keep, next: Next::TickChild(0) }
    }

    /// End the tick with the status the child returned.
    pub fn resume(&mut self, child: BehaviorStatus) -> (r: Step)
        ensures
            r == fs_resume(child),
    {
        if child.is_completed() {
            return Step { halt: Halt::ResetAll, next: Next::Finish(BehaviorStatus::Success) };
        }
        Step { halt: Halt::Keep, next: Next::Finish(child) }
    }

    /// Halt the node: reset the child.
    pub fn halt(&mut self) -> (r: Halt)
        ensures
            r == Halt::ResetAll,
    {
        Halt::ResetAll
    }
}

impl ForceSuccess {
    /// Create a behavior of this node type, named `name`, with the given configuration.
    pub fn create_behavior(name: &str, config: BehaviorConfig) -> (r: Behavior)
        ensures
            fresh_data(r.data, name@, "ForceSuccess"@, BehaviorType::SyncDecorator, config),
            r.context is ForceSuccess,
    {
        let ctx = ForceSuccess::new();
        Behavior {
            data: new_data(name, "ForceSuccess", BehaviorType::SyncDecorator, config),
            context: NodeContext::ForceSuccess(ctx),
        }
    }

    /// The ports of this node type.
    pub fn _ports() -> (r: PortList)
        ensures
            r.ports@.len() == 0,
    {
        let mut ports = PortList::new();
        ports
    }
}

} // verus!
