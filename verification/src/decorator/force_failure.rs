//! The force-failure decorator: it returns failure whenever its child has completed, else the child's status.

use vstd::prelude::*;
use crate::behavior::{fresh_data, new_data, Behavior, BehaviorConfig, BehaviorType, NodeContext, PortList};
use crate::status::{BehaviorStatus, spec_is_completed};
use crate::step::{go, go_after, Halt, Next, Step};

verus! {

/// The force-failure decorator: it returns failure whenever its child has completed, else the child's status.
pub struct ForceFailure {}

/// Reaction to the status of the child.
pub open spec fn ff_resume(child: BehaviorStatus) -> Step {
    if spec_is_completed(child) {
        go_after(Halt::ResetAll, Next::Finish(BehaviorStatus::Failure))
    } else {
        go(Next::Finish(child))
    }
}

impl ForceFailure {
    /// A new node.
    pub fn new() -> (r: Self) {
        ForceFailure {}
    }

    /// Start a tick: mark the node running and tick the child.
    pub fn tick(&mut self, status: &mut BehaviorStatus, children: usize) -> (r: Step)
        requires
            children >= 1,
        ensures
            *final(status) == BehaviorStatus::Running,
            r == go(Next::TickChild(0)),
    {
        *status = BehaviorStatus::Running;
        Step { halt: Halt::Keep, next: Next::TickChild(0) }
    }

    /// End the tick with the status the child returned.
    pub fn resume(&mut self, child: BehaviorStatus) -> (r: Step)
        ensures
            r == ff_resume(child),
    {
        if child.is_completed() {
            return Step { halt: Halt::ResetAll, next: Next::Finish(BehaviorStatus::Failure) };
        }
        Step { halt: Halt::Keep, next: Next::Finish(child) }
    }

    /// Halt the node: reset the child.
    pub fn halt(&mut self) -> (r: Halt)
        ensures
            r == Halt::ResetAll,
    {
        Halt::ResetAll
    }
}

impl ForceFailure {
    /// Create a behavior of this node type, named `name`, with the given configuration.
    pub fn create_behavior(name: &str, config: BehaviorConfig) -> (r: Behavior)
        ensures
            fresh_data(r.data, name@, "ForceFailure"@, BehaviorType::SyncDecorator, config),
            r.context is ForceFailure,
    {
        let ctx = ForceFailure::new();
        Behavior {
            data: new_data(name, "ForceFailure", BehaviorType::SyncDecorator, config),
            context: NodeContext::ForceFailure(ctx),
        }
    }

    /// The ports of this node type.
    pub fn _ports() -> (r: PortList)
        ensures
            r.ports@.len() == 0,
    {
        let mut ports = PortList::new();
        ports
    }
}

} // verus!
