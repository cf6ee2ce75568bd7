//! The keep-running-until-failure decorator: it returns running until its child fails, then failure.

use vstd::prelude::*;
use crate::behavior::{fresh_data, new_data, Behavior, BehaviorConfig, BehaviorType, NodeContext, PortList};
use crate::status::BehaviorStatus;
use crate::step::{go, go_after, Halt, Next, Step};

verus! {

/// The keep-running-until-failure decorator: it returns running until its child fails, then failure.
pub struct KeepRunningUntilFailure {}

/// Reaction to the status of the child.
pub open spec fn kruf_resume(child: BehaviorStatus) -> Step {
    match child {
        BehaviorStatus::Success => go_after(Halt::ResetAll, Next::Finish(BehaviorStatus::Running)),
        BehaviorStatus::Failure => go_after(Halt::ResetAll, Next::Finish(BehaviorStatus::Failure)),
        _ => go(Next::Finish(BehaviorStatus::Running)),
    }
}

impl KeepRunningUntilFailure {
    /// A new node.
    pub fn new() -> (r: Self) {
        KeepRunningUntilFailure {}
    }

    /// Start a tick: mark the node running and tick the child.
    pub fn tick(&mut self, status: &mut BehaviorStatus, children: usize) -> (r: Step)
        requires
            children >= 1,
        ensures
            *final(status) == BehaviorStatus::Running,
            r == go(Next::TickChild(0)),
    {
        *status = BehaviorStatus::Running;
        Step { halt: Halt::Keep, next: Next::TickChild(0) }
    }

    /// End the tick with the status the child returned.
    pub fn resume(&mut self, child: BehaviorStatus) -> (r: Step)
        ensures
            r == kruf_resume(child),
    {
        match child {
            BehaviorStatus::Success => Step {
                halt: Halt::ResetAll,
                next: Next::Finish(BehaviorStatus::Running),
            },
            BehaviorStatus::Failure => Step {
                halt: Halt::ResetAll,
                next: Next::Finish(BehaviorStatus::Failure),
            },
            _ => Step { halt: Halt::Keep, next: Next::Finish(BehaviorStatus::Running) },
        }
    }

    /// Halt the node: reset the child.
    pub fn halt(&mut self) -> (r: Halt)
        ensures
            r == Halt::ResetAll,
    {
        Halt::ResetAll
    }
}

impl KeepRunningUntilFailure {
    /// Create a behavior of this node type, named `name`, with the given configuration.
    pub fn create_behavior(name: &str, config: BehaviorConfig) -> (r: Behavior)
        ensures
            fresh_data(r.data, name@, "KeepRunningUntilFailure"@, BehaviorType::SyncDecorator, config),
            r.context is KeepRunningUntilFailure,
    {
        let ctx = KeepRunningUntilFailure::new();
        Behavior {
            data: new_data(name, "KeepRunningUntilFailure", BehaviorType::SyncDecorator, config),
            context: NodeContext::KeepRunningUntilFailure(ctx),
        }
    }

    /// The ports of this node type.
    pub fn _ports() -> (r: PortList)
        ensures
            r.ports@.len() == 0,
    {
        let mut ports = PortList::new();
        ports
    }
}

} // verus!
