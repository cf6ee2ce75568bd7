//! The inverter decorator: it returns failure on success and success on failure.

use vstd::prelude::*;
use crate::behavior::{fresh_data, new_data, Behavior, BehaviorConfig, BehaviorType, NodeContext, PortList};
use crate::status::BehaviorStatus;
use crate::step::{go, go_after, Fault, Reporter, Halt, Next, Step};

verus! {

/// The inverter decorator: it returns failure on success and success on failure.
pub struct Inverter {}

/// Reaction to the status of the child.
pub open spec fn inv_resume(child: BehaviorStatus) -> Step {
    match child {
        BehaviorStatus::Success => go_after(Halt::ResetAll, Next::Finish(BehaviorStatus::Failure)),
        BehaviorStatus::Failure => go_after(Halt::ResetAll, Next::Finish(BehaviorStatus::Success)),
        BehaviorStatus::Running | BehaviorStatus::Skipped => go(Next::Finish(child)),
        BehaviorStatus::Idle => go(Next::Fail(Fault::IdleChild(Reporter::Inverter))),
    }
}

impl Inverter {
    /// A new node.
    pub fn new() -> (r: Self) {
        Inverter {}
    }

    /// Start a tick: mark the node running and tick the child.
    pub fn tick(&mut self, status: &mut BehaviorStatus, children: usize) -> (r: Step)
        requires
            children >= 1,
        ensures
            *final(status) == BehaviorStatus::Running,
            r == go(Next::TickChild(0)),
    {
        *status = BehaviorStatus::Running;
        Step { halt: Halt::Keep, next: Next::TickChild(0) }
    }

    /// End the tick with the status the child returned.
    pub fn resume(&mut self, child: BehaviorStatus) -> (r: Step)
        ensures
            r == inv_resume(child),
    {
        match child {
            BehaviorStatus::Success => Step {
                halt: Halt::ResetAll,
                next: Next::Finish(BehaviorStatus::Failure),
            },
            BehaviorStatus::Failure => Step {
                halt: Halt::ResetAll,
                next: Next::Finish(BehaviorStatus::Success),
            },
            BehaviorStatus::Running | BehaviorStatus::Skipped => Step {
                halt: Halt::Keep,
                next: Next::Finish(child),
            },
            BehaviorStatus::Idle => Step {
                halt: Halt::Keep,
                next: Next::Fail(Fault::IdleChild(Reporter::Inverter)),
            },
        }
    }

    /// Halt the node: reset the child.
    pub fn halt(&mut self) -> (r: Halt)
        ensures
            r == Halt::ResetAll,
    {
        Halt::ResetAll
    }
}

impl Inverter {
    /// Create a behavior of this node type, named `name`, with the given configuration.
    pub fn create_behavior(name: &str, config: BehaviorConfig) -> (r: Behavior)
        ensures
            fresh_data(r.data, name@, "Inverter"@, BehaviorType::SyncDecorator, config),
            r.context is Inverter,
    {
        let ctx = Inverter::new();
        Behavior {
            data: new_data(name, "Inverter", BehaviorType::SyncDecorator, config),
            context: NodeContext::Inverter(ctx),
        }
    }

    /// The ports of this node type.
    pub fn _ports() -> (r: PortList)
        ensures
            r.ports@.len() == 0,
    {
        let mut ports = PortList::new();
        ports
    }
}

} // verus!
