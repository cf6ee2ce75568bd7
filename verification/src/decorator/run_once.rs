//! The run-once decorator.
//!
//! It executes its child only once. If the child is asynchronous, it is ticked
//! until it returns success or failure. After that first execution, port
//! `then_skip` decides what follows:
//! - if true (the default), the node is skipped in the future;
//! - if false, the node returns the status the child returned, forever.

use vstd::prelude::*;
use crate::behavior::{fresh_data, new_data, Behavior, BehaviorConfig, BehaviorType, NodeContext, PortList, port_is, input_port, PortDirection};
use crate::status::{BehaviorStatus, spec_is_completed};
use crate::step::{go, go_after, Halt, Next, Step};

verus! {

/// The run-once decorator.
pub struct RunOnce {
    already_ticked: bool,
    returned_status: BehaviorStatus,
}

/// The state of a [`RunOnce`].
pub struct RunOnceState {
    /// whether the child has completed once
    pub already_ticked: bool,
    /// the status the child completed with
    pub returned_status: BehaviorStatus,
}

impl View for RunOnce {
    type V = RunOnceState;

    closed spec fn view(&self) -> RunOnceState {
        RunOnceState {
            already_ticked: self.already_ticked,
            returned_status: self.returned_status,
        }
    }
}

/// Start of a tick, with the value of port `then_skip`.
pub open spec fn run_once_tick(s: RunOnceState, status: BehaviorStatus, then_skip: bool) -> (
    RunOnceState,
    BehaviorStatus,
    Step,
) {
    if s.already_ticked {
        (
            s,
            status,
            go(Next::Finish(if then_skip { BehaviorStatus::Skipped } else { s.returned_status })),
        )
    } else {
        (s, BehaviorStatus::Running, go(Next::TickChild(0)))
    }
}

/// Reaction to the status of the child.
pub open spec fn run_once_resume(s: RunOnceState, child: BehaviorStatus) -> (RunOnceState, Step) {
    if spec_is_completed(child) {
        (
            RunOnceState { already_ticked: true, returned_status: child },
            go_after(Halt::ResetAll, Next::Finish(child)),
        )
    } else {
        (s, go(Next::Finish(child)))
    }
}

impl RunOnce {
    /// A node that has not been ticked yet.
    pub fn new() -> (r: Self)
        ensures
            !r@.already_ticked,
            r@.returned_status == BehaviorStatus::Idle,
    {
        RunOnce { already_ticked: false, returned_status: BehaviorStatus::Idle }
    }

    /// Whether the next tick ticks the child: only the first one does.
    pub fn ticks_child(&self) -> (r: bool)
        ensures
            r == !self@.already_ticked,
    {
        !self.already_ticked
    }

    /// Start a tick of a node with `children` children; `status` is the node's own
    /// status and `then_skip` the value of the port of that name.
    pub fn tick(&mut self, status: &mut BehaviorStatus, children: usize, then_skip: bool) -> (r: Step)
        requires
            !old(self)@.already_ticked ==> children >= 1,
        ensures
            (final(self)@, *final(status), r) == run_once_tick(old(self)@, *old(status), then_skip),
    {
        if self.already_ticked {
            return if then_skip {
                Step { halt: Halt::Keep, next: Next::Finish(BehaviorStatus::Skipped) }
            } else {
                Step { halt: Halt::Keep, next: Next::Finish(self.returned_status) }
            };
        }
        *status = BehaviorStatus::Running;
        Step { halt: Halt::Keep, next: Next::TickChild(0) }
    }

    /// End the tick with the status the child returned.
    pub fn resume(&mut self, child: BehaviorStatus) -> (r: Step)
        ensures
            (final(self)@, r) == run_once_resume(old(self)@, child),
    {
        if child.is_completed() {
            self.already_ticked = true;
            self.returned_status = child;
            return Step { halt: Halt::ResetAll, next: Next::Finish(child) };
        }
        Step { halt: Halt::Keep, next: Next::Finish(child) }
    }

    /// Halt the node: reset the child.
    pub fn halt(&mut self) -> (r: Halt)
        ensures
            final(self)@ == old(self)@,
            r == Halt::ResetAll,
    {
        Halt::ResetAll
    }
}

impl RunOnce {
    /// Create a behavior of this node type, named `name`, with the given configuration.
    pub fn create_behavior(name: &str, config: BehaviorConfig) -> (r: Behavior)
        ensures
            fresh_data(r.data, name@, "RunOnce"@, BehaviorType::SyncDecorator, config),
            r.context matches NodeContext::RunOnce(c) && c@ == (RunOnceState { already_ticked: false, returned_status: BehaviorStatus::Idle }),
    {
        let ctx = RunOnce::new();
        Behavior {
            data: new_data(name, "RunOnce", BehaviorType::SyncDecorator, config),
            context: NodeContext::RunOnce(ctx),
        }
    }

    /// The ports of this node type.
    pub fn _ports() -> (r: PortList)
        ensures
            r.ports@.len() == 1,
            port_is(r.ports@[0], "then_skip"@, PortDirection::Input, Some("true"@), ""@),
    {
        let mut ports = PortList::new();
        ports.insert("then_skip", input_port(Some("true"), ""));
        ports
    }
}

} // verus!
