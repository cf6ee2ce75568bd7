//! The repeat decorator.
//!
//! It executes its child several times, as long as the child succeeds. To
//! succeed, the child must return success N times (port `num_cycles`; -1 means
//! forever). If the child returns failure, the loop stops and the node returns
//! failure.
//!
//! ```xml
//! <Repeat num_cycles="3">
//!   <ClapYourHandsOnce/>
//! </Repeat>
//! ```

use vstd::prelude::*;
use crate::behavior::{fresh_data, new_data, Behavior, BehaviorConfig, BehaviorType, NodeContext, PortList, port_is, input_port, PortDirection};
use crate::status::BehaviorStatus;
use crate::step::{go, go_after, Fault, Halt, Next, Reporter, Step};

verus! {

/// The repeat decorator.
pub struct Repeat {
    num_cycles: i32,
    repeat_count: usize,
    all_skipped: bool,
}

/// The state of a [`Repeat`].
pub struct RepeatState {
    /// the number of successes wanted, -1 for no limit
    pub num_cycles: i32,
    /// the number of successes so far
    pub repeat_count: usize,
    /// whether all child ticks since the node left idle were skipped
    pub all_skipped: bool,
}

impl View for Repeat {
    type V = RepeatState;

    closed spec fn view(&self) -> RepeatState {
        RepeatState {
            num_cycles: self.num_cycles,
            repeat_count: self.repeat_count,
            all_skipped: self.all_skipped,
        }
    }
}

/// Whether the child is to be ticked again.
pub open spec fn repeat_loops(repeat_count: usize, num_cycles: i32) -> bool {
    (repeat_count as i32) < num_cycles || num_cycles == -1
}

/// Start of a tick, with the value of port `num_cycles`.
pub open spec fn repeat_tick(s: RepeatState, status: BehaviorStatus, num_cycles: i32) -> (
    RepeatState,
    BehaviorStatus,
    Step,
) {
    let s1 = RepeatState {
        num_cycles,
        all_skipped: if status == BehaviorStatus::Idle { true } else { s.all_skipped },
        ..s
    };
    if repeat_loops(s.repeat_count, num_cycles) {
        (s1, BehaviorStatus::Running, go(Next::TickChild(0)))
    } else {
        (
            RepeatState { repeat_count: 0, ..s1 },
            BehaviorStatus::Running,
            go(
                Next::Finish(
                    if s1.all_skipped { BehaviorStatus::Skipped } else { BehaviorStatus::Success },
                ),
            ),
        )
    }
}

/// Reaction to the status of the child.
pub open spec fn repeat_resume(s: RepeatState, child: BehaviorStatus) -> (RepeatState, Step) {
    let s1 = RepeatState { all_skipped: s.all_skipped && child == BehaviorStatus::Skipped, ..s };
    match child {
        BehaviorStatus::Success => (
            RepeatState { repeat_count: (s.repeat_count + 1) as usize, ..s1 },
            go_after(Halt::ResetAll, Next::Finish(BehaviorStatus::Running)),
        ),
        BehaviorStatus::Failure => (
            RepeatState { repeat_count: 0, ..s1 },
            go_after(Halt::ResetAll, Next::Finish(BehaviorStatus::Failure)),
        ),
        BehaviorStatus::Running => (s1, go(Next::Finish(BehaviorStatus::Running))),
        BehaviorStatus::Skipped => (
            s1,
            go_after(Halt::ResetAll, Next::Finish(BehaviorStatus::Skipped)),
        ),
        BehaviorStatus::Idle => (s1, go(Next::Fail(Fault::IdleChild(Reporter::Repeat)))),
    }
}

impl Repeat {
    /// A node that has not been ticked yet.
    pub fn new() -> (r: Self)
        ensures
            r@.num_cycles == -1,
            r@.repeat_count == 0,
            r@.all_skipped,
    {
        Repeat { num_cycles: -1i32, repeat_count: 0, all_skipped: true }
    }

    /// Whether a tick with `num_cycles` as the value of that port ticks the child.
    pub fn ticks_child(&self, num_cycles: i32) -> (r: bool)
        ensures
            r == repeat_loops(self@.repeat_count, num_cycles),
    {
        (self.repeat_count as i32) < num_cycles || num_cycles == -1
    }

    /// Start a tick of a node with `children` children; `status` is the node's own
    /// status and `num_cycles` the value of the port of that name.
    pub fn tick(&mut self, status: &mut BehaviorStatus, children: usize, num_cycles: i32) -> (r: Step)
        requires
            repeat_loops(old(self)@.repeat_count, num_cycles) ==> children >= 1,
        ensures
            (final(self)@, *final(status), r) == repeat_tick(old(self)@, *old(status), num_cycles),
    {
        self.num_cycles = num_cycles;
        let do_loop = (self.repeat_count as i32) < self.num_cycles || self.num_cycles == -1;
        if *status == BehaviorStatus::Idle {
            self.all_skipped = true;
        }
        *status = BehaviorStatus::Running;
        if do_loop {
            return Step { halt: Halt::Keep, next: Next::TickChild(0) };
        }
        self.repeat_count = 0;
        if self.all_skipped {
            Step { halt: Halt::Keep, next: Next::Finish(BehaviorStatus::Skipped) }
        } else {
            Step { halt: Halt::Keep, next: Next::Finish(BehaviorStatus::Success) }
        }
    }

    /// End the tick with the status the child returned.
    pub fn resume(&mut self, child: BehaviorStatus) -> (r: Step)
        requires
            child == BehaviorStatus::Success ==> old(self)@.repeat_count < usize::MAX,
        ensures
            (final(self)@, r) == repeat_resume(old(self)@, child),
    {
        self.all_skipped = self.all_skipped && child == BehaviorStatus::Skipped;
        match child {
            BehaviorStatus::Success => {
                self.repeat_count = self.repeat_count + 1;
                Step { halt: Halt::ResetAll, next: Next::Finish(BehaviorStatus::Running) }
            },
            BehaviorStatus::Failure => {
                self.repeat_count = 0;
                Step { halt: Halt::ResetAll, next: Next::Finish(BehaviorStatus::Failure) }
            },
            BehaviorStatus::Running => Step {
                halt: Halt::Keep,
                next: Next::Finish(BehaviorStatus::Running),
            },
            BehaviorStatus::Skipped => Step {
                halt: Halt::ResetAll,
                next: Next::Finish(BehaviorStatus::Skipped),
            },
            BehaviorStatus::Idle => Step {
                halt: Halt::Keep,
                next: Next::Fail(Fault::IdleChild(Reporter::Repeat)),
            },
        }
    }

    /// Halt the node: forget the successes so far and reset the child.
    pub fn halt(&mut self) -> (r: Halt)
        ensures
            final(self)@ == (RepeatState { repeat_count: 0, ..old(self)@ }),
            r == Halt::ResetAll,
    {
        self.repeat_count = 0;
        Halt::ResetAll
    }
}

impl Repeat {
    /// Create a behavior of this node type, named `name`, with the given configuration.
    pub fn create_behavior(name: &str, config: BehaviorConfig) -> (r: Behavior)
        ensures
            fresh_data(r.data, name@, "Repeat"@, BehaviorType::SyncDecorator, config),
            r.context matches NodeContext::Repeat(c) && c@ == (RepeatState { num_cycles: -1i32, repeat_count: 0, all_skipped: true }),
    {
        let ctx = Repeat::new();
        Behavior {
            data: new_data(name, "Repeat", BehaviorType::SyncDecorator, config),
            context: NodeContext::Repeat(ctx),
        }
    }

    /// The ports of this node type.
    pub fn _ports() -> (r: PortList)
        ensures
            r.ports@.len() == 1,
            port_is(r.ports@[0], "num_cycles"@, PortDirection::Input, None, ""@),
    {
        let mut ports = PortList::new();
        ports.insert("num_cycles", input_port(None, ""));
        ports
    }
}

} // verus!
