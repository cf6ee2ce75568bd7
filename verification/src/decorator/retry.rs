//! The retry decorator.
//!
//! It executes its child several times if it fails. If the child returns
//! success, the loop stops and the node returns success. If the child returns
//! failure, the node tries again, up to N times (port `num_attempts`; -1 means
//! forever). If N times is not enough to succeed, the node returns failure.
//! Unlike [`RetryUntilSuccessful`](crate::decorator::retry_until_successful::RetryUntilSuccessful),
//! this node is reactive and uses one tick per attempt.
//!
//! ```xml
//! <Retry num_attempts="3">
//!     <OpenDoor/>
//! </Retry>
//! ```

use vstd::prelude::*;
use crate::behavior::{fresh_data, new_data, Behavior, BehaviorConfig, BehaviorType, NodeContext, PortList, port_is, input_port, PortDirection};
use crate::status::BehaviorStatus;
use crate::step::{go, go_after, Fault, Halt, Next, Reporter, Step};

verus! {

/// The retry decorator.
pub struct Retry {
    max_attempts: i32,
    try_count: usize,
    all_skipped: bool,
}

/// The state of a [`Retry`].
pub struct RetryState {
    /// the number of attempts allowed, -1 for no limit
    pub max_attempts: i32,
    /// the number of failed attempts so far
    pub try_count: usize,
    /// whether all child ticks since the node left idle were skipped
    pub all_skipped: bool,
}

impl View for Retry {
    type V = RetryState;

    closed spec fn view(&self) -> RetryState {
        RetryState {
            max_attempts: self.max_attempts,
            try_count: self.try_count,
            all_skipped: self.all_skipped,
        }
    }
}

/// Whether another attempt is allowed.
pub open spec fn retry_loops(try_count: usize, max_attempts: i32) -> bool {
    (try_count as i32) < max_attempts || max_attempts == -1
}

/// Start of a tick, with the value of port `num_attempts`.
pub open spec fn retry_tick(s: RetryState, status: BehaviorStatus, max_attempts: i32) -> (
    RetryState,
    BehaviorStatus,
    Step,
) {
    let s1 = RetryState {
        max_attempts,
        all_skipped: if status == BehaviorStatus::Idle { true } else { s.all_skipped },
        ..s
    };
    if retry_loops(s.try_count, max_attempts) {
        (s1, BehaviorStatus::Running, go(Next::TickChild(0)))
    } else {
        (
            RetryState { try_count: 0, ..s1 },
            BehaviorStatus::Running,
            go(
                Next::Finish(
                    if s1.all_skipped { BehaviorStatus::Skipped } else { BehaviorStatus::Failure },
                ),
            ),
        )
    }
}

/// Reaction to the status of the child.
pub open spec fn retry_resume(s: RetryState, child: BehaviorStatus) -> (RetryState, Step) {
    let s1 = RetryState { all_skipped: s.all_skipped && child == BehaviorStatus::Skipped, ..s };
    match child {
        BehaviorStatus::Success => (
            RetryState { try_count: 0, ..s1 },
            go_after(Halt::ResetAll, Next::Finish(BehaviorStatus::Success)),
        ),
        BehaviorStatus::Failure => (
            RetryState { try_count: (s.try_count + 1) as usize, ..s1 },
            go(Next::Finish(BehaviorStatus::Running)),
        ),
        BehaviorStatus::Running => (s1, go(Next::Finish(BehaviorStatus::Running))),
        BehaviorStatus::Skipped => (
            s1,
            go_after(Halt::ResetAll, Next::Finish(BehaviorStatus::Skipped)),
        ),
        BehaviorStatus::Idle => (s1, go(Next::Fail(Fault::IdleChild(Reporter::Retry)))),
    }
}

impl Retry {
    /// A node that has not been ticked yet.
    pub fn new() -> (r: Self)
        ensures
            r@.max_attempts == -1,
            r@.try_count == 0,
            r@.all_skipped,
    {
        Retry { max_attempts: -1, try_count: 0, all_skipped: true }
    }

    /// Whether a tick with `num_attempts` as the value of that port ticks the child.
    pub fn ticks_child(&self, num_attempts: i32) -> (r: bool)
        ensures
            r == retry_loops(self@.try_count, num_attempts),
    {
        (self.try_count as i32) < num_attempts || num_attempts == -1
    }

    /// Start a tick of a node with `children` children; `status` is the node's own
    /// status and `num_attempts` the value of the port of that name.
    pub fn tick(&mut self, status: &mut BehaviorStatus, children: usize, num_attempts: i32) -> (r: Step)
        requires
            retry_loops(old(self)@.try_count, num_attempts) ==> children >= 1,
        ensures
            (final(self)@, *final(status), r) == retry_tick(old(self)@, *old(status), num_attempts),
    {
        self.max_attempts = num_attempts;
        let do_loop = (self.try_count as i32) < self.max_attempts || self.max_attempts == -1;
        if *status == BehaviorStatus::Idle {
            self.all_skipped = true;
        }
        *status = BehaviorStatus::Running;
        if do_loop {
            return Step { halt: Halt::Keep, next: Next::TickChild(0) };
        }
        self.try_count = 0;
        if self.all_skipped {
            Step { halt: Halt::Keep, next: Next::Finish(BehaviorStatus::Skipped) }
        } else {
            Step { halt: Halt::Keep, next: Next::Finish(BehaviorStatus::Failure) }
        }
    }

    /// End the tick with the status the child returned.
    pub fn resume(&mut self, child: BehaviorStatus) -> (r: Step)
        requires
            child == BehaviorStatus::Failure ==> old(self)@.try_count < usize::MAX,
        ensures
            (final(self)@, r) == retry_resume(old(self)@, child),
    {
        self.all_skipped = self.all_skipped && child == BehaviorStatus::Skipped;
        match child {
            BehaviorStatus::Success => {
                self.try_count = 0;
                Step { halt: Halt::ResetAll, next: Next::Finish(BehaviorStatus::Success) }
            },
            BehaviorStatus::Failure => {
                self.try_count = self.try_count + 1;
                Step { halt: Halt::Keep, next: Next::Finish(BehaviorStatus::Running) }
            },
            BehaviorStatus::Running => Step {
                halt: Halt::Keep,
                next: Next::Finish(BehaviorStatus::Running),
            },
            BehaviorStatus::Skipped => Step {
                halt: Halt::ResetAll,
                next: Next::Finish(BehaviorStatus::Skipped),
            },
            BehaviorStatus::Idle => Step {
                halt: Halt::Keep,
                next: Next::Fail(Fault::IdleChild(Reporter::Retry)),
            },
        }
    }

    /// Halt the node: forget the attempts so far and reset the child.
    pub fn halt(&mut self) -> (r: Halt)
        ensures
            final(self)@ == (RetryState { try_count: 0, ..old(self)@ }),
            r == Halt::ResetAll,
    {
        self.try_count = 0;
        Halt::ResetAll
    }
}

impl Retry {
    /// Create a behavior of this node type, named `name`, with the given configuration.
    pub fn create_behavior(name: &str, config: BehaviorConfig) -> (r: Behavior)
        ensures
            fresh_data(r.data, name@, "Retry"@, BehaviorType::SyncDecorator, config),
            r.context matches NodeContext::Retry(c) && c@ == (RetryState { max_attempts: -1i32, try_count: 0, all_skipped: true }),
    {
        let ctx = Retry::new();
        Behavior {
            data: new_data(name, "Retry", BehaviorType::SyncDecorator, config),
            context: NodeContext::Retry(ctx),
        }
    }

    /// The ports of this node type.
    pub fn _ports() -> (r: PortList)
        ensures
            r.ports@.len() == 1,
            port_is(r.ports@[0], "num_attempts"@, PortDirection::Input, None, ""@),
    {
        let mut ports = PortList::new();
        ports.insert("num_attempts", input_port(None, ""));
        ports
    }
}

} // verus!
