//! The retry-until-successful decorator.
//!
//! It executes its child several times if it fails. If the child returns
//! success, the loop stops and the node returns success. If the child returns
//! failure, the node tries again, up to N times (port `num_attempts`; -1 means
//! forever). Unlike [`Retry`](crate::decorator::retry::Retry), this node is not
//! reactive and makes all attempts within one tick.
//!
//! ```xml
//! <RetryUntilSuccessful num_attempts="3">
//!     <OpenDoor/>
//! </RetryUntilSuccessful>
//! ```

use vstd::prelude::*;
use crate::behavior::{fresh_data, new_data, Behavior, BehaviorConfig, BehaviorType, NodeContext, PortList, port_is, input_port, PortDirection};
use crate::status::BehaviorStatus;
use crate::step::{go, go_after, Fault, Halt, Next, Reporter, Step};

verus! {

/// The retry-until-successful decorator.
pub struct RetryUntilSuccessful {
    max_attempts: i32,
    try_count: usize,
    all_skipped: bool,
}

/// The state of a [`RetryUntilSuccessful`].
pub struct RetryUntilSuccessfulState {
    /// the number of attempts allowed, -1 for no limit
    pub max_attempts: i32,
    /// the number of failed attempts so far
    pub try_count: usize,
    /// whether all child ticks since the node left idle were skipped
    pub all_skipped: bool,
}

impl View for RetryUntilSuccessful {
    type V = RetryUntilSuccessfulState;

    closed spec fn view(&self) -> RetryUntilSuccessfulState {
        RetryUntilSuccessfulState {
            max_attempts: self.max_attempts,
            try_count: self.try_count,
            all_skipped: self.all_skipped,
        }
    }
}

/// Whether another attempt is allowed.
pub open spec fn rus_loops(try_count: usize, max_attempts: i32) -> bool {
    (try_count as i32) < max_attempts || max_attempts == -1
}

/// The end of a tick without success.
pub open spec fn rus_give_up(s: RetryUntilSuccessfulState, halt: Halt) -> (
    RetryUntilSuccessfulState,
    Step,
) {
    (
        RetryUntilSuccessfulState { try_count: 0, ..s },
        go_after(
            halt,
            Next::Finish(if s.all_skipped { BehaviorStatus::Skipped } else { BehaviorStatus::Failure }),
        ),
    )
}

/// Start of a tick, with the value of port `num_attempts`.
pub open spec fn rus_tick(s: RetryUntilSuccessfulState, status: BehaviorStatus, max_attempts: i32) -> (
    RetryUntilSuccessfulState,
    BehaviorStatus,
    Step,
) {
    let s1 = RetryUntilSuccessfulState {
        max_attempts,
        all_skipped: if status == BehaviorStatus::Idle { true } else { s.all_skipped },
        ..s
    };
    if rus_loops(s.try_count, max_attempts) {
        (s1, BehaviorStatus::Running, go(Next::TickChild(0)))
    } else {
        let (s2, r) = rus_give_up(s1, Halt::Keep);
        (s2, BehaviorStatus::Running, r)
    }
}

/// Reaction to the status of the child.
pub open spec fn rus_resume(s: RetryUntilSuccessfulState, child: BehaviorStatus) -> (
    RetryUntilSuccessfulState,
    Step,
) {
    let s1 = RetryUntilSuccessfulState {
        all_skipped: s.all_skipped && child == BehaviorStatus::Skipped,
        ..s
    };
    match child {
        BehaviorStatus::Success => (
            RetryUntilSuccessfulState { try_count: 0, ..s1 },
            go_after(Halt::ResetAll, Next::Finish(BehaviorStatus::Success)),
        ),
        BehaviorStatus::Failure => {
            let s2 = RetryUntilSuccessfulState { try_count: (s.try_count + 1) as usize, ..s1 };
            if rus_loops(s2.try_count, s2.max_attempts) {
                (s2, go_after(Halt::ResetAll, Next::TickChild(0)))
            } else {
                rus_give_up(s2, Halt::ResetAll)
            }
        },
        BehaviorStatus::Running => (s1, go(Next::Finish(BehaviorStatus::Running))),
        BehaviorStatus::Skipped => (
            s1,
            go_after(Halt::ResetAll, Next::Finish(BehaviorStatus::Skipped)),
        ),
        BehaviorStatus::Idle => (
            s1,
            go(Next::Fail(Fault::IdleChild(Reporter::RetryUntilSuccessful))),
        ),
    }
}

impl RetryUntilSuccessful {
    /// A node that has not been ticked yet.
    pub fn new() -> (r: Self)
        ensures
            r@.max_attempts == -1,
            r@.try_count == 0,
            r@.all_skipped,
    {
        RetryUntilSuccessful { max_attempts: -1, try_count: 0, all_skipped: true }
    }

    fn give_up(&mut self, halt: Halt) -> (r: Step)
        ensures
            (final(self)@, r) == rus_give_up(old(self)@, halt),
    {
        self.try_count = 0;
        if self.all_skipped {
            Step { halt, next: Next::Finish(BehaviorStatus::Skipped) }
        } else {
            Step { halt, next: Next::Finish(BehaviorStatus::Failure) }
        }
    }

    /// Whether a tick with `num_attempts` as the value of that port ticks the child.
    pub fn ticks_child(&self, num_attempts: i32) -> (r: bool)
        ensures
            r == rus_loops(self@.try_count, num_attempts),
    {
        (self.try_count as i32) < num_attempts || num_attempts == -1
    }

    /// Start a tick of a node with `children` children; `status` is the node's own
    /// status and `num_attempts` the value of the port of that name.
    pub fn tick(&mut self, status: &mut BehaviorStatus, children: usize, num_attempts: i32) -> (r: Step)
        requires
            rus_loops(old(self)@.try_count, num_attempts) ==> children >= 1,
        ensures
            (final(self)@, *final(status), r) == rus_tick(old(self)@, *old(status), num_attempts),
    {
        self.max_attempts = num_attempts;
        let do_loop = (self.try_count as i32) < self.max_attempts || self.max_attempts == -1;
        if *status == BehaviorStatus::Idle {
            self.all_skipped = true;
        }
        *status = BehaviorStatus::Running;
        if do_loop {
            return Step { halt: Halt::Keep, next: Next::TickChild(0) };
        }
        self.give_up(Halt::Keep)
    }

    /// Continue the tick with the status the child returned.
    pub fn resume(&mut self, child: BehaviorStatus) -> (r: Step)
        requires
            child == BehaviorStatus::Failure ==> old(self)@.try_count < usize::MAX,
        ensures
            (final(self)@, r) == rus_resume(old(self)@, child),
    {
        self.all_skipped = self.all_skipped && child == BehaviorStatus::Skipped;
        match child {
            BehaviorStatus::Success => {
                self.try_count = 0;
                Step { halt: Halt::ResetAll, next: Next::Finish(BehaviorStatus::Success) }
            },
            BehaviorStatus::Failure => {
                self.try_count = self.try_count + 1;
                let do_loop = (self.try_count as i32) < self.max_attempts || self.max_attempts
                    == -1;
                if do_loop {
                    Step { halt: Halt::ResetAll, next: Next::TickChild(0) }
                } else {
                    self.give_up(Halt::ResetAll)
                }
            },
            BehaviorStatus::Running => Step {
                halt: Halt::Keep,
                next: Next::Finish(BehaviorStatus::Running),
            },
            BehaviorStatus::Skipped => Step {
                halt: Halt::ResetAll,
                next: Next::Finish(BehaviorStatus::Skipped),
            },
            BehaviorStatus::Idle => Step {
                halt: Halt::Keep,
                next: Next::Fail(Fault::IdleChild(Reporter::RetryUntilSuccessful)),
            },
        }
    }

    /// Halt the node: forget the attempts so far and reset the child.
    pub fn halt(&mut self) -> (r: Halt)
        ensures
            final(self)@ == (RetryUntilSuccessfulState { try_count: 0, ..old(self)@ }),
            r == Halt::ResetAll,
    {
        self.try_count = 0;
        Halt::ResetAll
    }
}

impl RetryUntilSuccessful {
    /// Create a behavior of this node type, named `name`, with the given configuration.
    pub fn create_behavior(name: &str, config: BehaviorConfig) -> (r: Behavior)
        ensures
            fresh_data(r.data, name@, "RetryUntilSuccessful"@, BehaviorType::SyncDecorator, config),
            r.context matches NodeContext::RetryUntilSuccessful(c) && c@ == (RetryUntilSuccessfulState { max_attempts: -1i32, try_count: 0, all_skipped: true }),
    {
        let ctx = RetryUntilSuccessful::new();
        Behavior {
            data: new_data(name, "RetryUntilSuccessful", BehaviorType::SyncDecorator, config),
            context: NodeContext::RetryUntilSuccessful(ctx),
        }
    }

    /// The ports of this node type.
    pub fn _ports() -> (r: PortList)
        ensures
            r.ports@.len() == 1,
            port_is(r.ports@[0], "num_attempts"@, PortDirection::Input, None, ""@),
    {
        let mut ports = PortList::new();
        ports.insert("num_attempts", input_port(None, ""));
        ports
    }
}

} // verus!
