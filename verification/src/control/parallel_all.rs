//! The parallel-all control node.
//!
//! It executes all its children concurrently, but not in separate threads.
//! Unlike the parallel node, which may stop and halt other children once enough
//! successes or failures were counted, this node always completes the execution
//! of all its children. It fails when at least as many children failed as the
//! threshold (port `max_failures`) says. Thresholds count like indexes in
//! Python: -1 stands for the number of children.

use vstd::prelude::*;
use crate::behavior::{fresh_data, new_data, Behavior, BehaviorConfig, BehaviorType, NodeContext, PortList, port_is, input_port, PortDirection};
use crate::control::parallel::threshold;
use crate::index_set::IndexSet;
use crate::status::BehaviorStatus;
use crate::step::{go, go_after, Fault, Halt, Next, Reporter, Step};

verus! {

/// The parallel-all control node.
pub struct ParallelAll {
    failure_threshold: i32,
    completed_list: IndexSet,
    failure_count: usize,
    index: usize,
    skipped_count: usize,
    children_count: usize,
}

/// The state of a [`ParallelAll`].
pub struct ParallelAllState {
    /// the failure threshold as given
    pub failure_threshold: i32,
    /// the children that have completed
    pub completed: Set<usize>,
    /// the number of children that failed
    pub failure_count: usize,
    /// the child visited last in the current tick
    pub index: usize,
    /// the number of children skipped in the current tick
    pub skipped_count: usize,
    /// the number of children seen at the start of the current tick
    pub children_count: usize,
}

impl View for ParallelAll {
    type V = ParallelAllState;

    closed spec fn view(&self) -> ParallelAllState {
        ParallelAllState {
            failure_threshold: self.failure_threshold,
            completed: self.completed_list@,
            failure_count: self.failure_count,
            index: self.index,
            skipped_count: self.skipped_count,
            children_count: self.children_count,
        }
    }
}

/// The end of a tick, once every child not yet completed has been ticked.
pub open spec fn pa_end(s: ParallelAllState) -> (ParallelAllState, Step) {
    let n = s.children_count as int;
    if s.skipped_count == n {
        (s, go(Next::Finish(BehaviorStatus::Skipped)))
    } else if s.skipped_count + s.completed.len() >= n {
        let st = if s.failure_count >= threshold(s.failure_threshold, n) {
            BehaviorStatus::Failure
        } else {
            BehaviorStatus::Success
        };
        (
            ParallelAllState { completed: Set::empty(), failure_count: 0, ..s },
            go_after(Halt::ResetAll, Next::Finish(st)),
        )
    } else {
        (s, go(Next::Finish(BehaviorStatus::Running)))
    }
}

/// The loop of the tick from child `s.index` on: completed children are passed over.
pub open spec fn pa_visit(s: ParallelAllState) -> (ParallelAllState, Step)
    decreases s.children_count - s.index,
{
    if s.index >= s.children_count {
        pa_end(s)
    } else if s.completed.contains(s.index) {
        pa_visit(ParallelAllState { index: (s.index + 1) as usize, ..s })
    } else {
        (s, go(Next::TickChild(s.index)))
    }
}

/// Start of a tick, with the value of port `max_failures`.
pub open spec fn pa_tick(s: ParallelAllState, max_failures: i32, n: usize) -> (
    ParallelAllState,
    Step,
) {
    let s1 = ParallelAllState { failure_threshold: max_failures, children_count: n, ..s };
    if (n as i32) < max_failures {
        (s1, go(Next::Fail(Fault::ParallelAllNeverFail)))
    } else {
        pa_visit(ParallelAllState { index: 0, skipped_count: 0, ..s1 })
    }
}

/// Reaction to the status of the child ticked last.
pub open spec fn pa_resume(s: ParallelAllState, child: BehaviorStatus) -> (ParallelAllState, Step) {
    let s1 = match child {
        BehaviorStatus::Success => ParallelAllState { completed: s.completed.insert(s.index), ..s },
        BehaviorStatus::Failure => ParallelAllState {
            completed: s.completed.insert(s.index),
            failure_count: (s.failure_count + 1) as usize,
            ..s
        },
        BehaviorStatus::Skipped => ParallelAllState {
            skipped_count: (s.skipped_count + 1) as usize,
            ..s
        },
        _ => s,
    };
    if child == BehaviorStatus::Idle {
        (s, go(Next::Fail(Fault::IdleChild(Reporter::ParallelAll))))
    } else {
        pa_visit(ParallelAllState { index: (s1.index + 1) as usize, ..s1 })
    }
}

impl ParallelAll {
    /// A node that has not been ticked yet.
    pub fn new() -> (r: Self)
        ensures
            r@.failure_threshold == -1,
            r@.completed == Set::<usize>::empty(),
            r@.failure_count == 0,
            r@.index == 0,
            r@.skipped_count == 0,
            r@.children_count == 0,
    {
        ParallelAll {
            failure_threshold: -1,
            completed_list: IndexSet::new(),
            failure_count: 0,
            index: 0,
            skipped_count: 0,
            children_count: 0,
        }
    }

    /// The number of failures that make the node fail with `n_children` children.
    pub fn failure_threshold(&self, n_children: i32) -> (r: usize)
        requires
            n_children >= 0,
        ensures
            r as int == threshold(self@.failure_threshold, n_children as int),
    {
        if self.failure_threshold < 0 {
            let x = n_children + self.failure_threshold + 1;
            if x < 0 {
                0
            } else {
                x as usize
            }
        } else {
            self.failure_threshold as usize
        }
    }

    fn end(&mut self) -> (r: Step)
        requires
            old(self)@.children_count <= i32::MAX,
        ensures
            (final(self)@, r) == pa_end(old(self)@),
    {
        let n = self.children_count;
        if self.skipped_count == n {
            return Step { halt: Halt::Keep, next: Next::Finish(BehaviorStatus::Skipped) };
        }
        let done = match self.skipped_count.checked_add(self.completed_list.len()) {
            Some(v) => v >= n,
            None => true,
        };
        if done {
            self.completed_list.clear();
            let st = if self.failure_count >= self.failure_threshold(n as i32) {
                BehaviorStatus::Failure
            } else {
                BehaviorStatus::Success
            };
            self.failure_count = 0;
            return Step { halt: Halt::ResetAll, next: Next::Finish(st) };
        }
        Step { halt: Halt::Keep, next: Next::Finish(BehaviorStatus::Running) }
    }

    fn visit(&mut self) -> (r: Step)
        requires
            old(self)@.children_count <= i32::MAX,
        ensures
            (final(self)@, r) == pa_visit(old(self)@),
    {
        let ghost s0 = self@;
        while self.index < self.children_count && self.completed_list.contains(self.index)
            invariant
                s0 == old(self)@,
                self@.children_count <= i32::MAX,
                pa_visit(self@) == pa_visit(s0),
            decreases self@.children_count - self@.index,
        {
            self.index = self.index + 1;
        }
        if self.index < self.children_count {
            Step { halt: Halt::Keep, next: Next::TickChild(self.index) }
        } else {
            self.end()
        }
    }

    /// Start a tick of a node with `children` children; `max_failures` is the value
    /// of the port of that name.
    pub fn tick(&mut self, max_failures: i32, children: usize) -> (r: Step)
        requires
            children <= i32::MAX,
        ensures
            (final(self)@, r) == pa_tick(old(self)@, max_failures, children),
    {
        self.failure_threshold = max_failures;
        self.children_count = children;
        if (children as i32) < self.failure_threshold {
            return Step { halt: Halt::Keep, next: Next::Fail(Fault::ParallelAllNeverFail) };
        }
        self.skipped_count = 0;
        self.index = 0;
        self.visit()
    }

    /// Continue the tick with the status the child asked for returned.
    pub fn resume(&mut self, child: BehaviorStatus) -> (r: Step)
        requires
            old(self)@.index < old(self)@.children_count <= i32::MAX,
            child == BehaviorStatus::Skipped ==> old(self)@.skipped_count < usize::MAX,
            child == BehaviorStatus::Failure ==> old(self)@.failure_count < usize::MAX,
        ensures
            (final(self)@, r) == pa_resume(old(self)@, child),
    {
        match child {
            BehaviorStatus::Success => {
                self.completed_list.insert(self.index);
            },
            BehaviorStatus::Failure => {
                self.completed_list.insert(self.index);
                self.failure_count = self.failure_count + 1;
            },
            BehaviorStatus::Skipped => {
                self.skipped_count = self.skipped_count + 1;
            },
            BehaviorStatus::Running => {},
            BehaviorStatus::Idle => {
                return Step {
                    halt: Halt::Keep,
                    next: Next::Fail(Fault::IdleChild(Reporter::ParallelAll)),
                };
            },
        }
        self.index = self.index + 1;
        self.visit()
    }

    /// Halt the node: reset the children.
    pub fn halt(&mut self) -> (r: Halt)
        ensures
            final(self)@ == old(self)@,
            r == Halt::ResetAll,
    {
        Halt::ResetAll
    }
}

impl ParallelAll {
    /// Create a behavior of this node type, named `name`, with the given configuration.
    pub fn create_behavior(name: &str, config: BehaviorConfig) -> (r: Behavior)
        ensures
            fresh_data(r.data, name@, "ParallelAll"@, BehaviorType::SyncControl, config),
            r.context matches NodeContext::ParallelAll(c) && c@ == (ParallelAllState { failure_threshold: -1i32, completed: Set::empty(), failure_count: 0, index: 0, skipped_count: 0, children_count: 0 }),
    {
        let ctx = ParallelAll::new();
        Behavior {
            data: new_data(name, "ParallelAll", BehaviorType::SyncControl, config),
            context: NodeContext::ParallelAll(ctx),
        }
    }

    /// The ports of this node type.
    pub fn _ports() -> (r: PortList)
        ensures
            r.ports@.len() == 1,
            port_is(r.ports@[0], "max_failures"@, PortDirection::Input, Some("1"@), ""@),
    {
        let mut ports = PortList::new();
        ports.insert("max_failures", input_port(Some("1"), ""));
        ports
    }
}

} // verus!
