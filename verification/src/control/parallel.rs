//! The parallel control node.
//!
//! It executes all its children concurrently, but not in separate threads. It is
//! the only control node that can have several children running at the same
//! time. The node completes when the success threshold or the failure threshold
//! (ports `success_count` and `failure_count`) is reached; children still running
//! are then halted. Thresholds count like indexes in Python: -1 stands for the
//! number of children.

use vstd::prelude::*;
use crate::behavior::{fresh_data, new_data, Behavior, BehaviorConfig, BehaviorType, NodeContext, PortList, port_is, input_port, PortDirection};
use crate::index_set::IndexSet;
use crate::status::BehaviorStatus;
use crate::step::{go, go_after, Fault, Halt, Next, Step};

verus! {

/// The parallel control node.
pub struct Parallel {
    success_threshold: i32,
    failure_threshold: i32,
    completed_list: IndexSet,
    success_count: usize,
    failure_count: usize,
    index: usize,
    skipped_count: usize,
    children_count: usize,
}

/// The state of a [`Parallel`].
pub struct ParallelState {
    /// the success threshold as given
    pub success_threshold: i32,
    /// the failure threshold as given
    pub failure_threshold: i32,
    /// the children that have completed
    pub completed: Set<usize>,
    /// the number of children that succeeded
    pub success_count: usize,
    /// the number of children that failed
    pub failure_count: usize,
    /// the child visited last in the current tick
    pub index: usize,
    /// the number of children skipped in the current tick
    pub skipped_count: usize,
    /// the number of children seen at the start of the current tick
    pub children_count: usize,
}

impl View for Parallel {
    type V = ParallelState;

    closed spec fn view(&self) -> ParallelState {
        ParallelState {
            success_threshold: self.success_threshold,
            failure_threshold: self.failure_threshold,
            completed: self.completed_list@,
            success_count: self.success_count,
            failure_count: self.failure_count,
            index: self.index,
            skipped_count: self.skipped_count,
            children_count: self.children_count,
        }
    }
}

/// A threshold `t` for `n` children: a negative one counts back from `n + 1`, not below 0.
pub open spec fn threshold(t: i32, n: int) -> int {
    if t < 0 {
        let x = n + t + 1;
        if x < 0 { 0 } else { x }
    } else {
        t as int
    }
}

/// The end of the tick with the given status: counters cleared, children reset.
pub open spec fn par_finish(s: ParallelState, st: BehaviorStatus) -> (ParallelState, Step) {
    (
        ParallelState { completed: Set::empty(), success_count: 0, failure_count: 0, ..s },
        go_after(Halt::ResetAll, Next::Finish(st)),
    )
}

/// The checks after a child was visited: the end of the tick when a threshold is reached.
pub open spec fn par_check(s: ParallelState) -> Option<(ParallelState, Step)> {
    let n = s.children_count as int;
    let required = threshold(s.success_threshold, n);
    if s.success_count >= required || (s.success_threshold < 0 && s.success_count
        + s.skipped_count >= required) {
        Some(par_finish(s, BehaviorStatus::Success))
    } else if n - s.failure_count < required || s.failure_count == threshold(
        s.failure_threshold,
        n,
    ) {
        Some(par_finish(s, BehaviorStatus::Failure))
    } else {
        None
    }
}

/// The loop of the tick from child `s.index` on: completed children are not ticked
/// again, the others are ticked one by one.
pub open spec fn par_visit(s: ParallelState) -> (ParallelState, Step)
    decreases s.children_count - s.index,
{
    if s.index >= s.children_count {
        (
            s,
            go(
                Next::Finish(
                    if s.skipped_count == s.children_count {
                        BehaviorStatus::Skipped
                    } else {
                        BehaviorStatus::Running
                    },
                ),
            ),
        )
    } else if !s.completed.contains(s.index) {
        (s, go(Next::TickChild(s.index)))
    } else {
        match par_check(s) {
            Some(r) => r,
            None => par_visit(ParallelState { index: (s.index + 1) as usize, ..s }),
        }
    }
}

/// Start of a tick, with the values of ports `success_count` and `failure_count`.
pub open spec fn par_tick(s: ParallelState, success: i32, failure: i32, n: usize) -> (
    ParallelState,
    Step,
) {
    let s1 = ParallelState {
        success_threshold: success,
        failure_threshold: failure,
        children_count: n,
        ..s
    };
    if n < threshold(success, n as int) {
        (s1, go(Next::Fail(Fault::ParallelNeverSucceed)))
    } else if n < threshold(failure, n as int) {
        (s1, go(Next::Fail(Fault::ParallelNeverFail)))
    } else {
        par_visit(ParallelState { index: 0, skipped_count: 0, ..s1 })
    }
}

/// The counters after the child visited last returned `child`.
pub open spec fn par_count(s: ParallelState, child: BehaviorStatus) -> ParallelState {
    match child {
        BehaviorStatus::Skipped => ParallelState {
            skipped_count: (s.skipped_count + 1) as usize,
            ..s
        },
        BehaviorStatus::Success => ParallelState {
            completed: s.completed.insert(s.index),
            success_count: (s.success_count + 1) as usize,
            ..s
        },
        BehaviorStatus::Failure => ParallelState {
            completed: s.completed.insert(s.index),
            failure_count: (s.failure_count + 1) as usize,
            ..s
        },
        _ => s,
    }
}

/// Reaction to the status of the child ticked last.
pub open spec fn par_resume(s: ParallelState, child: BehaviorStatus) -> (ParallelState, Step) {
    let s1 = par_count(s, child);
    match par_check(s1) {
        Some(r) => r,
        None => par_visit(ParallelState { index: (s1.index + 1) as usize, ..s1 }),
    }
}

impl Parallel {
    /// A node that has not been ticked yet.
    pub fn new() -> (r: Self)
        ensures
            r@.success_threshold == -1,
            r@.failure_threshold == -1,
            r@.completed == Set::<usize>::empty(),
            r@.success_count == 0,
            r@.failure_count == 0,
            r@.index == 0,
            r@.skipped_count == 0,
            r@.children_count == 0,
    {
        Parallel {
            success_threshold: -1,
            failure_threshold: -1,
            completed_list: IndexSet::new(),
            success_count: 0,
            failure_count: 0,
            index: 0,
            skipped_count: 0,
            children_count: 0,
        }
    }

    /// The number of successes needed with `n_children` children.
    pub fn success_threshold(&self, n_children: i32) -> (r: usize)
        requires
            n_children >= 0,
        ensures
            r as int == threshold(self@.success_threshold, n_children as int),
    {
        if self.success_threshold < 0 {
            let x = n_children + self.success_threshold + 1;
            if x < 0 {
                0
            } else {
                x as usize
            }
        } else {
            self.success_threshold as usize
        }
    }

    /// The number of failures that make the node fail with `n_children` children.
    pub fn failure_threshold(&self, n_children: i32) -> (r: usize)
        requires
            n_children >= 0,
        ensures
            r as int == threshold(self@.failure_threshold, n_children as int),
    {
        if self.failure_threshold < 0 {
            let x = n_children + self.failure_threshold + 1;
            if x < 0 {
                0
            } else {
                x as usize
            }
        } else {
            self.failure_threshold as usize
        }
    }

    /// Forget which children have completed.
    fn clear(&mut self)
        ensures
            final(self)@ == (ParallelState {
                completed: Set::empty(),
                success_count: 0,
                failure_count: 0,
                ..old(self)@
            }),
    {
        self.completed_list.clear();
        self.success_count = 0;
        self.failure_count = 0;
    }

    fn check(&mut self) -> (r: Option<Step>)
        requires
            old(self)@.children_count <= i32::MAX,
        ensures
            match par_check(old(self)@) {
                Some((s, st)) => final(self)@ == s && r == Some(st),
                None => final(self)@ == old(self)@ && r is None,
            },
    {
        let n = self.children_count;
        let required = self.success_threshold(n as i32);
        let enough_with_skipped = match self.success_count.checked_add(self.skipped_count) {
            Some(v) => v >= required,
            None => true,
        };
        if self.success_count >= required || (self.success_threshold < 0 && enough_with_skipped) {
            self.clear();
            return Some(Step { halt: Halt::ResetAll, next: Next::Finish(BehaviorStatus::Success) });
        }
        if self.failure_count > n || n - self.failure_count < required || self.failure_count
            == self.failure_threshold(n as i32) {
            self.clear();
            return Some(Step { halt: Halt::ResetAll, next: Next::Finish(BehaviorStatus::Failure) });
        }
        None
    }

    fn visit(&mut self) -> (r: Step)
        requires
            old(self)@.children_count <= i32::MAX,
        ensures
            (final(self)@, r) == par_visit(old(self)@),
    {
        let ghost s0 = self@;
        while self.index < self.children_count && self.completed_list.contains(self.index)
            invariant
                s0 == old(self)@,
                self@.children_count <= i32::MAX,
                par_visit(self@) == par_visit(s0),
            decreases self@.children_count - self@.index,
        {
            let ghost before = self@;
            assert(par_visit(before) == match par_check(before) {
                Some(r) => r,
                None => par_visit(ParallelState { index: (before.index + 1) as usize, ..before }),
            });
            if let Some(step) = self.check() {
                return step;
            }
            self.index = self.index + 1;
        }
        if self.index < self.children_count {
            Step { halt: Halt::Keep, next: Next::TickChild(self.index) }
        } else if self.skipped_count == self.children_count {
            Step { halt: Halt::Keep, next: Next::Finish(BehaviorStatus::Skipped) }
        } else {
            Step { halt: Halt::Keep, next: Next::Finish(BehaviorStatus::Running) }
        }
    }

    /// Start a tick of a node with `children` children; `success_count` and
    /// `failure_count` are the values of the ports of these names.
    pub fn tick(&mut self, success_count: i32, failure_count: i32, children: usize) -> (r: Step)
        requires
            children <= i32::MAX,
        ensures
            (final(self)@, r) == par_tick(old(self)@, success_count, failure_count, children),
    {
        self.success_threshold = success_count;
        self.failure_threshold = failure_count;
        self.children_count = children;
        if children < self.success_threshold(children as i32) {
            return Step { halt: Halt::Keep, next: Next::Fail(Fault::ParallelNeverSucceed) };
        }
        if children < self.failure_threshold(children as i32) {
            return Step { halt: Halt::Keep, next: Next::Fail(Fault::ParallelNeverFail) };
        }
        self.skipped_count = 0;
        self.index = 0;
        self.visit()
    }

    /// Continue the tick with the status the child asked for returned.
    pub fn resume(&mut self, child: BehaviorStatus) -> (r: Step)
        requires
            old(self)@.index < old(self)@.children_count <= i32::MAX,
            child != BehaviorStatus::Idle,
            child == BehaviorStatus::Skipped ==> old(self)@.skipped_count < usize::MAX,
            child == BehaviorStatus::Success ==> old(self)@.success_count < usize::MAX,
            child == BehaviorStatus::Failure ==> old(self)@.failure_count < usize::MAX,
        ensures
            (final(self)@, r) == par_resume(old(self)@, child),
    {
        match child {
            BehaviorStatus::Skipped => {
                self.skipped_count = self.skipped_count + 1;
            },
            BehaviorStatus::Success => {
                self.completed_list.insert(self.index);
                self.success_count = self.success_count + 1;
            },
            BehaviorStatus::Failure => {
                self.completed_list.insert(self.index);
                self.failure_count = self.failure_count + 1;
            },
            _ => {},
        }
        if let Some(step) = self.check() {
            return step;
        }
        self.index = self.index + 1;
        self.visit()
    }

    /// Halt the node: reset the children.
    pub fn halt(&mut self) -> (r: Halt)
        ensures
            final(self)@ == old(self)@,
            r == Halt::ResetAll,
    {
        Halt::ResetAll
    }
}

impl Parallel {
    /// Create a behavior of this node type, named `name`, with the given configuration.
    pub fn create_behavior(name: &str, config: BehaviorConfig) -> (r: Behavior)
        ensures
            fresh_data(r.data, name@, "Parallel"@, BehaviorType::SyncControl, config),
            r.context matches NodeContext::Parallel(c) && c@ == (ParallelState { success_threshold: -1i32, failure_threshold: -1i32, completed: Set::empty(), success_count: 0, failure_count: 0, index: 0, skipped_count: 0, children_count: 0 }),
    {
        let ctx = Parallel::new();
        Behavior {
            data: new_data(name, "Parallel", BehaviorType::SyncControl, config),
            context: NodeContext::Parallel(ctx),
        }
    }

    /// The ports of this node type.
    pub fn _ports() -> (r: PortList)
        ensures
            r.ports@.len() == 2,
            port_is(r.ports@[0], "success_count"@, PortDirection::Input, Some("-1"@), ""@),
            port_is(r.ports@[1], "failure_count"@, PortDirection::Input, Some("1"@), ""@),
    {
        let mut ports = PortList::new();
        ports.insert("success_count", input_port(Some("-1"), ""));
        ports.insert("failure_count", input_port(Some("1"), ""));
        ports
    }
}

} // verus!
