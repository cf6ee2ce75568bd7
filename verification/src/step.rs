//! What a node asks its driver to do next, and the faults a node can report.
//!
//! A node's tick alternates between decisions (made here, verified) and the
//! ticking, halting and resetting of its children (done by the driver that owns
//! the children). Every decision is a [`Step`]: first the children to halt or
//! reset, then what comes next.

use vstd::prelude::*;
use vstd::string::*;
use crate::status::BehaviorStatus;

verus! {

/// Children to halt or reset before the next action.
#[derive(Clone, Copy, Debug, PartialEq, Eq, Structural)]
pub enum Halt {
    /// leave all children as they are
    Keep,
    /// reset all children (halt them and make them idle)
    ResetAll,
    /// halt the child with this index
    HaltOne(usize),
    /// halt the children with an index below this one
    HaltBefore(usize),
    /// halt the children with an index above this one
    HaltAfter(usize),
    /// halt the children from this index on
    HaltFrom(usize),
    /// halt the child with this index, then reset all children
    HaltOneThenReset(usize),
}

/// Which node reports that a child returned [`BehaviorStatus::Idle`].
#[derive(Clone, Copy, Debug, PartialEq, Eq, Structural)]
pub enum Reporter {
    IfThenElse,
    Fallback,
    ReactiveFallback,
    Sequence,
    SequenceWithMemory,
    ReactiveSequence,
    ParallelAll,
    Inverter,
    Repeat,
    Retry,
    RetryUntilSuccessful,
}

/// A fault found by a node during a tick.
#[derive(Clone, Copy, Debug, PartialEq, Eq, Structural)]
pub enum Fault {
    /// an if-then-else node needs 2 or 3 children
    IfThenElseChildren,
    /// a while-do-else node needs 2 or 3 children
    WhileDoElseChildren,
    /// the condition of an if-then-else node was skipped
    IfThenElseUnexpected,
    /// a second child of a reactive sequence returned running
    ReactiveSequenceRunning,
    /// a parallel node has fewer children than its success threshold
    ParallelNeverSucceed,
    /// a parallel node has fewer children than its failure threshold
    ParallelNeverFail,
    /// a parallel-all node has fewer children than its failure threshold
    ParallelAllNeverFail,
    /// a child returned idle
    IdleChild(Reporter),
}

/// What comes after the halts of a [`Step`].
#[derive(Clone, Copy, Debug, PartialEq, Eq, Structural)]
pub enum Next {
    /// tick the child with this index, then report its status to the node
    TickChild(usize),
    /// the tick is over with this status
    Finish(BehaviorStatus),
    /// the tick is over with this fault
    Fail(Fault),
}

/// One decision of a node.
#[derive(Clone, Copy, Debug, PartialEq, Eq, Structural)]
pub struct Step {
    /// children to halt or reset first
    pub halt: Halt,
    /// what comes next
    pub next: Next,
}

/// The smaller of `a` and `b`.
pub open spec fn min_int(a: int, b: int) -> int {
    if a <= b { a } else { b }
}

/// The children that the halt `h` names among `n` children: those from the first
/// index up to the second, and whether all children are reset afterwards.
pub open spec fn halt_range(h: Halt, n: int) -> (int, int, bool) {
    match h {
        Halt::Keep => (0, 0, false),
        Halt::ResetAll => (0, n, false),
        Halt::HaltOne(i) => (min_int(i as int, n), min_int(i + 1, n), false),
        Halt::HaltOneThenReset(i) => (min_int(i as int, n), min_int(i + 1, n), true),
        Halt::HaltBefore(i) => (0, min_int(i as int, n), false),
        Halt::HaltAfter(i) => (min_int(i + 1, n), n, false),
        Halt::HaltFrom(i) => (min_int(i as int, n), n, false),
    }
}

impl Halt {
    /// The children that this halt names among `n` children: those from the
    /// first index up to the second, and whether all children are reset
    /// afterwards.
    pub fn range(&self, n: usize) -> (r: (usize, usize, bool))
        ensures
            (r.0 as int, r.1 as int, r.2) == halt_range(*self, n as int),
    {
        let after = |i: usize| -> (a: usize)
            ensures
                a as int == min_int(i + 1, n as int),
            { if i < n { i + 1 } else { n } };
        let at = |i: usize| -> (a: usize)
            ensures
                a as int == min_int(i as int, n as int),
            { if i < n { i } else { n } };
        match self {
            Halt::Keep => (0, 0, false),
            Halt::ResetAll => (0, n, false),
            Halt::HaltOne(i) => (at(*i), after(*i), false),
            Halt::HaltOneThenReset(i) => (at(*i), after(*i), true),
            Halt::HaltBefore(i) => (0, at(*i), false),
            Halt::HaltAfter(i) => (after(*i), n, false),
            Halt::HaltFrom(i) => (at(*i), n, false),
        }
    }
}

/// A step that halts nothing.
pub open spec fn go(next: Next) -> Step {
    Step { halt: Halt::Keep, next }
}

/// A step with halts.
pub open spec fn go_after(halt: Halt, next: Next) -> Step {
    Step { halt, next }
}

/// Errors of behaviors.
#[derive(Debug)]
pub enum BehaviorError {
    /// the structure of the tree does not fit the node
    NodeStructure(String),
    /// a behavior (first) reported an unexpected status (second)
    Status(String, String),
}

/// The mathematical value of a [`BehaviorError`].
pub enum BehaviorErrorView {
    NodeStructure(Seq<char>),
    Status(Seq<char>, Seq<char>),
}

impl View for BehaviorError {
    type V = BehaviorErrorView;

    open spec fn view(&self) -> BehaviorErrorView {
        match self {
            BehaviorError::NodeStructure(m) => BehaviorErrorView::NodeStructure(m@),
            BehaviorError::Status(n, s) => BehaviorErrorView::Status(n@, s@),
        }
    }
}

/// The name under which a reporter names itself.
pub open spec fn reporter_name(r: Reporter) -> Seq<char> {
    match r {
        Reporter::IfThenElse => "Node name here"@,
        Reporter::Fallback => "Name here"@,
        Reporter::ReactiveFallback => "Name here"@,
        Reporter::Sequence => "SequenceNode"@,
        Reporter::SequenceWithMemory => "SequenceStarNode"@,
        Reporter::ReactiveSequence => "ReactiveSequenceNode"@,
        Reporter::ParallelAll => "ParallelAllNode"@,
        Reporter::Inverter => "Inverter Decorator"@,
        Reporter::Repeat => "Repeat Decorator"@,
        Reporter::Retry => "Retry Decorator"@,
        Reporter::RetryUntilSuccessful => "RetryUntilSuccesssful Decorator"@,
    }
}

/// The error that a fault stands for.
pub open spec fn fault_error(f: Fault) -> BehaviorErrorView {
    match f {
        Fault::IfThenElseChildren => BehaviorErrorView::NodeStructure(
            "IfThenElseNode must have either 2 or 3 children."@,
        ),
        Fault::WhileDoElseChildren => BehaviorErrorView::NodeStructure(
            "IfThenElseNode must have either 2 or 3 children."@,
        ),
        Fault::IfThenElseUnexpected => BehaviorErrorView::NodeStructure(
            "Something unexpected happened in IfThenElseNode"@,
        ),
        Fault::ReactiveSequenceRunning => BehaviorErrorView::NodeStructure(
            "[ReactiveSequence]: Only a single child can return Running."@,
        ),
        Fault::ParallelNeverSucceed => BehaviorErrorView::NodeStructure(
            "Number of children is less than the threshold. Can never succeed."@,
        ),
        Fault::ParallelNeverFail => BehaviorErrorView::NodeStructure(
            "Number of children is less than the threshold. Can never fail."@,
        ),
        Fault::ParallelAllNeverFail => BehaviorErrorView::NodeStructure(
            "Number of children is less than the threshold. Can never fail."@,
        ),
        Fault::IdleChild(r) => BehaviorErrorView::Status(reporter_name(r), "Idle"@),
    }
}

/// The name a reporter uses in its errors.
pub fn reporter_name_string(r: Reporter) -> (s: String)
    ensures
        s@ == reporter_name(r),
{
    match r {
        Reporter::IfThenElse => String::from_str("Node name here"),
        Reporter::Fallback => String::from_str("Name here"),
        Reporter::ReactiveFallback => String::from_str("Name here"),
        Reporter::Sequence => String::from_str("SequenceNode"),
        Reporter::SequenceWithMemory => String::from_str("SequenceStarNode"),
        Reporter::ReactiveSequence => String::from_str("ReactiveSequenceNode"),
        Reporter::ParallelAll => String::from_str("ParallelAllNode"),
        Reporter::Inverter => String::from_str("Inverter Decorator"),
        Reporter::Repeat => String::from_str("Repeat Decorator"),
        Reporter::Retry => String::from_str("Retry Decorator"),
        Reporter::RetryUntilSuccessful => String::from_str("RetryUntilSuccesssful Decorator"),
    }
}

impl Fault {
    /// The [`BehaviorError`] this fault stands for.
    pub fn to_error(&self) -> (e: BehaviorError)
        ensures
            e@ == fault_error(*self),
    {
        match self {
            Fault::IfThenElseChildren | Fault::WhileDoElseChildren => BehaviorError::NodeStructure(
                String::from_str("IfThenElseNode must have either 2 or 3 children."),
            ),
            Fault::IfThenElseUnexpected => BehaviorError::NodeStructure(
                String::from_str("Something unexpected happened in IfThenElseNode"),
            ),
            Fault::ReactiveSequenceRunning => BehaviorError::NodeStructure(
                String::from_str("[ReactiveSequence]: Only a single child can return Running."),
            ),
            Fault::ParallelNeverSucceed => BehaviorError::NodeStructure(
                String::from_str("Number of children is less than the threshold. Can never succeed."),
            ),
            Fault::ParallelNeverFail | Fault::ParallelAllNeverFail => BehaviorError::NodeStructure(
                String::from_str("Number of children is less than the threshold. Can never fail."),
            ),
            Fault::IdleChild(r) => BehaviorError::Status(
                reporter_name_string(*r),
                String::from_str("Idle"),
            ),
        }
    }
}

} // verus!
