//! The behaviors that come with the library, and the registry of behaviors a
//! factory can create.

use vstd::prelude::*;
use vstd::string::*;
use crate::behavior::{Behavior, BehaviorCategory, NodeContext, BehaviorConfig, PortDirection, PortList, PortView};
use crate::status::BehaviorStatus;
use crate::control::fallback::{Fallback, FallbackState};
use crate::control::parallel::{Parallel, ParallelState};
use crate::control::sequence::{Sequence, SequenceState};
use crate::decorator::force_failure::ForceFailure;
use crate::decorator::force_success::ForceSuccess;
use crate::control::if_then_else::{IfThenElse, IfThenElseState};
use crate::decorator::inverter::Inverter;
use crate::decorator::keep_running_until_failure::KeepRunningUntilFailure;
use crate::control::parallel_all::{ParallelAll, ParallelAllState};
use crate::control::reactive_fallback::{ReactiveFallback, ReactiveFallbackState};
use crate::control::reactive_sequence::{ReactiveSequence, ReactiveSequenceState};
use crate::decorator::repeat::{Repeat, RepeatState};
use crate::decorator::retry::{Retry, RetryState};
use crate::decorator::retry_until_successful::{RetryUntilSuccessful, RetryUntilSuccessfulState};
use crate::decorator::run_once::{RunOnce, RunOnceState};
use crate::control::sequence_with_memory::{SequenceWithMemory, SequenceWithMemoryState};
use crate::control::while_do_else::{WhileDoElse, WhileDoElseState};

verus! {

/// The behaviors that come with the library.
#[derive(Clone, Copy, Debug, PartialEq, Eq, Structural)]
pub enum BuiltinNode {
    Fallback,
    Parallel,
    Sequence,
    ForceFailure,
    ForceSuccess,
    IfThenElse,
    Inverter,
    KeepRunningUntilFailure,
    ParallelAll,
    ReactiveFallback,
    ReactiveSequence,
    Repeat,
    Retry,
    RetryUntilSuccessful,
    RunOnce,
    SequenceWithMemory,
    WhileDoElse,
}

/// The name under which a behavior of the library is registered.
pub open spec fn builtin_name(k: BuiltinNode) -> Seq<char> {
    match k {
        BuiltinNode::Fallback => "Fallback"@,
        BuiltinNode::Parallel => "Parallel"@,
        BuiltinNode::Sequence => "Sequence"@,
        BuiltinNode::ForceFailure => "ForceFailure"@,
        BuiltinNode::ForceSuccess => "ForceSuccess"@,
        BuiltinNode::IfThenElse => "IfThenElse"@,
        BuiltinNode::Inverter => "Inverter"@,
        BuiltinNode::KeepRunningUntilFailure => "KeepRunningUntilFailure"@,
        BuiltinNode::ParallelAll => "ParallelAll"@,
        BuiltinNode::ReactiveFallback => "ReactiveFallback"@,
        BuiltinNode::ReactiveSequence => "ReactiveSequence"@,
        BuiltinNode::Repeat => "Repeat"@,
        BuiltinNode::Retry => "Retry"@,
        BuiltinNode::RetryUntilSuccessful => "RetryUntilSuccessful"@,
        BuiltinNode::RunOnce => "RunOnce"@,
        BuiltinNode::SequenceWithMemory => "SequenceWithMemory"@,
        BuiltinNode::WhileDoElse => "WhileDoElse"@,
    }
}

/// The category of a behavior of the library.
pub open spec fn builtin_category(k: BuiltinNode) -> BehaviorCategory {
    match k {
        BuiltinNode::Fallback => BehaviorCategory::Control,
        BuiltinNode::Parallel => BehaviorCategory::Control,
        BuiltinNode::Sequence => BehaviorCategory::Control,
        BuiltinNode::ForceFailure => BehaviorCategory::Decorator,
        BuiltinNode::ForceSuccess => BehaviorCategory::Decorator,
        BuiltinNode::IfThenElse => BehaviorCategory::Control,
        BuiltinNode::Inverter => BehaviorCategory::Decorator,
        BuiltinNode::KeepRunningUntilFailure => BehaviorCategory::Decorator,
        BuiltinNode::ParallelAll => BehaviorCategory::Control,
        BuiltinNode::ReactiveFallback => BehaviorCategory::Control,
        BuiltinNode::ReactiveSequence => BehaviorCategory::Control,
        BuiltinNode::Repeat => BehaviorCategory::Decorator,
        BuiltinNode::Retry => BehaviorCategory::Decorator,
        BuiltinNode::RetryUntilSuccessful => BehaviorCategory::Decorator,
        BuiltinNode::RunOnce => BehaviorCategory::Decorator,
        BuiltinNode::SequenceWithMemory => BehaviorCategory::Control,
        BuiltinNode::WhileDoElse => BehaviorCategory::Control,
    }
}

/// An input port without a description.
pub open spec fn plain_input(name: Seq<char>, default_value: Option<Seq<char>>) -> (Seq<char>, PortView) {
    (name, PortView { direction: PortDirection::Input, default_value, description: ""@, parse_expr: false })
}

/// The ports a behavior of the library provides.
pub open spec fn builtin_ports(k: BuiltinNode) -> Seq<(Seq<char>, PortView)> {
    match k {
        BuiltinNode::Parallel => seq![plain_input("success_count"@, Some("-1"@)), plain_input("failure_count"@, Some("1"@))],
        BuiltinNode::ParallelAll => seq![plain_input("max_failures"@, Some("1"@))],
        BuiltinNode::Repeat => seq![plain_input("num_cycles"@, None)],
        BuiltinNode::Retry => seq![plain_input("num_attempts"@, None)],
        BuiltinNode::RetryUntilSuccessful => seq![plain_input("num_attempts"@, None)],
        BuiltinNode::RunOnce => seq![plain_input("then_skip"@, Some("true"@))],
        _ => Seq::empty(),
    }
}

/// The behavior `b` was made by the creation function of `k`: its category,
/// type name and node, in the node's fresh state.
pub open spec fn made_by_builtin(b: Behavior, k: BuiltinNode) -> bool {
    &&& b.data.bhvr_category == builtin_category(k)
    &&& b.data.type_str@ == builtin_name(k)
    &&& match k {
        BuiltinNode::Fallback => b.context matches NodeContext::Fallback(c) && c@ == (FallbackState {
            child_idx: 0,
            all_skipped: true,
            children_count: 0,
        }),
        BuiltinNode::Parallel => b.context matches NodeContext::Parallel(c) && c@ == (ParallelState {
            success_threshold: -1i32,
            failure_threshold: -1i32,
            completed: Set::empty(),
            success_count: 0,
            failure_count: 0,
            index: 0,
            skipped_count: 0,
            children_count: 0,
        }),
        BuiltinNode::Sequence => b.context matches NodeContext::Sequence(c) && c@ == (SequenceState {
            child_idx: 0,
            all_skipped: false,
            children_count: 0,
        }),
        BuiltinNode::ForceFailure => b.context is ForceFailure,
        BuiltinNode::ForceSuccess => b.context is ForceSuccess,
        BuiltinNode::IfThenElse => b.context matches NodeContext::IfThenElse(c) && c@ == (IfThenElseState {
            child_idx: 0,
            children_count: 0,
        }),
        BuiltinNode::Inverter => b.context is Inverter,
        BuiltinNode::KeepRunningUntilFailure => b.context is KeepRunningUntilFailure,
        BuiltinNode::ParallelAll => b.context matches NodeContext::ParallelAll(c) && c@ == (ParallelAllState {
            failure_threshold: -1i32,
            completed: Set::empty(),
            failure_count: 0,
            index: 0,
            skipped_count: 0,
            children_count: 0,
        }),
        BuiltinNode::ReactiveFallback => b.context matches NodeContext::ReactiveFallback(c) && c@ == (
        ReactiveFallbackState { index: 0, all_skipped: true, children_count: 0, running: false }),
        BuiltinNode::ReactiveSequence => b.context matches NodeContext::ReactiveSequence(c) && c@ == (
        ReactiveSequenceState { running_child: -1i32, index: 0, all_skipped: true, children_count: 0 }),
        BuiltinNode::Repeat => b.context matches NodeContext::Repeat(c) && c@ == (RepeatState {
            num_cycles: -1i32,
            repeat_count: 0,
            all_skipped: true,
        }),
        BuiltinNode::Retry => b.context matches NodeContext::Retry(c) && c@ == (RetryState {
            max_attempts: -1i32,
            try_count: 0,
            all_skipped: true,
        }),
        BuiltinNode::RetryUntilSuccessful => b.context matches NodeContext::RetryUntilSuccessful(c) && c@ == (
        RetryUntilSuccessfulState { max_attempts: -1i32, try_count: 0, all_skipped: true }),
        BuiltinNode::RunOnce => b.context matches NodeContext::RunOnce(c) && c@ == (RunOnceState {
            already_ticked: false,
            returned_status: BehaviorStatus::Idle,
        }),
        BuiltinNode::SequenceWithMemory => b.context matches NodeContext::SequenceWithMemory(c) && c@ == (
        SequenceWithMemoryState { child_idx: 0, all_skipped: false, children_count: 0 }),
        BuiltinNode::WhileDoElse => b.context matches NodeContext::WhileDoElse(c) && c@ == (WhileDoElseState {
            in_branch: false,
            children_count: 0,
        }),
    }
}

/// Each behavior of the library has a name of its own.
pub proof fn lemma_builtin_names_distinct()
    ensures
        forall|a: BuiltinNode, b: BuiltinNode| #[trigger] builtin_name(a) == #[trigger] builtin_name(b) ==> a == b,
{
    reveal_strlit("Fallback");
    reveal_strlit("Parallel");
    reveal_strlit("Sequence");
    reveal_strlit("ForceFailure");
    reveal_strlit("ForceSuccess");
    reveal_strlit("IfThenElse");
    reveal_strlit("Inverter");
    reveal_strlit("KeepRunningUntilFailure");
    reveal_strlit("ParallelAll");
    reveal_strlit("ReactiveFallback");
    reveal_strlit("ReactiveSequence");
    reveal_strlit("Repeat");
    reveal_strlit("Retry");
    reveal_strlit("RetryUntilSuccessful");
    reveal_strlit("RunOnce");
    reveal_strlit("SequenceWithMemory");
    reveal_strlit("WhileDoElse");
    assert forall|a: BuiltinNode, b: BuiltinNode| #[trigger] builtin_name(a) == #[trigger] builtin_name(b) implies a
        == b by {
        let (x, y) = (builtin_name(a), builtin_name(b));
        assert(x.len() == y.len() && x[0] == y[0] && x[5] == y[5]);
        if x.len() == 16 {
            assert(x[8] == y[8]);
        }
    }
}

impl BuiltinNode {
    /// The name under which this behavior is registered.
    pub fn name(&self) -> (r: String)
        ensures
            r@ == builtin_name(*self),
    {
        match self {
            BuiltinNode::Fallback => String::from_str("Fallback"),
            BuiltinNode::Parallel => String::from_str("Parallel"),
            BuiltinNode::Sequence => String::from_str("Sequence"),
            BuiltinNode::ForceFailure => String::from_str("ForceFailure"),
            BuiltinNode::ForceSuccess => String::from_str("ForceSuccess"),
            BuiltinNode::IfThenElse => String::from_str("IfThenElse"),
            BuiltinNode::Inverter => String::from_str("Inverter"),
            BuiltinNode::KeepRunningUntilFailure => String::from_str("KeepRunningUntilFailure"),
            BuiltinNode::ParallelAll => String::from_str("ParallelAll"),
            BuiltinNode::ReactiveFallback => String::from_str("ReactiveFallback"),
            BuiltinNode::ReactiveSequence => String::from_str("ReactiveSequence"),
            BuiltinNode::Repeat => String::from_str("Repeat"),
            BuiltinNode::Retry => String::from_str("Retry"),
            BuiltinNode::RetryUntilSuccessful => String::from_str("RetryUntilSuccessful"),
            BuiltinNode::RunOnce => String::from_str("RunOnce"),
            BuiltinNode::SequenceWithMemory => String::from_str("SequenceWithMemory"),
            BuiltinNode::WhileDoElse => String::from_str("WhileDoElse"),
        }
    }

    /// The category of this behavior.
    pub fn category(&self) -> (r: BehaviorCategory)
        ensures
            r == builtin_category(*self),
    {
        match self {
            BuiltinNode::Fallback => BehaviorCategory::Control,
            BuiltinNode::Parallel => BehaviorCategory::Control,
            BuiltinNode::Sequence => BehaviorCategory::Control,
            BuiltinNode::ForceFailure => BehaviorCategory::Decorator,
            BuiltinNode::ForceSuccess => BehaviorCategory::Decorator,
            BuiltinNode::IfThenElse => BehaviorCategory::Control,
            BuiltinNode::Inverter => BehaviorCategory::Decorator,
            BuiltinNode::KeepRunningUntilFailure => BehaviorCategory::Decorator,
            BuiltinNode::ParallelAll => BehaviorCategory::Control,
            BuiltinNode::ReactiveFallback => BehaviorCategory::Control,
            BuiltinNode::ReactiveSequence => BehaviorCategory::Control,
            BuiltinNode::Repeat => BehaviorCategory::Decorator,
            BuiltinNode::Retry => BehaviorCategory::Decorator,
            BuiltinNode::RetryUntilSuccessful => BehaviorCategory::Decorator,
            BuiltinNode::RunOnce => BehaviorCategory::Decorator,
            BuiltinNode::SequenceWithMemory => BehaviorCategory::Control,
            BuiltinNode::WhileDoElse => BehaviorCategory::Control,
        }
    }

    /// The ports this behavior provides.
    pub fn ports(&self) -> (r: PortList)
        ensures
            r@ == builtin_ports(*self),
    {
        let r = match self {
            BuiltinNode::Fallback => Fallback::_ports(),
            BuiltinNode::Parallel => Parallel::_ports(),
            BuiltinNode::Sequence => Sequence::_ports(),
            BuiltinNode::ForceFailure => ForceFailure::_ports(),
            BuiltinNode::ForceSuccess => ForceSuccess::_ports(),
            BuiltinNode::IfThenElse => IfThenElse::_ports(),
            BuiltinNode::Inverter => Inverter::_ports(),
            BuiltinNode::KeepRunningUntilFailure => KeepRunningUntilFailure::_ports(),
            BuiltinNode::ParallelAll => ParallelAll::_ports(),
            BuiltinNode::ReactiveFallback => ReactiveFallback::_ports(),
            BuiltinNode::ReactiveSequence => ReactiveSequence::_ports(),
            BuiltinNode::Repeat => Repeat::_ports(),
            BuiltinNode::Retry => Retry::_ports(),
            BuiltinNode::RetryUntilSuccessful => RetryUntilSuccessful::_ports(),
            BuiltinNode::RunOnce => RunOnce::_ports(),
            BuiltinNode::SequenceWithMemory => SequenceWithMemory::_ports(),
            BuiltinNode::WhileDoElse => WhileDoElse::_ports(),
        };
        assert(r@ =~= builtin_ports(*self));
        r
    }

    /// Create a behavior of this kind named `name`, idle and without children.
    pub fn create(&self, name: &str, config: BehaviorConfig) -> (r: Behavior)
        ensures
            made_by_builtin(r, *self),
            r.data.name@ == name@,
            r.data.config == config,
            r.data.status == BehaviorStatus::Idle,
            r.data.children@.len() == 0,
    {
        match self {
            BuiltinNode::Fallback => Fallback::create_behavior(name, config),
            BuiltinNode::Parallel => Parallel::create_behavior(name, config),
            BuiltinNode::Sequence => Sequence::create_behavior(name, config),
            BuiltinNode::ForceFailure => ForceFailure::create_behavior(name, config),
            BuiltinNode::ForceSuccess => ForceSuccess::create_behavior(name, config),
            BuiltinNode::IfThenElse => IfThenElse::create_behavior(name, config),
            BuiltinNode::Inverter => Inverter::create_behavior(name, config),
            BuiltinNode::KeepRunningUntilFailure => KeepRunningUntilFailure::create_behavior(name, config),
            BuiltinNode::ParallelAll => ParallelAll::create_behavior(name, config),
            BuiltinNode::ReactiveFallback => ReactiveFallback::create_behavior(name, config),
            BuiltinNode::ReactiveSequence => ReactiveSequence::create_behavior(name, config),
            BuiltinNode::Repeat => Repeat::create_behavior(name, config),
            BuiltinNode::Retry => Retry::create_behavior(name, config),
            BuiltinNode::RetryUntilSuccessful => RetryUntilSuccessful::create_behavior(name, config),
            BuiltinNode::RunOnce => RunOnce::create_behavior(name, config),
            BuiltinNode::SequenceWithMemory => SequenceWithMemory::create_behavior(name, config),
            BuiltinNode::WhileDoElse => WhileDoElse::create_behavior(name, config),
        }
    }
}

} // verus!
