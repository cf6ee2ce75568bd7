//! Halting a tree of behaviors: each node halts as it says, the children it
//! names are halted in turn, and every halted behavior is idle afterwards.

use vstd::prelude::*;
use crate::behavior::{Behavior, NodeContext};
use crate::status::BehaviorStatus;
use crate::step::{halt_range, Halt};
use crate::control::fallback::FallbackState;
use crate::control::if_then_else::IfThenElseState;
use crate::control::sequence::SequenceState;
use crate::control::sequence_with_memory::SequenceWithMemoryState;
use crate::decorator::repeat::RepeatState;
use crate::decorator::retry::RetryState;
use crate::decorator::retry_until_successful::RetryUntilSuccessfulState;

verus! {

/// The node `new` is the node `old` after its own halt: the nodes of the library
/// go back to the start of their children, behaviors of the user stay as they
/// are.
pub open spec fn node_halted(old: NodeContext, new: NodeContext) -> bool {
    match (old, new) {
        (NodeContext::Fallback(a), NodeContext::Fallback(b)) => b@ == (FallbackState { child_idx: 0, ..a@ }),
        (NodeContext::IfThenElse(a), NodeContext::IfThenElse(b)) => b@ == (IfThenElseState { child_idx: 0, ..a@ }),
        (NodeContext::Parallel(a), NodeContext::Parallel(b)) => b@ == a@,
        (NodeContext::ParallelAll(a), NodeContext::ParallelAll(b)) => b@ == a@,
        (NodeContext::ReactiveFallback(a), NodeContext::ReactiveFallback(b)) => b@ == a@,
        (NodeContext::ReactiveSequence(a), NodeContext::ReactiveSequence(b)) => b@ == a@,
        (NodeContext::Sequence(a), NodeContext::Sequence(b)) => b@ == (SequenceState { child_idx: 0, ..a@ }),
        (NodeContext::SequenceWithMemory(a), NodeContext::SequenceWithMemory(b)) => b@ == (SequenceWithMemoryState { child_idx: 0, ..a@ }),
        (NodeContext::WhileDoElse(a), NodeContext::WhileDoElse(b)) => b@ == a@,
        (NodeContext::Repeat(a), NodeContext::Repeat(b)) => b@ == (RepeatState { repeat_count: 0, ..a@ }),
        (NodeContext::Retry(a), NodeContext::Retry(b)) => b@ == (RetryState { try_count: 0, ..a@ }),
        (NodeContext::RetryUntilSuccessful(a), NodeContext::RetryUntilSuccessful(b)) => b@ == (RetryUntilSuccessfulState { try_count: 0, ..a@ }),
        (NodeContext::RunOnce(a), NodeContext::RunOnce(b)) => b@ == a@,
        (NodeContext::ForceFailure(_), NodeContext::ForceFailure(_)) => true,
        (NodeContext::ForceSuccess(_), NodeContext::ForceSuccess(_)) => true,
        (NodeContext::Inverter(_), NodeContext::Inverter(_)) => true,
        (NodeContext::KeepRunningUntilFailure(_), NodeContext::KeepRunningUntilFailure(_)) => true,
        (NodeContext::Custom(x), NodeContext::Custom(y)) => x == y,
        _ => false,
    }
}

/// The children a node halts when it is halted: all, but none for a behavior of
/// the user.
pub open spec fn node_halt(c: NodeContext) -> Halt {
    match c {
        NodeContext::Custom(_) => Halt::Keep,
        _ => Halt::ResetAll,
    }
}

/// Halt the node itself; the result names the children to halt.
pub fn halt_node(context: &mut NodeContext) -> (r: Halt)
    ensures
        node_halted(*old(context), *final(context)),
        r == node_halt(*old(context)),
{
    match context {
        NodeContext::Fallback(n) => n.halt(),
        NodeContext::IfThenElse(n) => n.halt(),
        NodeContext::Parallel(n) => n.halt(),
        NodeContext::ParallelAll(n) => n.halt(),
        NodeContext::ReactiveFallback(n) => n.halt(),
        NodeContext::ReactiveSequence(n) => n.halt(),
        NodeContext::Sequence(n) => n.halt(),
        NodeContext::SequenceWithMemory(n) => n.halt(),
        NodeContext::WhileDoElse(n) => n.halt(),
        NodeContext::Repeat(n) => n.halt(),
        NodeContext::Retry(n) => n.halt(),
        NodeContext::RetryUntilSuccessful(n) => n.halt(),
        NodeContext::RunOnce(n) => n.halt(),
        NodeContext::ForceFailure(n) => n.halt(),
        NodeContext::ForceSuccess(n) => n.halt(),
        NodeContext::Inverter(n) => n.halt(),
        NodeContext::KeepRunningUntilFailure(n) => n.halt(),
        NodeContext::Custom(_) => Halt::Keep,
    }
}

/// Child `i` of `n` is among those that the halt `h` names.
pub open spec fn halts_child(h: Halt, n: int, i: int) -> bool {
    let (from, to, then_reset) = halt_range(h, n);
    then_reset || (from <= i && i < to)
}

/// The children `news` are the children `olds` after the halt `h`: each child it
/// names is halted, once, the others are kept as they were.
pub open spec fn children_halted(olds: Seq<Behavior>, news: Seq<Behavior>, h: Halt) -> bool
    decreases olds, 1int,
{
    &&& news.len() == olds.len()
    &&& forall|i: int|
        0 <= i < olds.len() ==> if halts_child(h, olds.len() as int, i) {
            tree_halted(#[trigger] olds[i], news[i])
        } else {
            news[i] == olds[i]
        }
}

/// The tree `new` is the tree `old` halted: the node has halted itself and is
/// idle, the rest of its data is kept, and its children are halted as the node
/// says.
pub open spec fn tree_halted(old: Behavior, new: Behavior) -> bool
    decreases old, 0int,
{
    &&& new.data.status == BehaviorStatus::Idle
    &&& node_halted(old.context, new.context)
    &&& new.data.name == old.data.name
    &&& new.data.type_str == old.data.type_str
    &&& new.data.bhvr_type == old.data.bhvr_type
    &&& new.data.bhvr_category == old.data.bhvr_category
    &&& new.data.config == old.data.config
    &&& children_halted(old.data.children@, new.data.children@, node_halt(old.context))
}

/// Halt a behavior and, as its node says, its children, recursively; every
/// behavior halted is idle afterwards.
pub fn halt_tree(b: &mut Behavior)
    ensures
        tree_halted(*old(b), *final(b)),
    decreases *old(b), 0int,
{
    let h = halt_node(&mut b.context);
    let mut children: Vec<Behavior> = Vec::new();
    std::mem::swap(&mut children, &mut b.data.children);
    proof {
        assert(decreases_to!(*old(b) => old(b).data));
        assert(decreases_to!(old(b).data => old(b).data.children));
    }
    halt_children(&mut children, h);
    b.data.children = children;
    b.data.status = BehaviorStatus::Idle;
}

/// Halt the children that the halt `h` names, each once.
pub fn halt_children(children: &mut Vec<Behavior>, h: Halt)
    ensures
        children_halted(old(children)@, final(children)@, h),
    decreases *old(children), 1int,
{
    let ghost olds = children@;
    let n = children.len();
    let (from, to, then_reset) = h.range(n);
    let mut rest: Vec<Behavior> = Vec::new();
    std::mem::swap(&mut rest, children);
    let mut i: usize = 0;
    while i < n
        invariant
            olds == old(children)@,
            n == olds.len(),
            i <= n,
            children@.len() == i,
            rest@ == olds.skip(i as int),
            (from as int, to as int, then_reset) == halt_range(h, n as int),
            forall|j: int|
                0 <= j < i ==> if halts_child(h, n as int, j) {
                    tree_halted(olds[j], #[trigger] children@[j])
                } else {
                    children@[j] == olds[j]
                },
        decreases n - i,
    {
        assert(rest@[0] == olds[i as int]);
        let mut c = rest.remove(0);
        assert(rest@ =~= olds.skip(i + 1));
        if then_reset || (from <= i && i < to) {
            proof {
                assert(decreases_to!(*old(children) => old(children)@));
                assert(decreases_to!(old(children)@ => old(children)@[i as int]));
                assert(decreases_to!(*old(children) => c));
            }
            halt_tree(&mut c);
        }
        children.push(c);
        i = i + 1;
    }
}

} // verus!
