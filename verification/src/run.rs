//! Whole ticks of the built-in nodes: what a node finishes a tick with when its
//! children return given statuses, and the laws that the documentation of each
//! node promises.

use vstd::prelude::*;
use crate::status::BehaviorStatus;
use crate::step::{go, go_after, Halt, Next, Step};
use crate::control::sequence::{SequenceState, sequence_next, sequence_resume, sequence_tick};
use crate::control::fallback::{FallbackState, fallback_next, fallback_resume, fallback_tick};
use crate::control::if_then_else::{IfThenElseState, ite_tick};
use crate::control::sequence_with_memory::{
    SequenceWithMemoryState,
    swm_next,
    swm_resume,
    swm_tick,
};

verus! {

/// The status is success or skipped.
pub open spec fn passes(s: BehaviorStatus) -> bool {
    s == BehaviorStatus::Success || s == BehaviorStatus::Skipped
}

/// The status is failure or skipped.
pub open spec fn fails(s: BehaviorStatus) -> bool {
    s == BehaviorStatus::Failure || s == BehaviorStatus::Skipped
}

/// A node continuing a tick after step `r`, where `resume` is its reaction to a
/// child's status: each status in `statuses` is returned by the next child the
/// node asks for, until the node stops asking.
pub open spec fn run<S>(
    resume: spec_fn(S, BehaviorStatus) -> (S, Step),
    s: S,
    r: Step,
    statuses: Seq<BehaviorStatus>,
) -> (S, Step)
    decreases statuses.len(),
{
    if statuses.len() == 0 {
        (s, r)
    } else {
        match r.next {
            Next::TickChild(_) => {
                let (s2, r2) = resume(s, statuses[0]);
                run(resume, s2, r2, statuses.drop_first())
            },
            _ => (s, r),
        }
    }
}

/// The reaction of a sequence, as a function value.
pub open spec fn sequence_machine() -> spec_fn(SequenceState, BehaviorStatus) -> (SequenceState, Step) {
    |s: SequenceState, c: BehaviorStatus| sequence_resume(s, c)
}

/// The reaction of a fallback, as a function value.
pub open spec fn fallback_machine() -> spec_fn(FallbackState, BehaviorStatus) -> (FallbackState, Step) {
    |s: FallbackState, c: BehaviorStatus| fallback_resume(s, c)
}

/// The reaction of a sequence with memory, as a function value.
pub open spec fn swm_machine() -> spec_fn(SequenceWithMemoryState, BehaviorStatus) -> (
    SequenceWithMemoryState,
    Step,
) {
    |s: SequenceWithMemoryState, c: BehaviorStatus| swm_resume(s, c)
}

// ---------------------------------------------------------------- sequence

proof fn lemma_sequence_passes(s: SequenceState, rest: Seq<BehaviorStatus>)
    requires
        s.child_idx + rest.len() == s.children_count,
        forall|i: int| 0 <= i < rest.len() ==> passes(#[trigger] rest[i]),
    ensures
        ({
            let (s1, r1) = sequence_next(s);
            let (s2, r2) = run(sequence_machine(), s1, r1, rest);
            s2.child_idx == 0 && r2 == go_after(Halt::ResetAll, Next::Finish(BehaviorStatus::Success))
        }),
    decreases rest.len(),
{
    if rest.len() > 0 {
        let (s1, r1) = sequence_next(s);
        assert(passes(rest[0]));
        let s1b = SequenceState { all_skipped: s1.all_skipped && rest[0] == BehaviorStatus::Skipped, ..s1 };
        let s3 = SequenceState { child_idx: (s1b.child_idx + 1) as usize, ..s1b };
        assert(sequence_resume(s1, rest[0]) == sequence_next(s3));
        assert forall|i: int| 0 <= i < rest.drop_first().len() implies passes(#[trigger] rest.drop_first()[i]) by {
            assert(passes(rest[i + 1]));
        }
        lemma_sequence_passes(s3, rest.drop_first());
    }
}

proof fn lemma_sequence_stops(s: SequenceState, rest: Seq<BehaviorStatus>, k: int)
    requires
        s.child_idx + rest.len() == s.children_count,
        0 <= k < rest.len(),
        forall|i: int| 0 <= i < k ==> passes(#[trigger] rest[i]),
        rest[k] == BehaviorStatus::Failure || rest[k] == BehaviorStatus::Running,
    ensures
        ({
            let (s1, r1) = sequence_next(s);
            let (s2, r2) = run(sequence_machine(), s1, r1, rest);
            if rest[k] == BehaviorStatus::Failure {
                s2.child_idx == 0 && r2 == go_after(Halt::ResetAll, Next::Finish(BehaviorStatus::Failure))
            } else {
                s2.child_idx == s.child_idx + k && r2 == go(Next::Finish(BehaviorStatus::Running))
            }
        }),
    decreases k,
{
    let (s1, r1) = sequence_next(s);
    if k > 0 {
        assert(passes(rest[0]));
        let s1b = SequenceState { all_skipped: s1.all_skipped && rest[0] == BehaviorStatus::Skipped, ..s1 };
        let s3 = SequenceState { child_idx: (s1b.child_idx + 1) as usize, ..s1b };
        assert(sequence_resume(s1, rest[0]) == sequence_next(s3));
        assert forall|i: int| 0 <= i < k - 1 implies passes(#[trigger] rest.drop_first()[i]) by {
            assert(passes(rest[i + 1]));
        }
        lemma_sequence_stops(s3, rest.drop_first(), k - 1);
    } else {
        let (s2, r2) = sequence_resume(s1, rest[0]);
        assert(run(sequence_machine(), s2, r2, rest.drop_first()) == (s2, r2));
    }
}

/// A sequence whose children all return success (or are skipped) in one tick,
/// started with the first child, finishes the tick with success, resets its
/// children and starts the next tick with the first child again.
pub proof fn law_sequence_all_succeed(s: SequenceState, status: BehaviorStatus, statuses: Seq<BehaviorStatus>)
    requires
        s.child_idx == 0,
        statuses.len() <= usize::MAX,
        forall|i: int| 0 <= i < statuses.len() ==> passes(#[trigger] statuses[i]),
    ensures
        ({
            let (s1, st, r1) = sequence_tick(s, status, statuses.len() as usize);
            let (s2, r2) = run(sequence_machine(), s1, r1, statuses);
            &&& st == BehaviorStatus::Running
            &&& s2.child_idx == 0
            &&& r2 == go_after(Halt::ResetAll, Next::Finish(BehaviorStatus::Success))
        }),
{
    let s1 = SequenceState {
        all_skipped: if status == BehaviorStatus::Idle { true } else { s.all_skipped },
        children_count: statuses.len() as usize,
        ..s
    };
    lemma_sequence_passes(s1, statuses);
}

/// A sequence whose child `k` returns failure, after the children before it
/// returned success (or were skipped), stops there: it finishes the tick with
/// failure, resets its children and starts the next tick with the first child;
/// children after `k` are not ticked.
pub proof fn law_sequence_failure_stops(
    s: SequenceState,
    status: BehaviorStatus,
    statuses: Seq<BehaviorStatus>,
    k: int,
)
    requires
        s.child_idx == 0,
        statuses.len() <= usize::MAX,
        0 <= k < statuses.len(),
        forall|i: int| 0 <= i < k ==> passes(#[trigger] statuses[i]),
        statuses[k] == BehaviorStatus::Failure,
    ensures
        ({
            let (s1, st, r1) = sequence_tick(s, status, statuses.len() as usize);
            let (s2, r2) = run(sequence_machine(), s1, r1, statuses);
            &&& s2.child_idx == 0
            &&& r2 == go_after(Halt::ResetAll, Next::Finish(BehaviorStatus::Failure))
        }),
{
    let s1 = SequenceState {
        all_skipped: if status == BehaviorStatus::Idle { true } else { s.all_skipped },
        children_count: statuses.len() as usize,
        ..s
    };
    lemma_sequence_stops(s1, statuses, k);
}

/// A sequence whose child `k` returns running, after the children before it
/// returned success (or were skipped), returns running and continues with child
/// `k` in the next tick: children before it are not ticked again.
pub proof fn law_sequence_running_resumes(
    s: SequenceState,
    status: BehaviorStatus,
    statuses: Seq<BehaviorStatus>,
    k: int,
)
    requires
        s.child_idx == 0,
        statuses.len() <= usize::MAX,
        0 <= k < statuses.len(),
        forall|i: int| 0 <= i < k ==> passes(#[trigger] statuses[i]),
        statuses[k] == BehaviorStatus::Running,
    ensures
        ({
            let (s1, st, r1) = sequence_tick(s, status, statuses.len() as usize);
            let (s2, r2) = run(sequence_machine(), s1, r1, statuses);
            let (s3, st3, r3) = sequence_tick(s2, BehaviorStatus::Running, statuses.len() as usize);
            &&& r2 == go(Next::Finish(BehaviorStatus::Running))
            &&& s2.child_idx == k
            &&& r3 == go(Next::TickChild(k as usize))
        }),
{
    let s1 = SequenceState {
        all_skipped: if status == BehaviorStatus::Idle { true } else { s.all_skipped },
        children_count: statuses.len() as usize,
        ..s
    };
    lemma_sequence_stops(s1, statuses, k);
}

// ---------------------------------------------------------------- fallback

proof fn lemma_fallback_fails(s: FallbackState, rest: Seq<BehaviorStatus>)
    requires
        s.child_idx + rest.len() == s.children_count,
        forall|i: int| 0 <= i < rest.len() ==> #[trigger] rest[i] == BehaviorStatus::Failure,
        rest.len() > 0 || !s.all_skipped,
    ensures
        ({
            let (s1, r1) = fallback_next(s);
            let (s2, r2) = run(fallback_machine(), s1, r1, rest);
            s2.child_idx == 0 && r2 == go_after(Halt::ResetAll, Next::Finish(BehaviorStatus::Failure))
        }),
    decreases rest.len(),
{
    if rest.len() > 0 {
        let (s1, r1) = fallback_next(s);
        assert(rest[0] == BehaviorStatus::Failure);
        let s3 = FallbackState { all_skipped: false, child_idx: (s1.child_idx + 1) as usize, ..s1 };
        assert(fallback_resume(s1, rest[0]) == fallback_next(s3));
        assert forall|i: int| 0 <= i < rest.drop_first().len() implies #[trigger] rest.drop_first()[i]
            == BehaviorStatus::Failure by {
            assert(rest[i + 1] == BehaviorStatus::Failure);
        }
        lemma_fallback_fails(s3, rest.drop_first());
    }
}

proof fn lemma_fallback_stops(s: FallbackState, rest: Seq<BehaviorStatus>, k: int)
    requires
        s.child_idx + rest.len() == s.children_count,
        0 <= k < rest.len(),
        forall|i: int| 0 <= i < k ==> fails(#[trigger] rest[i]),
        rest[k] == BehaviorStatus::Success || rest[k] == BehaviorStatus::Running,
    ensures
        ({
            let (s1, r1) = fallback_next(s);
            let (s2, r2) = run(fallback_machine(), s1, r1, rest);
            if rest[k] == BehaviorStatus::Success {
                s2.child_idx == 0 && r2 == go_after(Halt::ResetAll, Next::Finish(BehaviorStatus::Success))
            } else {
                s2.child_idx == s.child_idx + k && r2 == go(Next::Finish(BehaviorStatus::Running))
            }
        }),
    decreases k,
{
    let (s1, r1) = fallback_next(s);
    if k > 0 {
        assert(fails(rest[0]));
        let s1b = FallbackState { all_skipped: s1.all_skipped && rest[0] == BehaviorStatus::Skipped, ..s1 };
        let s3 = FallbackState { child_idx: (s1b.child_idx + 1) as usize, ..s1b };
        assert(fallback_resume(s1, rest[0]) == fallback_next(s3));
        assert forall|i: int| 0 <= i < k - 1 implies fails(#[trigger] rest.drop_first()[i]) by {
            assert(fails(rest[i + 1]));
        }
        lemma_fallback_stops(s3, rest.drop_first(), k - 1);
    } else {
        let (s2, r2) = fallback_resume(s1, rest[0]);
        assert(run(fallback_machine(), s2, r2, rest.drop_first()) == (s2, r2));
    }
}

/// A fallback with at least one child, all of which return failure in one tick
/// started with the first child, finishes the tick with failure, resets its
/// children and starts the next tick with the first child again.
pub proof fn law_fallback_all_fail(s: FallbackState, status: BehaviorStatus, statuses: Seq<BehaviorStatus>)
    requires
        s.child_idx == 0,
        0 < statuses.len() <= usize::MAX,
        forall|i: int| 0 <= i < statuses.len() ==> #[trigger] statuses[i] == BehaviorStatus::Failure,
    ensures
        ({
            let (s1, st, r1) = fallback_tick(s, status, statuses.len() as usize);
            let (s2, r2) = run(fallback_machine(), s1, r1, statuses);
            &&& st == BehaviorStatus::Running
            &&& s2.child_idx == 0
            &&& r2 == go_after(Halt::ResetAll, Next::Finish(BehaviorStatus::Failure))
        }),
{
    let s1 = FallbackState {
        all_skipped: if status == BehaviorStatus::Idle { true } else { s.all_skipped },
        children_count: statuses.len() as usize,
        ..s
    };
    lemma_fallback_fails(s1, statuses);
}

proof fn lemma_fallback_none_succeeds(s: FallbackState, rest: Seq<BehaviorStatus>)
    requires
        s.child_idx + rest.len() == s.children_count,
        forall|i: int| 0 <= i < rest.len() ==> fails(#[trigger] rest[i]),
    ensures
        ({
            let (s1, r1) = fallback_next(s);
            let (s2, r2) = run(fallback_machine(), s1, r1, rest);
            let all = s.all_skipped && forall|i: int| 0 <= i < rest.len() ==> #[trigger] rest[i]
                == BehaviorStatus::Skipped;
            s2.child_idx == 0 && r2 == go_after(
                Halt::ResetAll,
                Next::Finish(if all { BehaviorStatus::Skipped } else { BehaviorStatus::Failure }),
            )
        }),
    decreases rest.len(),
{
    if rest.len() > 0 {
        let (s1, r1) = fallback_next(s);
        assert(fails(rest[0]));
        let s3 = FallbackState {
            all_skipped: s1.all_skipped && rest[0] == BehaviorStatus::Skipped,
            child_idx: (s1.child_idx + 1) as usize,
            ..s1
        };
        assert(fallback_resume(s1, rest[0]) == fallback_next(s3));
        let tail = rest.drop_first();
        assert forall|i: int| 0 <= i < tail.len() implies fails(#[trigger] tail[i]) by {
            assert(fails(rest[i + 1]));
        }
        lemma_fallback_none_succeeds(s3, tail);
        if s.all_skipped && forall|i: int| 0 <= i < rest.len() ==> #[trigger] rest[i] == BehaviorStatus::Skipped {
            assert forall|i: int| 0 <= i < tail.len() implies #[trigger] tail[i] == BehaviorStatus::Skipped by {
                assert(rest[i + 1] == BehaviorStatus::Skipped);
            }
        }
        if s3.all_skipped && forall|i: int| 0 <= i < tail.len() ==> #[trigger] tail[i] == BehaviorStatus::Skipped {
            assert forall|i: int| 0 <= i < rest.len() implies #[trigger] rest[i] == BehaviorStatus::Skipped by {
                if i > 0 {
                    assert(rest[i] == tail[i - 1]);
                }
            }
        }
    }
}

/// A fallback none of whose children succeeds or runs in a tick started with
/// its first child (each fails or is skipped) finishes the tick with skipped
/// when the node was idle and all were skipped, else with failure; it resets its
/// children and starts the next tick with the first child again.
pub proof fn law_fallback_none_succeeds(s: FallbackState, status: BehaviorStatus, statuses: Seq<BehaviorStatus>)
    requires
        s.child_idx == 0,
        statuses.len() <= usize::MAX,
        forall|i: int| 0 <= i < statuses.len() ==> fails(#[trigger] statuses[i]),
    ensures
        ({
            let (s1, st, r1) = fallback_tick(s, status, statuses.len() as usize);
            let (s2, r2) = run(fallback_machine(), s1, r1, statuses);
            let all = (status == BehaviorStatus::Idle || s.all_skipped) && forall|i: int|
                0 <= i < statuses.len() ==> #[trigger] statuses[i] == BehaviorStatus::Skipped;
            &&& s2.child_idx == 0
            &&& r2 == go_after(
                Halt::ResetAll,
                Next::Finish(if all { BehaviorStatus::Skipped } else { BehaviorStatus::Failure }),
            )
        }),
{
    let s1 = FallbackState {
        all_skipped: if status == BehaviorStatus::Idle { true } else { s.all_skipped },
        children_count: statuses.len() as usize,
        ..s
    };
    lemma_fallback_none_succeeds(s1, statuses);
}

/// A fallback whose child `k` returns success, after the children before it
/// failed (or were skipped), stops there: it finishes the tick with success,
/// resets its children and starts the next tick with the first child; children
/// after `k` are not ticked.
pub proof fn law_fallback_success_stops(
    s: FallbackState,
    status: BehaviorStatus,
    statuses: Seq<BehaviorStatus>,
    k: int,
)
    requires
        s.child_idx == 0,
        statuses.len() <= usize::MAX,
        0 <= k < statuses.len(),
        forall|i: int| 0 <= i < k ==> fails(#[trigger] statuses[i]),
        statuses[k] == BehaviorStatus::Success,
    ensures
        ({
            let (s1, st, r1) = fallback_tick(s, status, statuses.len() as usize);
            let (s2, r2) = run(fallback_machine(), s1, r1, statuses);
            &&& s2.child_idx == 0
            &&& r2 == go_after(Halt::ResetAll, Next::Finish(BehaviorStatus::Success))
        }),
{
    let s1 = FallbackState {
        all_skipped: if status == BehaviorStatus::Idle { true } else { s.all_skipped },
        children_count: statuses.len() as usize,
        ..s
    };
    lemma_fallback_stops(s1, statuses, k);
}

/// A fallback whose child `k` returns running, after the children before it
/// failed (or were skipped), returns running and continues with child `k` in the
/// next tick: children before it are not ticked again.
pub proof fn law_fallback_running_resumes(
    s: FallbackState,
    status: BehaviorStatus,
    statuses: Seq<BehaviorStatus>,
    k: int,
)
    requires
        s.child_idx == 0,
        statuses.len() <= usize::MAX,
        0 <= k < statuses.len(),
        forall|i: int| 0 <= i < k ==> fails(#[trigger] statuses[i]),
        statuses[k] == BehaviorStatus::Running,
    ensures
        ({
            let (s1, st, r1) = fallback_tick(s, status, statuses.len() as usize);
            let (s2, r2) = run(fallback_machine(), s1, r1, statuses);
            let (s3, st3, r3) = fallback_tick(s2, BehaviorStatus::Running, statuses.len() as usize);
            &&& r2 == go(Next::Finish(BehaviorStatus::Running))
            &&& s2.child_idx == k
            &&& r3 == go(Next::TickChild(k as usize))
        }),
{
    let s1 = FallbackState {
        all_skipped: if status == BehaviorStatus::Idle { true } else { s.all_skipped },
        children_count: statuses.len() as usize,
        ..s
    };
    lemma_fallback_stops(s1, statuses, k);
}

// ---------------------------------------------------------------- sequence with memory

proof fn lemma_swm_succeeds(s: SequenceWithMemoryState, rest: Seq<BehaviorStatus>)
    requires
        s.child_idx + rest.len() == s.children_count,
        forall|i: int| 0 <= i < rest.len() ==> #[trigger] rest[i] == BehaviorStatus::Success,
        rest.len() > 0 || !s.all_skipped,
    ensures
        ({
            let (s1, r1) = swm_next(s);
            let (s2, r2) = run(swm_machine(), s1, r1, rest);
            s2.child_idx == 0 && r2 == go_after(Halt::ResetAll, Next::Finish(BehaviorStatus::Success))
        }),
    decreases rest.len(),
{
    if rest.len() > 0 {
        let (s1, r1) = swm_next(s);
        assert(rest[0] == BehaviorStatus::Success);
        let s3 = SequenceWithMemoryState {
            all_skipped: false,
            child_idx: (s1.child_idx + 1) as usize,
            ..s1
        };
        assert(swm_resume(s1, rest[0]) == swm_next(s3));
        assert forall|i: int| 0 <= i < rest.drop_first().len() implies #[trigger] rest.drop_first()[i]
            == BehaviorStatus::Success by {
            assert(rest[i + 1] == BehaviorStatus::Success);
        }
        lemma_swm_succeeds(s3, rest.drop_first());
    }
}

proof fn lemma_swm_stops(s: SequenceWithMemoryState, rest: Seq<BehaviorStatus>, k: int)
    requires
        s.child_idx + rest.len() == s.children_count,
        0 <= k < rest.len(),
        forall|i: int| 0 <= i < k ==> passes(#[trigger] rest[i]),
        rest[k] == BehaviorStatus::Failure,
    ensures
        ({
            let (s1, r1) = swm_next(s);
            let (s2, r2) = run(swm_machine(), s1, r1, rest);
            s2.child_idx == s.child_idx + k && s2.children_count == s.children_count && r2
                == go_after(
                Halt::HaltFrom((s.child_idx + k) as usize),
                Next::Finish(BehaviorStatus::Failure),
            )
        }),
    decreases k,
{
    let (s1, r1) = swm_next(s);
    if k > 0 {
        assert(passes(rest[0]));
        let s1b = SequenceWithMemoryState {
            all_skipped: s1.all_skipped && rest[0] == BehaviorStatus::Skipped,
            ..s1
        };
        let s3 = SequenceWithMemoryState { child_idx: (s1b.child_idx + 1) as usize, ..s1b };
        assert(swm_resume(s1, rest[0]) == swm_next(s3));
        assert forall|i: int| 0 <= i < k - 1 implies passes(#[trigger] rest.drop_first()[i]) by {
            assert(passes(rest[i + 1]));
        }
        lemma_swm_stops(s3, rest.drop_first(), k - 1);
    } else {
        let (s2, r2) = swm_resume(s1, rest[0]);
        assert(run(swm_machine(), s2, r2, rest.drop_first()) == (s2, r2));
    }
}

/// A sequence with memory with at least one child, all of which return success in
/// one tick started with the first child, finishes the tick with success, resets
/// its children and starts the next tick with the first child again.
pub proof fn law_swm_all_succeed(
    s: SequenceWithMemoryState,
    status: BehaviorStatus,
    statuses: Seq<BehaviorStatus>,
)
    requires
        s.child_idx == 0,
        0 < statuses.len() <= usize::MAX,
        forall|i: int| 0 <= i < statuses.len() ==> #[trigger] statuses[i] == BehaviorStatus::Success,
    ensures
        ({
            let (s1, st, r1) = swm_tick(s, status, statuses.len() as usize);
            let (s2, r2) = run(swm_machine(), s1, r1, statuses);
            &&& st == BehaviorStatus::Running
            &&& s2.child_idx == 0
            &&& r2 == go_after(Halt::ResetAll, Next::Finish(BehaviorStatus::Success))
        }),
{
    let s1 = SequenceWithMemoryState {
        all_skipped: if status == BehaviorStatus::Idle { true } else { s.all_skipped },
        children_count: statuses.len() as usize,
        ..s
    };
    lemma_swm_succeeds(s1, statuses);
}

/// A sequence with memory whose child `k` returns failure, after the children
/// before it returned success (or were skipped), finishes the tick with failure
/// and halts the children from `k` on; the loop is not restarted: the next tick
/// ticks child `k` again, not the children before it.
pub proof fn law_swm_failure_keeps_place(
    s: SequenceWithMemoryState,
    status: BehaviorStatus,
    statuses: Seq<BehaviorStatus>,
    k: int,
)
    requires
        s.child_idx == 0,
        statuses.len() <= usize::MAX,
        0 <= k < statuses.len(),
        forall|i: int| 0 <= i < k ==> passes(#[trigger] statuses[i]),
        statuses[k] == BehaviorStatus::Failure,
    ensures
        ({
            let (s1, st, r1) = swm_tick(s, status, statuses.len() as usize);
            let (s2, r2) = run(swm_machine(), s1, r1, statuses);
            let (s3, st3, r3) = swm_tick(s2, BehaviorStatus::Failure, statuses.len() as usize);
            &&& r2 == go_after(Halt::HaltFrom(k as usize), Next::Finish(BehaviorStatus::Failure))
            &&& r3 == go(Next::TickChild(k as usize))
        }),
{
    let s1 = SequenceWithMemoryState {
        all_skipped: if status == BehaviorStatus::Idle { true } else { s.all_skipped },
        children_count: statuses.len() as usize,
        ..s
    };
    lemma_swm_stops(s1, statuses, k);
}

// ---------------------------------------------------------------- halting

/// After a halt, a sequence, a fallback, a sequence with memory and an
/// if-then-else node start their next tick with the first child again.
pub proof fn law_halt_restarts(
    sq: SequenceState,
    fb: FallbackState,
    sm: SequenceWithMemoryState,
    it: IfThenElseState,
    status: BehaviorStatus,
    n: usize,
)
    requires
        n > 0,
    ensures
        sequence_tick(SequenceState { child_idx: 0, ..sq }, status, n).2 == go(Next::TickChild(0)),
        fallback_tick(FallbackState { child_idx: 0, ..fb }, status, n).2 == go(Next::TickChild(0)),
        swm_tick(SequenceWithMemoryState { child_idx: 0, ..sm }, status, n).2 == go(
            Next::TickChild(0),
        ),
        2 <= n <= 3 ==> ite_tick(IfThenElseState { child_idx: 0, ..it }, status, n).2 == go(
            Next::TickChild(0),
        ),
{
}

/// One step of a sequence: a running child ends the tick with running, keeping
/// the place; a failed child ends it with failure, resets the children and
/// starts again from the first; a child that succeeded or was skipped lets the
/// node tick the next child, or, after the last, finish with success (skipped
/// when all were skipped) and start again from the first.
pub proof fn law_sequence_step(s: SequenceState, child: BehaviorStatus)
    requires
        s.child_idx < s.children_count,
    ensures
        child == BehaviorStatus::Running ==> sequence_resume(s, child).1 == go(Next::Finish(BehaviorStatus::Running))
            && sequence_resume(s, child).0.child_idx == s.child_idx,
        child == BehaviorStatus::Failure ==> sequence_resume(s, child).1 == go_after(
            Halt::ResetAll,
            Next::Finish(BehaviorStatus::Failure),
        ) && sequence_resume(s, child).0.child_idx == 0,
        (child == BehaviorStatus::Success || child == BehaviorStatus::Skipped) && s.child_idx + 1 < s.children_count
            ==> sequence_resume(s, child).1 == go(Next::TickChild((s.child_idx + 1) as usize)),
        (child == BehaviorStatus::Success || child == BehaviorStatus::Skipped) && s.child_idx + 1 == s.children_count
            ==> sequence_resume(s, child).0.child_idx == 0 && sequence_resume(s, child).1.halt == Halt::ResetAll
            && (sequence_resume(s, child).1.next == Next::Finish(BehaviorStatus::Success)
            || sequence_resume(s, child).1.next == Next::Finish(BehaviorStatus::Skipped)),
        child == BehaviorStatus::Idle ==> sequence_resume(s, child).1.next is Fail,
{
}

/// One step of a fallback: a running child ends the tick with running, keeping
/// the place; a child that succeeded ends it with success, resets the children
/// and starts again from the first; a failed or skipped child lets the node tick
/// the next child, or, after the last, finish with failure (skipped when all
/// were skipped) and start again from the first.
pub proof fn law_fallback_step(s: FallbackState, child: BehaviorStatus)
    requires
        s.child_idx < s.children_count,
    ensures
        child == BehaviorStatus::Running ==> fallback_resume(s, child).1 == go(Next::Finish(BehaviorStatus::Running))
            && fallback_resume(s, child).0.child_idx == s.child_idx,
        child == BehaviorStatus::Success ==> fallback_resume(s, child).1 == go_after(
            Halt::ResetAll,
            Next::Finish(BehaviorStatus::Success),
        ) && fallback_resume(s, child).0.child_idx == 0,
        (child == BehaviorStatus::Failure || child == BehaviorStatus::Skipped) && s.child_idx + 1 < s.children_count
            ==> fallback_resume(s, child).1 == go(Next::TickChild((s.child_idx + 1) as usize)),
        (child == BehaviorStatus::Failure || child == BehaviorStatus::Skipped) && s.child_idx + 1 == s.children_count
            ==> fallback_resume(s, child).0.child_idx == 0 && fallback_resume(s, child).1.halt == Halt::ResetAll
            && (fallback_resume(s, child).1.next == Next::Finish(BehaviorStatus::Failure)
            || fallback_resume(s, child).1.next == Next::Finish(BehaviorStatus::Skipped)),
        child == BehaviorStatus::Idle ==> fallback_resume(s, child).1.next is Fail,
{
}

} // verus!
