//! Laws of the parallel nodes over whole ticks.

use vstd::prelude::*;
use crate::status::{BehaviorStatus, spec_is_completed};
use crate::step::{go, go_after, Fault, Halt, Next, Reporter, Step};
use crate::run::run;
use crate::control::parallel::{ParallelState, par_resume, par_tick, threshold};
use crate::control::parallel_all::{ParallelAllState, pa_end, pa_resume, pa_tick};

verus! {

/// Thresholds count like indexes in Python: -1 stands for the number of
/// children, -2 for one less, and so on, never below 0; a threshold that is not
/// negative counts as given.
pub proof fn law_threshold(t: i32, n: int)
    requires
        n >= 0,
    ensures
        threshold(-1i32, n) == n,
        t >= 0 ==> threshold(t, n) == t,
        t < 0 && -t <= n + 1 ==> threshold(t, n) == n + 1 + t,
        t < 0 && -t > n + 1 ==> threshold(t, n) == 0,
{
}

/// The number of failures among the statuses.
pub open spec fn failures(st: Seq<BehaviorStatus>) -> nat
    decreases st.len(),
{
    if st.len() == 0 {
        0
    } else {
        (if st[0] == BehaviorStatus::Failure { 1nat } else { 0nat }) + failures(st.drop_first())
    }
}

/// The reaction of a parallel-all node, as a function value.
pub open spec fn pa_machine() -> spec_fn(ParallelAllState, BehaviorStatus) -> (ParallelAllState, Step) {
    |s: ParallelAllState, c: BehaviorStatus| pa_resume(s, c)
}

/// The reaction of a parallel node, as a function value.
pub open spec fn par_machine() -> spec_fn(ParallelState, BehaviorStatus) -> (ParallelState, Step) {
    |s: ParallelState, c: BehaviorStatus| par_resume(s, c)
}

proof fn lemma_pa(s: ParallelAllState, r: Step, rest: Seq<BehaviorStatus>)
    requires
        r.next == Next::TickChild(s.index),
        s.index + rest.len() == s.children_count <= i32::MAX,
        rest.len() >= 1,
        s.skipped_count == 0,
        s.failure_count <= s.index,
        s.completed.finite(),
        s.completed.len() == s.index,
        forall|j: usize| s.completed.contains(j) ==> j < s.index,
        forall|i: int| 0 <= i < rest.len() ==> spec_is_completed(#[trigger] rest[i]),
    ensures
        ({
            let (s2, r2) = run(pa_machine(), s, r, rest);
            &&& r2 == go_after(
                Halt::ResetAll,
                Next::Finish(
                    if s.failure_count + failures(rest) >= threshold(
                        s.failure_threshold,
                        s.children_count as int,
                    ) {
                        BehaviorStatus::Failure
                    } else {
                        BehaviorStatus::Success
                    },
                ),
            )
            &&& s2.completed == Set::<usize>::empty()
            &&& s2.failure_count == 0
        }),
    decreases rest.len(),
{
    assert(spec_is_completed(rest[0]));
    let c = rest[0];
    let s1 = if c == BehaviorStatus::Failure {
        ParallelAllState {
            completed: s.completed.insert(s.index),
            failure_count: (s.failure_count + 1) as usize,
            ..s
        }
    } else {
        ParallelAllState { completed: s.completed.insert(s.index), ..s }
    };
    let s3 = ParallelAllState { index: (s1.index + 1) as usize, ..s1 };
    assert(!s.completed.contains(s.index));
    assert(s1.completed.len() == s.index + 1);
    let (s2, r2) = pa_resume(s, c);
    if rest.len() == 1 {
        assert(rest.drop_first().len() == 0);
        assert(failures(rest.drop_first()) == 0);
        assert(run(pa_machine(), s2, r2, rest.drop_first()) == (s2, r2));
    } else {
        assert(!s3.completed.contains(s3.index));
        assert forall|i: int| 0 <= i < rest.drop_first().len() implies spec_is_completed(
            #[trigger] rest.drop_first()[i],
        ) by {
            assert(spec_is_completed(rest[i + 1]));
        }
        lemma_pa(s3, r2, rest.drop_first());
    }
}

/// A parallel-all node whose children all complete in one tick, started with no
/// child completed, finishes the tick with failure when at least as many children
/// failed as the failure threshold says, else with success; it resets its
/// children and forgets which children completed.
pub proof fn law_parallel_all_completes(
    s: ParallelAllState,
    max_failures: i32,
    statuses: Seq<BehaviorStatus>,
)
    requires
        s.completed == Set::<usize>::empty(),
        s.failure_count == 0,
        1 <= statuses.len() <= i32::MAX,
        (statuses.len() as i32) >= max_failures,
        forall|i: int| 0 <= i < statuses.len() ==> spec_is_completed(#[trigger] statuses[i]),
    ensures
        ({
            let (s1, r1) = pa_tick(s, max_failures, statuses.len() as usize);
            let (s2, r2) = run(pa_machine(), s1, r1, statuses);
            &&& r2 == go_after(
                Halt::ResetAll,
                Next::Finish(
                    if failures(statuses) >= threshold(max_failures, statuses.len() as int) {
                        BehaviorStatus::Failure
                    } else {
                        BehaviorStatus::Success
                    },
                ),
            )
            &&& s2.completed == Set::<usize>::empty()
            &&& s2.failure_count == 0
        }),
{
    let n = statuses.len() as usize;
    let (s1, r1) = pa_tick(s, max_failures, n);
    lemma_pa(s1, r1, statuses);
}

proof fn lemma_par_default(s: ParallelState, r: Step, rest: Seq<BehaviorStatus>, k: int)
    requires
        r.next == Next::TickChild(s.index),
        s.index + rest.len() == s.children_count <= i32::MAX,
        rest.len() >= 1,
        s.success_threshold == -1,
        s.failure_threshold == 1,
        s.success_count == s.index,
        s.failure_count == 0,
        s.skipped_count == 0,
        forall|j: usize| s.completed.contains(j) ==> j < s.index,
        0 <= k <= rest.len(),
        forall|i: int| 0 <= i < k ==> #[trigger] rest[i] == BehaviorStatus::Success,
        k < rest.len() ==> rest[k] == BehaviorStatus::Failure,
    ensures
        ({
            let (s2, r2) = run(par_machine(), s, r, rest);
            r2 == go_after(
                Halt::ResetAll,
                Next::Finish(
                    if k < rest.len() { BehaviorStatus::Failure } else { BehaviorStatus::Success },
                ),
            )
        }),
    decreases rest.len(),
{
    let (s2, r2) = par_resume(s, rest[0]);
    if k == 0 && k < rest.len() {
        assert(run(par_machine(), s2, r2, rest.drop_first()) == (s2, r2));
    } else {
        assert(rest[0] == BehaviorStatus::Success);
        if rest.len() == 1 {
            assert(run(par_machine(), s2, r2, rest.drop_first()) == (s2, r2));
        } else {
            let s3 = ParallelState {
                completed: s.completed.insert(s.index),
                success_count: (s.success_count + 1) as usize,
                index: (s.index + 1) as usize,
                ..s
            };
            assert(!s3.completed.contains(s3.index));
            assert forall|i: int| 0 <= i < k - 1 implies #[trigger] rest.drop_first()[i]
                == BehaviorStatus::Success by {
                assert(rest[i + 1] == BehaviorStatus::Success);
            }
            lemma_par_default(s3, r2, rest.drop_first(), k - 1);
        }
    }
}

/// With its default thresholds (success: all children, failure: 1), a parallel
/// node with at least one child, started with no child completed, finishes a tick
/// with success when all its children succeed, and with failure as soon as one
/// fails; either way it resets its children.
pub proof fn law_parallel_defaults(s: ParallelState, statuses: Seq<BehaviorStatus>, k: int)
    requires
        s.completed == Set::<usize>::empty(),
        s.success_count == 0,
        s.failure_count == 0,
        1 <= statuses.len() <= i32::MAX,
        0 <= k <= statuses.len(),
        forall|i: int| 0 <= i < k ==> #[trigger] statuses[i] == BehaviorStatus::Success,
        k < statuses.len() ==> statuses[k] == BehaviorStatus::Failure,
    ensures
        ({
            let (s1, r1) = par_tick(s, -1i32, 1i32, statuses.len() as usize);
            let (s2, r2) = run(par_machine(), s1, r1, statuses);
            r2 == go_after(
                Halt::ResetAll,
                Next::Finish(
                    if k < statuses.len() {
                        BehaviorStatus::Failure
                    } else {
                        BehaviorStatus::Success
                    },
                ),
            )
        }),
{
    let n = statuses.len() as usize;
    let (s1, r1) = par_tick(s, -1i32, 1i32, n);
    lemma_par_default(s1, r1, statuses, k);
}

/// The number of children a threshold `t` asks for among `n`: `t` itself when
/// it is not negative, else counted back from `n + 1`, as Python indexes, and
/// never below 0.
pub open spec fn needed(t: i32, n: int) -> int {
    if t >= 0 {
        t as int
    } else if n + t + 1 < 0 {
        0
    } else {
        n + t + 1
    }
}

/// After each child a parallel node reacts to, for any thresholds: once the
/// successes reach the success threshold (with a negative threshold, successes
/// and skipped children together), the tick finishes with success, the counters
/// are cleared and the children reset; otherwise, once success can no longer be
/// reached or the failures reach the failure threshold, the tick finishes with
/// failure in the same way.
pub proof fn law_parallel_thresholds(s: ParallelState, child: BehaviorStatus)
    requires
        s.success_count < usize::MAX,
        s.failure_count < usize::MAX,
        s.skipped_count < usize::MAX,
    ensures
        ({
            let n = s.children_count as int;
            let succ = s.success_count + (if child == BehaviorStatus::Success { 1int } else { 0int });
            let fail = s.failure_count + (if child == BehaviorStatus::Failure { 1int } else { 0int });
            let skip = s.skipped_count + (if child == BehaviorStatus::Skipped { 1int } else { 0int });
            let need = needed(s.success_threshold, n);
            let reached = succ >= need || (s.success_threshold < 0 && succ + skip >= need);
            let (s2, r2) = par_resume(s, child);
            &&& reached ==> r2 == go_after(Halt::ResetAll, Next::Finish(BehaviorStatus::Success))
                && s2.success_count == 0 && s2.failure_count == 0 && s2.completed == Set::<usize>::empty()
            &&& (!reached && (n - fail < need || fail == needed(s.failure_threshold, n))) ==> r2 == go_after(
                Halt::ResetAll,
                Next::Finish(BehaviorStatus::Failure),
            ) && s2.success_count == 0 && s2.failure_count == 0 && s2.completed == Set::<usize>::empty()
        }),
{
}

/// Once every child of a parallel-all node has completed or been skipped, the
/// tick finishes: with skipped when all were skipped, else with failure when the
/// failures reach the failure threshold and with success otherwise, clearing the
/// counters and resetting the children. An idle child is refused.
pub proof fn law_parallel_all_end(s: ParallelAllState, child: BehaviorStatus)
    ensures
        ({
            let n = s.children_count as int;
            let (s2, r2) = pa_end(s);
            &&& s.skipped_count == n ==> r2 == go(Next::Finish(BehaviorStatus::Skipped))
            &&& (s.skipped_count != n && s.skipped_count + s.completed.len() >= n) ==> r2 == go_after(
                Halt::ResetAll,
                Next::Finish(
                    if s.failure_count >= needed(s.failure_threshold, n) {
                        BehaviorStatus::Failure
                    } else {
                        BehaviorStatus::Success
                    },
                ),
            ) && s2.failure_count == 0 && s2.completed == Set::<usize>::empty()
            &&& s.skipped_count + s.completed.len() < n ==> r2 == go(Next::Finish(BehaviorStatus::Running))
        }),
        pa_resume(s, BehaviorStatus::Idle).1 == go(Next::Fail(Fault::IdleChild(Reporter::ParallelAll))),
{
}

} // verus!
