//! Laws of the reactive control nodes and of the if-then-else and while-do-else
//! nodes, over whole ticks.

use vstd::prelude::*;
use crate::status::BehaviorStatus;
use crate::step::{go, go_after, Halt, Next, Step};
use crate::run::{run, passes, fails};
use crate::control::reactive_sequence::{ReactiveSequenceState, rs_resume, rs_tick};
use crate::control::reactive_fallback::{ReactiveFallbackState, rf_resume, rf_tick};
use crate::control::if_then_else::{IfThenElseState, ite_resume, ite_tick};
use crate::control::while_do_else::{WhileDoElseState, wde_resume, wde_tick};

verus! {

/// The reaction of a reactive sequence, as a function value.
pub open spec fn rs_machine() -> spec_fn(ReactiveSequenceState, BehaviorStatus) -> (
    ReactiveSequenceState,
    Step,
) {
    |s: ReactiveSequenceState, c: BehaviorStatus| rs_resume(s, c)
}

/// The reaction of a reactive fallback, as a function value.
pub open spec fn rf_machine() -> spec_fn(ReactiveFallbackState, BehaviorStatus) -> (
    ReactiveFallbackState,
    Step,
) {
    |s: ReactiveFallbackState, c: BehaviorStatus| rf_resume(s, c)
}

/// The reaction of an if-then-else node, as a function value.
pub open spec fn ite_machine() -> spec_fn(IfThenElseState, BehaviorStatus) -> (IfThenElseState, Step) {
    |s: IfThenElseState, c: BehaviorStatus| ite_resume(s, c)
}

/// The reaction of a while-do-else node, as a function value.
pub open spec fn wde_machine() -> spec_fn(WhileDoElseState, BehaviorStatus) -> (WhileDoElseState, Step) {
    |s: WhileDoElseState, c: BehaviorStatus| wde_resume(s, c)
}

// ---------------------------------------------------------------- reactive sequence

proof fn lemma_rs(s: ReactiveSequenceState, r: Step, rest: Seq<BehaviorStatus>, k: int)
    requires
        r.next == Next::TickChild(s.index),
        s.index + rest.len() == s.children_count,
        0 <= k <= rest.len(),
        k < rest.len() ==> rest[k] == BehaviorStatus::Failure,
        k == rest.len() ==> rest.len() > 0 && forall|i: int| 0 <= i < rest.len() ==> #[trigger] rest[i]
            == BehaviorStatus::Success,
        forall|i: int| 0 <= i < k ==> passes(#[trigger] rest[i]),
    ensures
        ({
            let (s2, r2) = run(rs_machine(), s, r, rest);
            r2 == go_after(
                Halt::ResetAll,
                Next::Finish(
                    if k < rest.len() { BehaviorStatus::Failure } else { BehaviorStatus::Success },
                ),
            )
        }),
    decreases rest.len(),
{
    let (s2, r2) = rs_resume(s, rest[0]);
    if k == 0 && k < rest.len() {
        assert(run(rs_machine(), s2, r2, rest.drop_first()) == (s2, r2));
    } else {
        assert(passes(rest[0]));
        if rest.len() == 1 {
            assert(rest[0] == BehaviorStatus::Success);
            assert(run(rs_machine(), s2, r2, rest.drop_first()) == (s2, r2));
        } else {
            assert forall|i: int| 0 <= i < k - 1 implies passes(#[trigger] rest.drop_first()[i]) by {
                assert(passes(rest[i + 1]));
            }
            if k == rest.len() {
                assert forall|i: int| 0 <= i < rest.drop_first().len() implies #[trigger] rest.drop_first()[i]
                    == BehaviorStatus::Success by {
                    assert(rest[i + 1] == BehaviorStatus::Success);
                }
                assert(!s2.all_skipped);
            }
            lemma_rs(s2, r2, rest.drop_first(), k - 1);
        }
    }
}

/// A reactive sequence with at least one child, all of which return success in a
/// tick, finishes the tick with success and resets its children.
pub proof fn law_reactive_sequence_all_succeed(s: ReactiveSequenceState, statuses: Seq<BehaviorStatus>)
    requires
        0 < statuses.len() <= usize::MAX,
        forall|i: int| 0 <= i < statuses.len() ==> #[trigger] statuses[i] == BehaviorStatus::Success,
    ensures
        ({
            let (s1, st, r1) = rs_tick(s, statuses.len() as usize);
            let (s2, r2) = run(rs_machine(), s1, r1, statuses);
            st == BehaviorStatus::Running && r2 == go_after(
                Halt::ResetAll,
                Next::Finish(BehaviorStatus::Success),
            )
        }),
{
    let (s1, st, r1) = rs_tick(s, statuses.len() as usize);
    lemma_rs(s1, r1, statuses, statuses.len() as int);
}

/// A reactive sequence whose child `k` returns failure, after the children
/// before it returned success (or were skipped), finishes the tick with failure
/// and resets its children; children after `k` are not ticked.
pub proof fn law_reactive_sequence_failure_stops(
    s: ReactiveSequenceState,
    statuses: Seq<BehaviorStatus>,
    k: int,
)
    requires
        statuses.len() <= usize::MAX,
        0 <= k < statuses.len(),
        forall|i: int| 0 <= i < k ==> passes(#[trigger] statuses[i]),
        statuses[k] == BehaviorStatus::Failure,
    ensures
        ({
            let (s1, st, r1) = rs_tick(s, statuses.len() as usize);
            let (s2, r2) = run(rs_machine(), s1, r1, statuses);
            r2 == go_after(Halt::ResetAll, Next::Finish(BehaviorStatus::Failure))
        }),
{
    let (s1, st, r1) = rs_tick(s, statuses.len() as usize);
    lemma_rs(s1, r1, statuses, k);
}

proof fn lemma_rs_running(s: ReactiveSequenceState, r: Step, rest: Seq<BehaviorStatus>, k: int)
    requires
        r.next == Next::TickChild(s.index),
        s.index + rest.len() == s.children_count,
        0 <= k < rest.len(),
        forall|i: int| 0 <= i < k ==> passes(#[trigger] rest[i]),
        rest[k] == BehaviorStatus::Running,
        s.running_child == -1 || s.running_child == s.index + k,
    ensures
        ({
            let (s2, r2) = run(rs_machine(), s, r, rest);
            r2 == go_after(Halt::HaltAfter((s.index + k) as usize), Next::Finish(BehaviorStatus::Running))
        }),
    decreases k,
{
    let (s2, r2) = rs_resume(s, rest[0]);
    if k == 0 {
        assert(run(rs_machine(), s2, r2, rest.drop_first()) == (s2, r2));
    } else {
        assert(passes(rest[0]));
        assert forall|i: int| 0 <= i < k - 1 implies passes(#[trigger] rest.drop_first()[i]) by {
            assert(passes(rest[i + 1]));
        }
        assert(rest.drop_first()[k - 1] == rest[k]);
        lemma_rs_running(s2, r2, rest.drop_first(), k - 1);
    }
}

/// A reactive sequence whose child `k` returns running, after the children
/// before it succeeded or were skipped, finishes the tick with running and halts
/// the children after `k`; children after `k` are not ticked. This holds when no
/// other child was running, or when child `k` was already the running one.
pub proof fn law_reactive_sequence_running(s: ReactiveSequenceState, statuses: Seq<BehaviorStatus>, k: int)
    requires
        statuses.len() <= usize::MAX,
        0 <= k < statuses.len(),
        forall|i: int| 0 <= i < k ==> passes(#[trigger] statuses[i]),
        statuses[k] == BehaviorStatus::Running,
        s.running_child == -1 || s.running_child == k,
    ensures
        ({
            let (s1, st, r1) = rs_tick(s, statuses.len() as usize);
            let (s2, r2) = run(rs_machine(), s1, r1, statuses);
            &&& st == BehaviorStatus::Running
            &&& r2 == go_after(Halt::HaltAfter(k as usize), Next::Finish(BehaviorStatus::Running))
        }),
{
    let (s1, st, r1) = rs_tick(s, statuses.len() as usize);
    lemma_rs_running(s1, r1, statuses, k);
}

/// One step of a reactive sequence: a running child ends the tick with running
/// (or, when another child is the running one, refuses), a failed child ends it
/// with failure and resets the children, and a child that succeeded or was
/// skipped lets the node tick the next child.
pub proof fn law_reactive_sequence_step(s: ReactiveSequenceState, child: BehaviorStatus)
    requires
        s.index + 1 < s.children_count,
    ensures
        child == BehaviorStatus::Running && (s.running_child == -1 || s.running_child == s.index as i32)
            ==> rs_resume(s, child).1 == go_after(Halt::HaltAfter(s.index), Next::Finish(BehaviorStatus::Running)),
        child == BehaviorStatus::Running && s.running_child != -1 && s.running_child != s.index as i32
            ==> rs_resume(s, child).1.next is Fail,
        child == BehaviorStatus::Failure ==> rs_resume(s, child).1 == go_after(
            Halt::ResetAll,
            Next::Finish(BehaviorStatus::Failure),
        ),
        (child == BehaviorStatus::Success || child == BehaviorStatus::Skipped) ==> rs_resume(s, child).1.next
            == Next::TickChild((s.index + 1) as usize),
{
}

// ---------------------------------------------------------------- reactive fallback

/// The child's status lets a reactive fallback go on to the next child:
/// failure, skipped or running.
pub open spec fn continues(s: BehaviorStatus) -> bool {
    s == BehaviorStatus::Failure || s == BehaviorStatus::Skipped || s == BehaviorStatus::Running
}

proof fn lemma_rf(s: ReactiveFallbackState, r: Step, rest: Seq<BehaviorStatus>, k: int)
    requires
        r.next == Next::TickChild(s.index),
        s.index + rest.len() == s.children_count,
        0 <= k <= rest.len(),
        k < rest.len() ==> rest[k] == BehaviorStatus::Success,
        forall|i: int| 0 <= i < k ==> continues(#[trigger] rest[i]),
    ensures
        ({
            let (s2, r2) = run(rf_machine(), s, r, rest);
            &&& k < rest.len() ==> r2 == go_after(Halt::ResetAll, Next::Finish(BehaviorStatus::Success))
            &&& (k == rest.len() && rest.len() > 0 && !s.running && forall|i: int|
                0 <= i < rest.len() ==> #[trigger] rest[i] == BehaviorStatus::Failure) ==> r2 == go_after(
                Halt::ResetAll,
                Next::Finish(BehaviorStatus::Failure),
            )
            &&& (k == rest.len() && rest.len() > 0 && (s.running || exists|i: int|
                0 <= i < rest.len() && #[trigger] rest[i] == BehaviorStatus::Running)) ==> r2.next == Next::Finish(
                BehaviorStatus::Running,
            )
        }),
    decreases rest.len(),
{
    if rest.len() == 0 {
    } else if k == 0 {
        let (s2, r2) = rf_resume(s, rest[0]);
        assert(run(rf_machine(), s2, r2, rest.drop_first()) == (s2, r2));
    } else {
        let (s2, r2) = rf_resume(s, rest[0]);
        assert(continues(rest[0]));
        if rest.len() == 1 {
            assert(run(rf_machine(), s2, r2, rest.drop_first()) == (s2, r2));
            if exists|i: int| 0 <= i < rest.len() && #[trigger] rest[i] == BehaviorStatus::Running {
                assert(rest[0] == BehaviorStatus::Running);
            }
        } else {
            let tail = rest.drop_first();
            assert forall|i: int| 0 <= i < k - 1 implies continues(#[trigger] tail[i]) by {
                assert(continues(rest[i + 1]));
            }
            if k == rest.len() {
                if !s.running && forall|i: int| 0 <= i < rest.len() ==> #[trigger] rest[i] == BehaviorStatus::Failure {
                    assert forall|i: int| 0 <= i < tail.len() implies #[trigger] tail[i] == BehaviorStatus::Failure by {
                        assert(rest[i + 1] == BehaviorStatus::Failure);
                    }
                    assert(rest[0] == BehaviorStatus::Failure);
                    assert(!s2.running);
                }
                if exists|i: int| 0 <= i < rest.len() && #[trigger] rest[i] == BehaviorStatus::Running {
                    let w = choose|i: int| 0 <= i < rest.len() && #[trigger] rest[i] == BehaviorStatus::Running;
                    if w > 0 {
                        assert(tail[w - 1] == BehaviorStatus::Running);
                    }
                }
            }
            lemma_rf(s2, r2, tail, k - 1);
        }
    }
}

/// A reactive fallback with at least one child, all of which return failure in a
/// tick, finishes the tick with failure and resets its children.
pub proof fn law_reactive_fallback_all_fail(s: ReactiveFallbackState, statuses: Seq<BehaviorStatus>)
    requires
        0 < statuses.len() <= usize::MAX,
        forall|i: int| 0 <= i < statuses.len() ==> #[trigger] statuses[i] == BehaviorStatus::Failure,
    ensures
        ({
            let (s1, st, r1) = rf_tick(s, statuses.len() as usize);
            let (s2, r2) = run(rf_machine(), s1, r1, statuses);
            st == BehaviorStatus::Running && r2 == go_after(
                Halt::ResetAll,
                Next::Finish(BehaviorStatus::Failure),
            )
        }),
{
    let (s1, st, r1) = rf_tick(s, statuses.len() as usize);
    lemma_rf(s1, r1, statuses, statuses.len() as int);
}

/// A reactive fallback whose child `k` returns success, after the children
/// before it failed, were skipped or are running, finishes the tick with success
/// and resets its children; children after `k` are not ticked.
pub proof fn law_reactive_fallback_success_stops(
    s: ReactiveFallbackState,
    statuses: Seq<BehaviorStatus>,
    k: int,
)
    requires
        statuses.len() <= usize::MAX,
        0 <= k < statuses.len(),
        forall|i: int| 0 <= i < k ==> continues(#[trigger] statuses[i]),
        statuses[k] == BehaviorStatus::Success,
    ensures
        ({
            let (s1, st, r1) = rf_tick(s, statuses.len() as usize);
            let (s2, r2) = run(rf_machine(), s1, r1, statuses);
            r2 == go_after(Halt::ResetAll, Next::Finish(BehaviorStatus::Success))
        }),
{
    let (s1, st, r1) = rf_tick(s, statuses.len() as usize);
    lemma_rf(s1, r1, statuses, k);
}

/// A reactive fallback none of whose children succeeds in a tick, one of which
/// is running, ticks all its children and finishes the tick with running.
pub proof fn law_reactive_fallback_running(s: ReactiveFallbackState, statuses: Seq<BehaviorStatus>, k: int)
    requires
        statuses.len() <= usize::MAX,
        forall|i: int| 0 <= i < statuses.len() ==> continues(#[trigger] statuses[i]),
        0 <= k < statuses.len(),
        statuses[k] == BehaviorStatus::Running,
    ensures
        ({
            let (s1, st, r1) = rf_tick(s, statuses.len() as usize);
            let (s2, r2) = run(rf_machine(), s1, r1, statuses);
            r2.next == Next::Finish(BehaviorStatus::Running)
        }),
{
    let (s1, st, r1) = rf_tick(s, statuses.len() as usize);
    assert(exists|i: int| 0 <= i < statuses.len() && #[trigger] statuses[i] == BehaviorStatus::Running);
    lemma_rf(s1, r1, statuses, statuses.len() as int);
}

// ---------------------------------------------------------------- if-then-else

/// An if-then-else node with 2 or 3 children, not in the middle of a branch,
/// whose statement returns success executes the second child and finishes the
/// tick with that child's status, once the child has completed.
pub proof fn law_if_then_else_then(
    s: IfThenElseState,
    status: BehaviorStatus,
    n: usize,
    branch: BehaviorStatus,
)
    requires
        s.child_idx == 0,
        2 <= n <= 3,
        branch != BehaviorStatus::Running,
    ensures
        ({
            let (s1, st, r1) = ite_tick(s, status, n);
            let (s2, r2) = run(ite_machine(), s1, r1, seq![BehaviorStatus::Success, branch]);
            &&& r1 == go(Next::TickChild(0))
            &&& ite_resume(s1, BehaviorStatus::Success).1 == go(Next::TickChild(1))
            &&& r2 == go_after(Halt::ResetAll, Next::Finish(branch))
            &&& s2.child_idx == 0
        }),
{
    let (s1, st, r1) = ite_tick(s, status, n);
    let st_seq = seq![BehaviorStatus::Success, branch];
    let (sa, ra) = ite_resume(s1, BehaviorStatus::Success);
    let (sb, rb) = ite_resume(sa, branch);
    assert(st_seq.drop_first() =~= seq![branch]);
    assert(st_seq.drop_first().drop_first() =~= Seq::<BehaviorStatus>::empty());
    assert(run(ite_machine(), sb, rb, st_seq.drop_first().drop_first()) == (sb, rb));
    assert(run(ite_machine(), sa, ra, st_seq.drop_first()) == (sb, rb));
}

/// An if-then-else node with 3 children, not in the middle of a branch, whose
/// statement returns failure executes the third child and finishes the tick with
/// that child's status, once the child has completed.
pub proof fn law_if_then_else_else(s: IfThenElseState, status: BehaviorStatus, branch: BehaviorStatus)
    requires
        s.child_idx == 0,
        branch != BehaviorStatus::Running,
    ensures
        ({
            let (s1, st, r1) = ite_tick(s, status, 3);
            let (s2, r2) = run(ite_machine(), s1, r1, seq![BehaviorStatus::Failure, branch]);
            &&& ite_resume(s1, BehaviorStatus::Failure).1 == go(Next::TickChild(2))
            &&& r2 == go_after(Halt::ResetAll, Next::Finish(branch))
            &&& s2.child_idx == 0
        }),
{
    let (s1, st, r1) = ite_tick(s, status, 3);
    let st_seq = seq![BehaviorStatus::Failure, branch];
    let (sa, ra) = ite_resume(s1, BehaviorStatus::Failure);
    let (sb, rb) = ite_resume(sa, branch);
    assert(st_seq.drop_first() =~= seq![branch]);
    assert(st_seq.drop_first().drop_first() =~= Seq::<BehaviorStatus>::empty());
    assert(run(ite_machine(), sb, rb, st_seq.drop_first().drop_first()) == (sb, rb));
    assert(run(ite_machine(), sa, ra, st_seq.drop_first()) == (sb, rb));
}

/// An if-then-else node with only 2 children, not in the middle of a branch,
/// returns failure whenever its statement returns failure, as if a third child
/// that always fails were present.
pub proof fn law_if_then_else_two_children_fail(s: IfThenElseState, status: BehaviorStatus)
    requires
        s.child_idx == 0,
    ensures
        ({
            let (s1, st, r1) = ite_tick(s, status, 2);
            let (s2, r2) = run(ite_machine(), s1, r1, seq![BehaviorStatus::Failure]);
            r2 == go(Next::Finish(BehaviorStatus::Failure)) && s2.child_idx == 0
        }),
{
    let (s1, st, r1) = ite_tick(s, status, 2);
    let st_seq = seq![BehaviorStatus::Failure];
    let (sa, ra) = ite_resume(s1, BehaviorStatus::Failure);
    assert(st_seq.drop_first() =~= Seq::<BehaviorStatus>::empty());
    assert(run(ite_machine(), sa, ra, st_seq.drop_first()) == (sa, ra));
}

/// An if-then-else node refuses a tick unless it has 2 or 3 children.
pub proof fn law_if_then_else_children(s: IfThenElseState, status: BehaviorStatus, n: usize)
    ensures
        (ite_tick(s, status, n).2.next is Fail) <==> !(2 <= n <= 3),
{
}

/// The status the child `i` of an if-then-else node returns in a tick in which
/// the statement returns `a.0` and the second child `a.1`: a third child fails.
pub open spec fn ite_answer(i: usize, a: (BehaviorStatus, BehaviorStatus)) -> BehaviorStatus {
    if i == 0 {
        a.0
    } else if i == 1 {
        a.1
    } else {
        BehaviorStatus::Failure
    }
}

/// The node's reaction when the child it asked for answers as `a` says.
pub open spec fn ite_answer_step(s: IfThenElseState, r: Step, a: (BehaviorStatus, BehaviorStatus)) -> (
    IfThenElseState,
    Step,
) {
    match r.next {
        Next::TickChild(i) => ite_resume(s, ite_answer(i, a)),
        _ => (s, r),
    }
}

/// A whole tick of an if-then-else node with `n` children that answer as `a`
/// says: the start of the tick and the reactions to the children ticked in it.
pub open spec fn ite_whole_tick(s: IfThenElseState, n: usize, a: (BehaviorStatus, BehaviorStatus)) -> (
    IfThenElseState,
    Step,
) {
    let (s1, st1, r1) = ite_tick(s, BehaviorStatus::Running, n);
    let (s2, r2) = ite_answer_step(s1, r1, a);
    ite_answer_step(s2, r2, a)
}

/// What an if-then-else node with `n` children answers in a sequence of ticks,
/// the children answering in each tick as the matching entry of `answers` says.
pub open spec fn ite_results(s: IfThenElseState, n: usize, answers: Seq<(BehaviorStatus, BehaviorStatus)>) -> Seq<
    Next,
>
    decreases answers.len(),
{
    if answers.len() == 0 {
        Seq::empty()
    } else {
        let (s1, r1) = ite_whole_tick(s, n, answers[0]);
        seq![r1.next] + ite_results(s1, n, answers.drop_first())
    }
}

proof fn lemma_ite_tick_two_as_three(s2: IfThenElseState, s3: IfThenElseState, a: (BehaviorStatus, BehaviorStatus))
    requires
        s2.child_idx == s3.child_idx,
    ensures
        ({
            let (t2, r2) = ite_whole_tick(s2, 2, a);
            let (t3, r3) = ite_whole_tick(s3, 3, a);
            &&& r2.next == r3.next
            &&& !(r2.next is TickChild)
            &&& t2.child_idx == t3.child_idx
        }),
{
}

proof fn lemma_ite_results_two_as_three(
    s2: IfThenElseState,
    s3: IfThenElseState,
    answers: Seq<(BehaviorStatus, BehaviorStatus)>,
)
    requires
        s2.child_idx == s3.child_idx,
    ensures
        ite_results(s2, 2, answers) == ite_results(s3, 3, answers),
    decreases answers.len(),
{
    if answers.len() > 0 {
        lemma_ite_tick_two_as_three(s2, s3, answers[0]);
        let (t2, r2) = ite_whole_tick(s2, 2, answers[0]);
        let (t3, r3) = ite_whole_tick(s3, 3, answers[0]);
        lemma_ite_results_two_as_three(t2, t3, answers.drop_first());
    }
}

/// An if-then-else node with 2 children answers every sequence of ticks, from
/// any state, as the same node would with a third child that always fails, its
/// first two children answering alike in both: each tick completes, with the same
/// status. (Children
/// are reset in different places: after its statement fails, the node with 2
/// children keeps them, the one with 3 resets them.)
pub proof fn law_if_then_else_two_children_as_three(
    s: IfThenElseState,
    answers: Seq<(BehaviorStatus, BehaviorStatus)>,
)
    ensures
        ite_results(s, 2, answers) == ite_results(s, 3, answers),
        forall|k: int| 0 <= k < answers.len() ==> !(#[trigger] ite_results(s, 2, answers)[k] is TickChild),
{
    lemma_ite_results_two_as_three(s, s, answers);
    lemma_ite_results_complete(s, answers);
}

proof fn lemma_ite_results_complete(s: IfThenElseState, answers: Seq<(BehaviorStatus, BehaviorStatus)>)
    ensures
        ite_results(s, 2, answers).len() == answers.len(),
        forall|k: int| 0 <= k < answers.len() ==> !(#[trigger] ite_results(s, 2, answers)[k] is TickChild),
    decreases answers.len(),
{
    if answers.len() > 0 {
        lemma_ite_tick_two_as_three(s, s, answers[0]);
        let (t2, r2) = ite_whole_tick(s, 2, answers[0]);
        lemma_ite_results_complete(t2, answers.drop_first());
        let rest = ite_results(t2, 2, answers.drop_first());
        assert forall|k: int| 0 <= k < answers.len() implies !(#[trigger] ite_results(s, 2, answers)[k] is TickChild) by {
            if k > 0 {
                assert(ite_results(s, 2, answers)[k] == rest[k - 1]);
            }
        }
    }
}

// ---------------------------------------------------------------- while-do-else

/// A while-do-else node with 3 children ticks its statement at every tick; on
/// success it halts the third child and executes the second, on failure it halts
/// the second child and executes the third, and finishes the tick with the
/// status of the executed child once that child has completed.
pub proof fn law_while_do_else_branches(
    s: WhileDoElseState,
    status: BehaviorStatus,
    cond: BehaviorStatus,
    branch: BehaviorStatus,
)
    requires
        cond == BehaviorStatus::Success || cond == BehaviorStatus::Failure,
        branch != BehaviorStatus::Running,
    ensures
        ({
            let (s1, st, r1) = wde_tick(s, status, 3);
            let (sa, ra) = wde_resume(s1, cond);
            let (s2, r2) = run(wde_machine(), s1, r1, seq![cond, branch]);
            &&& r1 == go(Next::TickChild(0))
            &&& ra == (if cond == BehaviorStatus::Success {
                go_after(Halt::HaltOne(2), Next::TickChild(1))
            } else {
                go_after(Halt::HaltOne(1), Next::TickChild(2))
            })
            &&& r2 == go_after(Halt::ResetAll, Next::Finish(branch))
        }),
{
    let (s1, st, r1) = wde_tick(s, status, 3);
    let st_seq = seq![cond, branch];
    let (sa, ra) = wde_resume(s1, cond);
    let (sb, rb) = wde_resume(sa, branch);
    assert(st_seq.drop_first() =~= seq![branch]);
    assert(st_seq.drop_first().drop_first() =~= Seq::<BehaviorStatus>::empty());
    assert(run(wde_machine(), sb, rb, st_seq.drop_first().drop_first()) == (sb, rb));
    assert(run(wde_machine(), sa, ra, st_seq.drop_first()) == (sb, rb));
}

/// One step of an if-then-else node: while its statement runs, a running
/// statement ends the tick with running, success chooses the second child and
/// failure the third (with only 2 children, failure ends the tick with failure);
/// in a branch, a running child ends the tick with running and a completed one
/// ends it with its status, resets the children and goes back to the statement.
pub proof fn law_if_then_else_step(s: IfThenElseState, child: BehaviorStatus)
    ensures
        s.child_idx == 0 && child == BehaviorStatus::Running ==> ite_resume(s, child) == (s, go(
            Next::Finish(BehaviorStatus::Running),
        )),
        s.child_idx == 0 && child == BehaviorStatus::Success ==> ite_resume(s, child).1 == go(Next::TickChild(1))
            && ite_resume(s, child).0.child_idx == 1,
        s.child_idx == 0 && child == BehaviorStatus::Failure && s.children_count == 3 ==> ite_resume(s, child).1
            == go(Next::TickChild(2)) && ite_resume(s, child).0.child_idx == 2,
        s.child_idx == 0 && child == BehaviorStatus::Failure && s.children_count != 3 ==> ite_resume(s, child)
            == (s, go(Next::Finish(BehaviorStatus::Failure))),
        s.child_idx != 0 && child == BehaviorStatus::Running ==> ite_resume(s, child) == (s, go(
            Next::Finish(BehaviorStatus::Running),
        )),
        s.child_idx != 0 && child != BehaviorStatus::Running ==> ite_resume(s, child).1 == go_after(
            Halt::ResetAll,
            Next::Finish(child),
        ) && ite_resume(s, child).0.child_idx == 0,
{
}

/// One step of a reactive fallback: a child that succeeded ends the tick with
/// success and resets the children; a failed or running child lets the node tick
/// the next child; after the last child, a running child keeps the tick running,
/// else it ends with failure (skipped when all were skipped) and resets the
/// children.
pub proof fn law_reactive_fallback_step(s: ReactiveFallbackState, child: BehaviorStatus)
    requires
        s.index < s.children_count,
    ensures
        child == BehaviorStatus::Success ==> rf_resume(s, child).1 == go_after(
            Halt::ResetAll,
            Next::Finish(BehaviorStatus::Success),
        ),
        (child == BehaviorStatus::Failure || child == BehaviorStatus::Running) && s.index + 1 < s.children_count
            ==> rf_resume(s, child).1 == go(Next::TickChild((s.index + 1) as usize)),
        (child == BehaviorStatus::Running || (s.running && child == BehaviorStatus::Failure)) && s.index + 1
            == s.children_count ==> rf_resume(s, child).1 == go(Next::Finish(BehaviorStatus::Running)),
        !s.running && child == BehaviorStatus::Failure && s.index + 1 == s.children_count ==> rf_resume(s, child).1
            == go_after(Halt::ResetAll, Next::Finish(BehaviorStatus::Failure)),
{
}

/// A while-do-else node with 2 or 3 children whose statement returns success
/// ticks its second child and finishes the tick with that child's status once
/// the child has completed; with 3 children it halts the third first.
pub proof fn law_while_do_else_success_runs_second(
    s: WhileDoElseState,
    status: BehaviorStatus,
    n: usize,
    branch: BehaviorStatus,
)
    requires
        2 <= n <= 3,
        branch != BehaviorStatus::Running,
    ensures
        ({
            let (s1, st, r1) = wde_tick(s, status, n);
            let (sa, ra) = wde_resume(s1, BehaviorStatus::Success);
            let (s2, r2) = run(wde_machine(), s1, r1, seq![BehaviorStatus::Success, branch]);
            &&& r1 == go(Next::TickChild(0))
            &&& ra.next == Next::TickChild(1)
            &&& (n == 3 ==> ra.halt == Halt::HaltOne(2))
            &&& r2 == go_after(Halt::ResetAll, Next::Finish(branch))
        }),
{
    let (s1, st, r1) = wde_tick(s, status, n);
    let st_seq = seq![BehaviorStatus::Success, branch];
    let (sa, ra) = wde_resume(s1, BehaviorStatus::Success);
    let (sb, rb) = wde_resume(sa, branch);
    assert(st_seq.drop_first() =~= seq![branch]);
    assert(st_seq.drop_first().drop_first() =~= Seq::<BehaviorStatus>::empty());
    assert(run(wde_machine(), sb, rb, st_seq.drop_first().drop_first()) == (sb, rb));
    assert(run(wde_machine(), sa, ra, st_seq.drop_first()) == (sb, rb));
}

/// A while-do-else node whose branch child is running finishes the tick with
/// running, and a completed branch child ends the tick with its status and
/// resets the children.
pub proof fn law_while_do_else_branch_step(s: WhileDoElseState, child: BehaviorStatus)
    requires
        s.in_branch,
    ensures
        child == BehaviorStatus::Running ==> wde_resume(s, child).1 == go(Next::Finish(BehaviorStatus::Running)),
        child != BehaviorStatus::Running ==> wde_resume(s, child) == (s, go_after(Halt::ResetAll, Next::Finish(child))),
{
}

/// A while-do-else node with only 2 children returns failure whenever its
/// statement returns failure, and resets its children.
pub proof fn law_while_do_else_two_children_fail(s: WhileDoElseState, status: BehaviorStatus)
    ensures
        ({
            let (s1, st, r1) = wde_tick(s, status, 2);
            let (s2, r2) = run(wde_machine(), s1, r1, seq![BehaviorStatus::Failure]);
            r2 == go_after(Halt::ResetAll, Next::Finish(BehaviorStatus::Failure))
        }),
{
    let (s1, st, r1) = wde_tick(s, status, 2);
    let st_seq = seq![BehaviorStatus::Failure];
    let (sa, ra) = wde_resume(s1, BehaviorStatus::Failure);
    assert(st_seq.drop_first() =~= Seq::<BehaviorStatus>::empty());
    assert(run(wde_machine(), sa, ra, st_seq.drop_first()) == (sa, ra));
}

} // verus!
