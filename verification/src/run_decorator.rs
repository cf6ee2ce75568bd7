//! Laws of the decorator nodes, over one or several ticks.

use vstd::prelude::*;
use crate::status::{BehaviorStatus, spec_is_completed};
use crate::step::{go, go_after, Fault, Halt, Next, Reporter, Step};
use crate::run::run;
use crate::decorator::force_failure::ff_resume;
use crate::decorator::force_success::fs_resume;
use crate::decorator::inverter::inv_resume;
use crate::decorator::keep_running_until_failure::kruf_resume;
use crate::decorator::repeat::{RepeatState, repeat_resume, repeat_tick};
use crate::decorator::retry::{RetryState, retry_resume, retry_tick};
use crate::decorator::retry_until_successful::{RetryUntilSuccessfulState, rus_resume, rus_tick};
use crate::decorator::run_once::{RunOnceState, run_once_resume, run_once_tick};

verus! {

/// The inverter returns failure when its child succeeds and success when it
/// fails, resetting the child; running and skipped pass through.
pub proof fn law_inverter_inverts(child: BehaviorStatus)
    ensures
        child == BehaviorStatus::Success ==> inv_resume(child) == go_after(
            Halt::ResetAll,
            Next::Finish(BehaviorStatus::Failure),
        ),
        child == BehaviorStatus::Failure ==> inv_resume(child) == go_after(
            Halt::ResetAll,
            Next::Finish(BehaviorStatus::Success),
        ),
        (child == BehaviorStatus::Running || child == BehaviorStatus::Skipped) ==> inv_resume(child)
            == go(Next::Finish(child)),
{
}

/// The force-success decorator never finishes a tick with failure, and finishes
/// with success whenever its child has completed.
pub proof fn law_force_success_never_fails(child: BehaviorStatus)
    ensures
        fs_resume(child).next != Next::Finish(BehaviorStatus::Failure),
        spec_is_completed(child) ==> fs_resume(child).next == Next::Finish(BehaviorStatus::Success),
{
}

/// The force-failure decorator never finishes a tick with success, and finishes
/// with failure whenever its child has completed.
pub proof fn law_force_failure_never_succeeds(child: BehaviorStatus)
    ensures
        ff_resume(child).next != Next::Finish(BehaviorStatus::Success),
        spec_is_completed(child) ==> ff_resume(child).next == Next::Finish(BehaviorStatus::Failure),
{
}

/// The keep-running-until-failure decorator only ever returns running or
/// failure, and failure exactly when its child fails.
pub proof fn law_keep_running_until_failure(child: BehaviorStatus)
    ensures
        kruf_resume(child).next == Next::Finish(BehaviorStatus::Running) || kruf_resume(child).next
            == Next::Finish(BehaviorStatus::Failure),
        (kruf_resume(child).next == Next::Finish(BehaviorStatus::Failure)) <==> child
            == BehaviorStatus::Failure,
{
}

// ---------------------------------------------------------------- repeat

/// A repeat node after `k` ticks in each of which its child succeeded.
pub open spec fn repeat_after_successes(s: RepeatState, num_cycles: i32, k: nat) -> RepeatState
    decreases k,
{
    if k == 0 {
        s
    } else {
        let s0 = repeat_after_successes(s, num_cycles, (k - 1) as nat);
        let (s1, _, _) = repeat_tick(s0, BehaviorStatus::Running, num_cycles);
        repeat_resume(s1, BehaviorStatus::Success).0
    }
}

proof fn lemma_repeat_after(s: RepeatState, num_cycles: i32, k: nat)
    requires
        s.repeat_count == 0,
        k <= num_cycles,
    ensures
        repeat_after_successes(s, num_cycles, k).repeat_count == k,
        k > 0 ==> !repeat_after_successes(s, num_cycles, k).all_skipped,
    decreases k,
{
    if k > 0 {
        lemma_repeat_after(s, num_cycles, (k - 1) as nat);
        let s0 = repeat_after_successes(s, num_cycles, (k - 1) as nat);
        assert((s0.repeat_count as i32) == (k - 1));
    }
}

/// While a repeat node with `num_cycles` >= 1 has counted fewer successes than
/// `num_cycles`, a tick in which its child succeeds returns running and resets
/// the child for the next cycle.
pub proof fn law_repeat_cycles(s: RepeatState, num_cycles: i32, k: nat)
    requires
        s.repeat_count == 0,
        k < num_cycles,
    ensures
        ({
            let sk = repeat_after_successes(s, num_cycles, k);
            let (s1, st, r1) = repeat_tick(sk, BehaviorStatus::Running, num_cycles);
            let (s2, r2) = repeat_resume(s1, BehaviorStatus::Success);
            &&& r1 == go(Next::TickChild(0))
            &&& r2 == go_after(Halt::ResetAll, Next::Finish(BehaviorStatus::Running))
            &&& s2.repeat_count == k + 1
        }),
{
    lemma_repeat_after(s, num_cycles, k);
    let sk = repeat_after_successes(s, num_cycles, k);
    assert((sk.repeat_count as i32) == k);
}

/// A repeat node with `num_cycles` >= 1 whose child succeeded `num_cycles`
/// times finishes the next tick with success, without ticking the child, and
/// starts counting again.
pub proof fn law_repeat_completes(s: RepeatState, num_cycles: i32)
    requires
        s.repeat_count == 0,
        num_cycles >= 1,
    ensures
        ({
            let sn = repeat_after_successes(s, num_cycles, num_cycles as nat);
            let (s1, st, r1) = repeat_tick(sn, BehaviorStatus::Running, num_cycles);
            r1 == go(Next::Finish(BehaviorStatus::Success)) && s1.repeat_count == 0
        }),
{
    lemma_repeat_after(s, num_cycles, num_cycles as nat);
    let sn = repeat_after_successes(s, num_cycles, num_cycles as nat);
    assert((sn.repeat_count as i32) == num_cycles);
}

// ---------------------------------------------------------------- retry

/// A retry node after `k` ticks in each of which its child failed.
pub open spec fn retry_after_failures(s: RetryState, num_attempts: i32, k: nat) -> RetryState
    decreases k,
{
    if k == 0 {
        s
    } else {
        let s0 = retry_after_failures(s, num_attempts, (k - 1) as nat);
        let (s1, _, _) = retry_tick(s0, BehaviorStatus::Running, num_attempts);
        retry_resume(s1, BehaviorStatus::Failure).0
    }
}

proof fn lemma_retry_after(s: RetryState, num_attempts: i32, k: nat)
    requires
        s.try_count == 0,
        k <= num_attempts,
    ensures
        retry_after_failures(s, num_attempts, k).try_count == k,
        k > 0 ==> !retry_after_failures(s, num_attempts, k).all_skipped,
    decreases k,
{
    if k > 0 {
        lemma_retry_after(s, num_attempts, (k - 1) as nat);
        let s0 = retry_after_failures(s, num_attempts, (k - 1) as nat);
        assert((s0.try_count as i32) == (k - 1));
    }
}

/// A retry node with `num_attempts` >= 1 whose child failed `k` < `num_attempts`
/// times ticks the child again; if the child now succeeds, the node finishes the
/// tick with success, resets the child and starts counting again.
pub proof fn law_retry_succeeds(s: RetryState, num_attempts: i32, k: nat)
    requires
        s.try_count == 0,
        k < num_attempts,
    ensures
        ({
            let sk = retry_after_failures(s, num_attempts, k);
            let (s1, st, r1) = retry_tick(sk, BehaviorStatus::Running, num_attempts);
            let (s2, r2) = retry_resume(s1, BehaviorStatus::Success);
            &&& r1 == go(Next::TickChild(0))
            &&& r2 == go_after(Halt::ResetAll, Next::Finish(BehaviorStatus::Success))
            &&& s2.try_count == 0
        }),
{
    lemma_retry_after(s, num_attempts, k);
    let sk = retry_after_failures(s, num_attempts, k);
    assert((sk.try_count as i32) == k);
}

/// A retry node with `num_attempts` >= 1 whose child failed `num_attempts` times
/// finishes the next tick with failure, without ticking the child, and starts
/// counting again; each failed attempt before made the node return running.
pub proof fn law_retry_gives_up(s: RetryState, num_attempts: i32, k: nat)
    requires
        s.try_count == 0,
        num_attempts >= 1,
        k < num_attempts,
    ensures
        ({
            let sk = retry_after_failures(s, num_attempts, k);
            let (s1, st, r1) = retry_tick(sk, BehaviorStatus::Running, num_attempts);
            retry_resume(s1, BehaviorStatus::Failure).1 == go(Next::Finish(BehaviorStatus::Running))
        }),
        ({
            let sn = retry_after_failures(s, num_attempts, num_attempts as nat);
            let (s1, st, r1) = retry_tick(sn, BehaviorStatus::Running, num_attempts);
            r1 == go(Next::Finish(BehaviorStatus::Failure)) && s1.try_count == 0
        }),
{
    lemma_retry_after(s, num_attempts, k);
    lemma_retry_after(s, num_attempts, num_attempts as nat);
    let sk = retry_after_failures(s, num_attempts, k);
    assert((sk.try_count as i32) == k);
    let sn = retry_after_failures(s, num_attempts, num_attempts as nat);
    assert((sn.try_count as i32) == num_attempts);
}

// ---------------------------------------------------------------- retry until successful

/// The reaction of a retry-until-successful node, as a function value.
pub open spec fn rus_machine() -> spec_fn(RetryUntilSuccessfulState, BehaviorStatus) -> (
    RetryUntilSuccessfulState,
    Step,
) {
    |s: RetryUntilSuccessfulState, c: BehaviorStatus| rus_resume(s, c)
}

proof fn lemma_rus(s: RetryUntilSuccessfulState, r: Step, rest: Seq<BehaviorStatus>, k: int)
    requires
        r.next == Next::TickChild(0),
        0 <= k < rest.len(),
        s.try_count + k < s.max_attempts,
        k + 1 == rest.len() ==> (rest[k] == BehaviorStatus::Success || s.try_count + k + 1
            == s.max_attempts),
        k + 1 < rest.len() ==> rest[k] == BehaviorStatus::Success,
        forall|i: int| 0 <= i < k ==> #[trigger] rest[i] == BehaviorStatus::Failure,
        rest[k] == BehaviorStatus::Success || rest[k] == BehaviorStatus::Failure,
    ensures
        ({
            let (s2, r2) = run(rus_machine(), s, r, rest);
            &&& s2.try_count == 0
            &&& r2 == go_after(
                Halt::ResetAll,
                Next::Finish(
                    if rest[k] == BehaviorStatus::Success {
                        BehaviorStatus::Success
                    } else {
                        BehaviorStatus::Failure
                    },
                ),
            )
        }),
    decreases k,
{
    let (s2, r2) = rus_resume(s, rest[0]);
    if k == 0 {
        assert(run(rus_machine(), s2, r2, rest.drop_first()) == (s2, r2)) by {
            if rest.drop_first().len() > 0 {
                assert(rest[0] == BehaviorStatus::Success);
            }
        }
        if rest[0] == BehaviorStatus::Failure {
            assert(((s.try_count + 1) as usize as i32) == s.max_attempts);
        }
    } else {
        assert(rest[0] == BehaviorStatus::Failure);
        assert(((s.try_count + 1) as usize as i32) < s.max_attempts);
        assert forall|i: int| 0 <= i < k - 1 implies #[trigger] rest.drop_first()[i]
            == BehaviorStatus::Failure by {
            assert(rest[i + 1] == BehaviorStatus::Failure);
        }
        lemma_rus(s2, r2, rest.drop_first(), k - 1);
    }
}

/// Within one tick, a retry-until-successful node with `num_attempts` >= 1 ticks
/// its child again after each failure, up to `num_attempts` times: if the child
/// succeeds at attempt `k + 1` <= `num_attempts`, the node finishes the tick with
/// success; if it fails `num_attempts` times, the node finishes with failure.
/// Either way the child is reset and counting starts again.
pub proof fn law_retry_until_successful(
    s: RetryUntilSuccessfulState,
    status: BehaviorStatus,
    num_attempts: i32,
    statuses: Seq<BehaviorStatus>,
)
    requires
        s.try_count == 0,
        1 <= statuses.len() <= num_attempts,
        forall|i: int| 0 <= i < statuses.len() - 1 ==> #[trigger] statuses[i] == BehaviorStatus::Failure,
        statuses.last() == BehaviorStatus::Success || (statuses.last() == BehaviorStatus::Failure
            && statuses.len() == num_attempts),
    ensures
        ({
            let (s1, st, r1) = rus_tick(s, status, num_attempts);
            let (s2, r2) = run(rus_machine(), s1, r1, statuses);
            &&& r1 == go(Next::TickChild(0))
            &&& s2.try_count == 0
            &&& r2 == go_after(Halt::ResetAll, Next::Finish(statuses.last()))
        }),
{
    let (s1, st, r1) = rus_tick(s, status, num_attempts);
    assert((s.try_count as i32) == 0);
    lemma_rus(s1, r1, statuses, statuses.len() - 1);
}

// ---------------------------------------------------------------- run once

/// Once the child of a run-once node has completed, every later tick finishes at
/// once, without ticking the child: with skipped when port `then_skip` is true,
/// else with the status the child completed with.
pub proof fn law_run_once(s: RunOnceState, child: BehaviorStatus, status: BehaviorStatus, then_skip: bool)
    requires
        spec_is_completed(child),
    ensures
        ({
            let (s1, r1) = run_once_resume(s, child);
            let (s2, st2, r2) = run_once_tick(s1, status, then_skip);
            &&& r1 == go_after(Halt::ResetAll, Next::Finish(child))
            &&& r2 == go(
                Next::Finish(if then_skip { BehaviorStatus::Skipped } else { child }),
            )
            &&& s2 == s1
        }),
{
}

// ---------------------------------------------------------------- single steps

/// The force-success decorator returns success, resetting its child, once the
/// child has succeeded or failed; any other status of the child (still running,
/// skipped, idle) is returned unchanged.
pub proof fn law_force_success_step(child: BehaviorStatus)
    ensures
        (child == BehaviorStatus::Success || child == BehaviorStatus::Failure) ==> fs_resume(child) == go_after(
            Halt::ResetAll,
            Next::Finish(BehaviorStatus::Success),
        ),
        (child != BehaviorStatus::Success && child != BehaviorStatus::Failure) ==> fs_resume(child) == go(
            Next::Finish(child),
        ),
{
}

/// The force-failure decorator returns failure, resetting its child, once the
/// child has succeeded or failed; any other status of the child is returned
/// unchanged.
pub proof fn law_force_failure_step(child: BehaviorStatus)
    ensures
        (child == BehaviorStatus::Success || child == BehaviorStatus::Failure) ==> ff_resume(child) == go_after(
            Halt::ResetAll,
            Next::Finish(BehaviorStatus::Failure),
        ),
        (child != BehaviorStatus::Success && child != BehaviorStatus::Failure) ==> ff_resume(child) == go(
            Next::Finish(child),
        ),
{
}

/// The inverter refuses an idle child.
pub proof fn law_inverter_idle()
    ensures
        inv_resume(BehaviorStatus::Idle) == go(Next::Fail(Fault::IdleChild(Reporter::Inverter))),
{
}

/// The keep-running-until-failure decorator returns running while its child
/// succeeds (resetting it for the next round) or has not completed, and failure,
/// resetting the child, when the child fails.
pub proof fn law_keep_running_step(child: BehaviorStatus)
    ensures
        child == BehaviorStatus::Success ==> kruf_resume(child) == go_after(
            Halt::ResetAll,
            Next::Finish(BehaviorStatus::Running),
        ),
        child == BehaviorStatus::Failure ==> kruf_resume(child) == go_after(
            Halt::ResetAll,
            Next::Finish(BehaviorStatus::Failure),
        ),
        (child != BehaviorStatus::Success && child != BehaviorStatus::Failure) ==> kruf_resume(child) == go(
            Next::Finish(BehaviorStatus::Running),
        ),
{
}

/// One step of a repeat node: a success counts one cycle and returns running,
/// resetting the child for the next cycle; a failure ends the tick with failure,
/// resets the child and starts counting again; a running child keeps the node
/// running; a skipped child ends the tick with skipped; an idle child is refused.
pub proof fn law_repeat_step(s: RepeatState, child: BehaviorStatus)
    requires
        s.repeat_count < usize::MAX,
    ensures
        child == BehaviorStatus::Success ==> repeat_resume(s, child).0.repeat_count == s.repeat_count + 1
            && repeat_resume(s, child).1 == go_after(Halt::ResetAll, Next::Finish(BehaviorStatus::Running)),
        child == BehaviorStatus::Failure ==> repeat_resume(s, child).0.repeat_count == 0 && repeat_resume(
            s,
            child,
        ).1 == go_after(Halt::ResetAll, Next::Finish(BehaviorStatus::Failure)),
        child == BehaviorStatus::Running ==> repeat_resume(s, child).0.repeat_count == s.repeat_count
            && repeat_resume(s, child).1 == go(Next::Finish(BehaviorStatus::Running)),
        child == BehaviorStatus::Skipped ==> repeat_resume(s, child).1 == go_after(
            Halt::ResetAll,
            Next::Finish(BehaviorStatus::Skipped),
        ),
        child == BehaviorStatus::Idle ==> repeat_resume(s, child).1.next is Fail,
{
}

/// The start of a tick of a repeat node: while it has counted fewer cycles than
/// `num_cycles` (or `num_cycles` is -1) it ticks its child; otherwise it finishes
/// with success (skipped when every child tick was skipped) and counts again
/// from 0.
pub proof fn law_repeat_start(s: RepeatState, status: BehaviorStatus, num_cycles: i32)
    ensures
        ({
            let (s1, st, r1) = repeat_tick(s, status, num_cycles);
            &&& st == BehaviorStatus::Running
            &&& ((s.repeat_count as i32) < num_cycles || num_cycles == -1) ==> r1 == go(Next::TickChild(0))
            &&& !((s.repeat_count as i32) < num_cycles || num_cycles == -1) ==> s1.repeat_count == 0 && (
            r1 == go(Next::Finish(BehaviorStatus::Success)) || r1 == go(Next::Finish(BehaviorStatus::Skipped)))
            && (r1 == go(Next::Finish(BehaviorStatus::Skipped)) <==> s1.all_skipped)
        }),
{
}

/// One step of a retry node: a success ends the tick with success, resetting
/// the child and the attempt count; a failure counts an attempt and returns
/// running, to try again in the next tick; a running child keeps the node
/// running; a skipped child ends the tick with skipped; an idle child is refused.
pub proof fn law_retry_step(s: RetryState, child: BehaviorStatus)
    requires
        s.try_count < usize::MAX,
    ensures
        child == BehaviorStatus::Success ==> retry_resume(s, child).0.try_count == 0 && retry_resume(s, child).1
            == go_after(Halt::ResetAll, Next::Finish(BehaviorStatus::Success)),
        child == BehaviorStatus::Failure ==> retry_resume(s, child).0.try_count == s.try_count + 1
            && retry_resume(s, child).1 == go(Next::Finish(BehaviorStatus::Running)),
        child == BehaviorStatus::Running ==> retry_resume(s, child).1 == go(Next::Finish(BehaviorStatus::Running)),
        child == BehaviorStatus::Skipped ==> retry_resume(s, child).1 == go_after(
            Halt::ResetAll,
            Next::Finish(BehaviorStatus::Skipped),
        ),
        child == BehaviorStatus::Idle ==> retry_resume(s, child).1.next is Fail,
{
}

/// One step of a retry-until-successful node: a success ends the tick with
/// success and resets the attempt count; a failure counts an attempt and, while
/// attempts are left (or `max_attempts` is -1), ticks the child again in the same
/// tick, else ends with failure and counts again from 0; a running child keeps the node running.
pub proof fn law_retry_until_successful_step(s: RetryUntilSuccessfulState, child: BehaviorStatus)
    requires
        s.try_count < usize::MAX,
    ensures
        child == BehaviorStatus::Success ==> rus_resume(s, child).0.try_count == 0 && rus_resume(s, child).1
            == go_after(Halt::ResetAll, Next::Finish(BehaviorStatus::Success)),
        child == BehaviorStatus::Failure && (((s.try_count + 1) as usize as i32) < s.max_attempts
            || s.max_attempts == -1) ==> rus_resume(s, child).0.try_count == s.try_count + 1 && rus_resume(
            s,
            child,
        ).1 == go_after(Halt::ResetAll, Next::TickChild(0)),
        child == BehaviorStatus::Failure && !(((s.try_count + 1) as usize as i32) < s.max_attempts
            || s.max_attempts == -1) ==> rus_resume(s, child).0.try_count == 0 && rus_resume(s, child).1
            == go_after(Halt::ResetAll, Next::Finish(BehaviorStatus::Failure)),
        child == BehaviorStatus::Running ==> rus_resume(s, child).1 == go(Next::Finish(BehaviorStatus::Running)),
        child == BehaviorStatus::Skipped ==> rus_resume(s, child).1 == go_after(
            Halt::ResetAll,
            Next::Finish(BehaviorStatus::Skipped),
        ),
{
}

/// A run-once node passes a status of its child that is not completed on
/// unchanged and keeps ticking it in later ticks; before its first completion it
/// ticks its child at every tick.
pub proof fn law_run_once_not_completed(s: RunOnceState, child: BehaviorStatus, status: BehaviorStatus, then_skip: bool)
    requires
        child != BehaviorStatus::Success,
        child != BehaviorStatus::Failure,
    ensures
        run_once_resume(s, child) == (s, go(Next::Finish(child))),
        !s.already_ticked ==> run_once_tick(s, status, then_skip) == (s, BehaviorStatus::Running, go(
            Next::TickChild(0),
        )),
{
}

} // verus!
