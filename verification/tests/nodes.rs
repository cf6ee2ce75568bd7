use dimas::control::fallback::Fallback;
use dimas::control::if_then_else::IfThenElse;
use dimas::control::parallel::Parallel;
use dimas::control::parallel_all::ParallelAll;
use dimas::control::reactive_fallback::ReactiveFallback;
use dimas::control::sequence::Sequence;
use dimas::decorator::inverter::Inverter;
use dimas::decorator::repeat::Repeat;
use dimas::decorator::retry::Retry;
use dimas::status::BehaviorStatus::{self, Failure, Idle, Running, Skipped, Success};
use dimas::step::{Fault, Halt, Next, Reporter, Step};

fn go(next: Next) -> Step {
    Step { halt: Halt::Keep, next }
}

fn after(halt: Halt, next: Next) -> Step {
    Step { halt, next }
}

#[test]
fn sequence_runs_children_in_order() {
    let mut node = Sequence::new();
    let mut status = Idle;
    assert_eq!(node.tick(&mut status, 3), go(Next::TickChild(0)));
    assert_eq!(status, Running);
    assert_eq!(node.resume(Success), go(Next::TickChild(1)));
    assert_eq!(node.resume(Running), go(Next::Finish(Running)));
    // the next tick goes on with the running child
    assert_eq!(node.tick(&mut status, 3), go(Next::TickChild(1)));
    assert_eq!(node.resume(Success), go(Next::TickChild(2)));
    assert_eq!(node.resume(Success), after(Halt::ResetAll, Next::Finish(Success)));
}

#[test]
fn sequence_stops_at_failure() {
    let mut node = Sequence::new();
    let mut status = Idle;
    assert_eq!(node.tick(&mut status, 3), go(Next::TickChild(0)));
    assert_eq!(node.resume(Failure), after(Halt::ResetAll, Next::Finish(Failure)));
    // it starts over
    assert_eq!(node.tick(&mut status, 3), go(Next::TickChild(0)));
    assert_eq!(node.resume(Idle), go(Next::Fail(Fault::IdleChild(Reporter::Sequence))));
}

#[test]
fn fallback_stops_at_success() {
    let mut node = Fallback::new();
    let mut status = Idle;
    assert_eq!(node.tick(&mut status, 2), go(Next::TickChild(0)));
    assert_eq!(node.resume(Failure), go(Next::TickChild(1)));
    assert_eq!(node.resume(Success), after(Halt::ResetAll, Next::Finish(Success)));
}

#[test]
fn fallback_fails_when_all_fail_and_skips_when_all_skip() {
    let mut node = Fallback::new();
    let mut status = Idle;
    assert_eq!(node.tick(&mut status, 2), go(Next::TickChild(0)));
    assert_eq!(node.resume(Failure), go(Next::TickChild(1)));
    assert_eq!(node.resume(Failure), after(Halt::ResetAll, Next::Finish(Failure)));
    let mut node = Fallback::new();
    let mut status = Idle;
    assert_eq!(node.tick(&mut status, 2), go(Next::TickChild(0)));
    assert_eq!(node.resume(Skipped), go(Next::TickChild(1)));
    assert_eq!(node.resume(Skipped), after(Halt::ResetAll, Next::Finish(Skipped)));
}

#[test]
fn if_then_else_branches() {
    let mut node = IfThenElse::new();
    let mut status = Idle;
    assert_eq!(node.tick(&mut status, 3), go(Next::TickChild(0)));
    assert_eq!(node.resume(Failure), go(Next::TickChild(2)));
    assert_eq!(node.resume(Success), after(Halt::ResetAll, Next::Finish(Success)));
    let mut node = IfThenElse::new();
    assert_eq!(node.tick(&mut status, 2), go(Next::TickChild(0)));
    assert_eq!(node.resume(Success), go(Next::TickChild(1)));
    assert_eq!(node.resume(Failure), after(Halt::ResetAll, Next::Finish(Failure)));
    let mut node = IfThenElse::new();
    assert_eq!(node.tick(&mut status, 2), go(Next::TickChild(0)));
    assert_eq!(node.resume(Failure), go(Next::Finish(Failure)));
    let mut node = IfThenElse::new();
    let mut status = Idle;
    assert_eq!(node.tick(&mut status, 4), go(Next::Fail(Fault::IfThenElseChildren)));
    assert_eq!(status, Idle);
}

#[test]
fn inverter_inverts() {
    let mut node = Inverter::new();
    let mut status = Idle;
    assert_eq!(node.tick(&mut status, 1), go(Next::TickChild(0)));
    assert_eq!(node.resume(Success), after(Halt::ResetAll, Next::Finish(Failure)));
    assert_eq!(node.tick(&mut status, 1), go(Next::TickChild(0)));
    assert_eq!(node.resume(Failure), after(Halt::ResetAll, Next::Finish(Success)));
    assert_eq!(node.tick(&mut status, 1), go(Next::TickChild(0)));
    assert_eq!(node.resume(Running), go(Next::Finish(Running)));
}

#[test]
fn repeat_counts_cycles() {
    let mut node = Repeat::new();
    let mut status = Idle;
    assert_eq!(node.tick(&mut status, 1, 2), go(Next::TickChild(0)));
    assert_eq!(node.resume(Success), after(Halt::ResetAll, Next::Finish(Running)));
    assert_eq!(node.tick(&mut status, 1, 2), go(Next::TickChild(0)));
    assert_eq!(node.resume(Success), after(Halt::ResetAll, Next::Finish(Running)));
    assert_eq!(node.tick(&mut status, 1, 2), go(Next::Finish(Success)));
}

#[test]
fn retry_gives_up() {
    let mut node = Retry::new();
    let mut status = Idle;
    assert_eq!(node.tick(&mut status, 1, 2), go(Next::TickChild(0)));
    assert_eq!(node.resume(Failure), go(Next::Finish(Running)));
    assert_eq!(node.tick(&mut status, 1, 2), go(Next::TickChild(0)));
    assert_eq!(node.resume(Failure), go(Next::Finish(Running)));
    assert_eq!(node.tick(&mut status, 1, 2), go(Next::Finish(Failure)));
    // after giving up it tries again
    assert_eq!(node.tick(&mut status, 1, 2), go(Next::TickChild(0)));
    assert_eq!(node.resume(Success), after(Halt::ResetAll, Next::Finish(Success)));
}

#[test]
fn parallel_thresholds() {
    let node = Parallel::new();
    assert_eq!(node.success_threshold(3), 3);
    assert_eq!(node.failure_threshold(3), 3);
    let mut node = Parallel::new();
    assert_eq!(node.tick(2, 1, 3), go(Next::TickChild(0)));
    assert_eq!(node.success_threshold(3), 2);
    assert_eq!(node.failure_threshold(3), 1);
    let mut node = Parallel::new();
    assert_eq!(node.tick(-2, 1, 3), go(Next::TickChild(0)));
    assert_eq!(node.success_threshold(3), 2);
    let mut node = Parallel::new();
    assert_eq!(node.tick(4, 1, 3), go(Next::Fail(Fault::ParallelNeverSucceed)));
}

#[test]
fn parallel_all_completes_every_child() {
    let mut node = ParallelAll::new();
    assert_eq!(node.tick(1, 2), go(Next::TickChild(0)));
    assert_eq!(node.resume(Failure), go(Next::TickChild(1)));
    assert_eq!(node.resume(Running), go(Next::Finish(Running)));
    // the failed child is not ticked again
    assert_eq!(node.tick(1, 2), go(Next::TickChild(1)));
    assert_eq!(node.resume(Success), after(Halt::ResetAll, Next::Finish(Failure)));
    let mut node = ParallelAll::new();
    assert_eq!(node.tick(3, 2), go(Next::Fail(Fault::ParallelAllNeverFail)));
}

#[test]
fn halting_restarts() {
    let mut node = Sequence::new();
    let mut status = Idle;
    assert_eq!(node.tick(&mut status, 2), go(Next::TickChild(0)));
    assert_eq!(node.resume(Success), go(Next::TickChild(1)));
    assert_eq!(node.resume(Running), go(Next::Finish(Running)));
    assert_eq!(node.halt(), Halt::ResetAll);
    let _ = BehaviorStatus::Idle;
    assert_eq!(node.tick(&mut status, 2), go(Next::TickChild(0)));
}

#[test]
fn parallel_counts_successes_and_failures() {
    let mut node = Parallel::new();
    assert_eq!(node.tick(2, 1, 2), go(Next::TickChild(0)));
    assert_eq!(node.resume(Success), go(Next::TickChild(1)));
    assert_eq!(node.resume(Success), after(Halt::ResetAll, Next::Finish(Success)));
    let mut node = Parallel::new();
    assert_eq!(node.tick(2, 1, 2), go(Next::TickChild(0)));
    assert_eq!(node.resume(Failure), after(Halt::ResetAll, Next::Finish(Failure)));
}

#[test]
fn halt_ranges() {
    assert_eq!(Halt::Keep.range(3), (0, 0, false));
    assert_eq!(Halt::ResetAll.range(3), (0, 3, false));
    assert_eq!(Halt::HaltOne(1).range(3), (1, 2, false));
    assert_eq!(Halt::HaltOne(5).range(3), (3, 3, false));
    assert_eq!(Halt::HaltOneThenReset(2).range(3), (2, 3, true));
    assert_eq!(Halt::HaltBefore(2).range(3), (0, 2, false));
    assert_eq!(Halt::HaltAfter(0).range(3), (1, 3, false));
    assert_eq!(Halt::HaltAfter(usize::MAX).range(3), (3, 3, false));
    assert_eq!(Halt::HaltFrom(1).range(3), (1, 3, false));
}

#[test]
fn reactive_fallback_goes_past_a_running_child() {
    let mut node = ReactiveFallback::new();
    let mut status = Idle;
    assert_eq!(node.tick(&mut status, 2), go(Next::TickChild(0)));
    assert_eq!(node.resume(Running), go(Next::TickChild(1)));
    assert_eq!(node.resume(Success), after(Halt::ResetAll, Next::Finish(Success)));
}

#[test]
fn reactive_fallback_keeps_running_child_when_none_succeeds() {
    let mut node = ReactiveFallback::new();
    let mut status = Idle;
    assert_eq!(node.tick(&mut status, 2), go(Next::TickChild(0)));
    assert_eq!(node.resume(Running), go(Next::TickChild(1)));
    assert_eq!(node.resume(Failure), go(Next::Finish(Running)));
    // every tick starts again at the first child
    assert_eq!(node.tick(&mut status, 2), go(Next::TickChild(0)));
    assert_eq!(node.resume(Failure), go(Next::TickChild(1)));
    assert_eq!(node.resume(Failure), after(Halt::ResetAll, Next::Finish(Failure)));
}

/// Runs one tick of an if-then-else node whose statement answers `c`, whose
/// second child answers `t` and whose third child, if any, fails.
fn ite_tick(node: &mut IfThenElse, n: usize, c: BehaviorStatus, t: BehaviorStatus) -> Next {
    let mut status = Idle;
    let mut step = node.tick(&mut status, n);
    loop {
        match step.next {
            Next::TickChild(0) => step = node.resume(c),
            Next::TickChild(1) => step = node.resume(t),
            Next::TickChild(_) => step = node.resume(Failure),
            other => return other,
        }
    }
}

#[test]
fn if_then_else_with_two_children_acts_as_with_a_failing_third() {
    let answers = [
        (Failure, Success),
        (Success, Running),
        (Failure, Failure),
        (Success, Running),
        (Success, Success),
        (Running, Success),
        (Failure, Running),
        (Success, Failure),
    ];
    let mut two = IfThenElse::new();
    let mut three = IfThenElse::new();
    for (c, t) in answers {
        assert_eq!(ite_tick(&mut two, 2, c, t), ite_tick(&mut three, 3, c, t));
    }
}
