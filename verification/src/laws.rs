//! What holds of the breaker over single calls and over sequences of calls.

use vstd::prelude::*;
use crate::model::{BreakerView, Signal, State, Step};

verus! {

/// Every step of `steps` carries the signal `signal`.
pub open spec fn all_signal(steps: Seq<Step>, signal: Signal) -> bool {
    forall|i: int| 0 <= i < steps.len() ==> (#[trigger] steps[i]).signal == signal
}

/// A call never changes the policy values, keeps the invariant of the breaker
/// and moves only along the edges of the state machine: from `Closed` to
/// `Closed` or `Open`, from `Open` to `Open` or `HalfOpen`, from `HalfOpen`
/// anywhere.
pub proof fn lemma_call_keeps_invariant(b: BreakerView, step: Step)
    requires
        b.wf(),
    ensures
        b.after_call(step).wf(),
        b.after_call(step).same_policy(b),
        b.state is Closed ==> b.after_call(step).state !is HalfOpen,
        b.state is Open ==> b.after_call(step).state !is Closed,
{
}

/// The time of the last failure changes only when an attempt fails or times
/// out, and then becomes the time of that call. A success never records a time,
/// and neither does a call that finds the breaker open.
pub proof fn lemma_failure_time_only_on_failure(b: BreakerView, step: Step)
    ensures
        b.state !is Open && step.signal !is Success ==> b.after_call(step).last_failure_time
            == step.now,
        b.state is Open || step.signal is Success ==> b.after_call(step).last_failure_time
            == b.last_failure_time,
{
}

/// The failure count is zero after every successful attempt and whenever the
/// breaker has just become half open.
pub proof fn lemma_failure_count_resets(b: BreakerView, step: Step)
    requires
        b.wf(),
    ensures
        b.state !is Open && step.signal is Success ==> b.after_call(step).failure_count == 0,
        b.state is Open && b.after_call(step).state is HalfOpen ==> b.after_call(
            step,
        ).failure_count == 0 && b.after_call(step).open_success_count == 0,
{
}

/// The probe count belongs to the half-open episode alone: it is zero whenever
/// the breaker is closed or open, and so on every way out of `HalfOpen`, to
/// `Closed` as well as to `Open`, and on the way in.
pub proof fn lemma_probe_count_only_while_half_open(b: BreakerView, step: Step)
    requires
        b.wf(),
    ensures
        b.state !is HalfOpen ==> b.open_success_count == 0,
        b.after_call(step).state !is HalfOpen ==> b.after_call(step).open_success_count == 0,
        b.state !is HalfOpen && b.after_call(step).state is HalfOpen ==> b.after_call(
            step,
        ).open_success_count == 0,
{
}

/// Whatever calls are made, in whatever order and with whatever outcomes, the
/// breaker keeps its policy values and its invariant.
pub proof fn lemma_run_keeps_invariant(b: BreakerView, steps: Seq<Step>)
    requires
        b.wf(),
    ensures
        b.run(steps).wf(),
        b.run(steps).same_policy(b),
    decreases steps.len(),
{
    if steps.len() > 0 {
        lemma_run_keeps_invariant(b, steps.drop_last());
        lemma_call_keeps_invariant(b.run(steps.drop_last()), steps.last());
    }
}

/// While closed, failures that do not take the count beyond the threshold
/// are counted one by one and leave the breaker closed.
pub proof fn lemma_failures_accumulate(b: BreakerView, steps: Seq<Step>)
    requires
        b.state is Closed,
        all_signal(steps, Signal::Failure),
        b.failure_count + steps.len() <= b.failure_threshold,
    ensures
        b.run(steps) == (BreakerView {
            failure_count: b.failure_count + steps.len(),
            last_failure_time: if steps.len() == 0 {
                b.last_failure_time
            } else {
                steps.last().now
            },
            ..b
        }),
    decreases steps.len(),
{
    if steps.len() > 0 {
        lemma_failures_accumulate(b, steps.drop_last());
    }
}

/// A closed breaker trips on the failure that takes the count of consecutive
/// failures beyond the threshold, and on no earlier one: starting from a count
/// of zero, on failure number `failure_threshold + 1`.
pub proof fn lemma_failures_trip_beyond_threshold(b: BreakerView, steps: Seq<Step>)
    requires
        b.wf(),
        b.state is Closed,
        all_signal(steps, Signal::Failure),
        b.failure_count + steps.len() == b.failure_threshold + 1,
    ensures
        forall|k: int| 0 <= k < steps.len() ==> (#[trigger] b.run(steps.take(k))).state is Closed,
        b.run(steps).state is Open,
        b.run(steps).failure_count == b.failure_threshold + 1,
        b.run(steps).last_failure_time == steps.last().now,
{
    assert forall|k: int| 0 <= k < steps.len() implies (#[trigger] b.run(steps.take(k))).state
        is Closed by {
        lemma_failures_accumulate(b, steps.take(k));
    }
    lemma_failures_accumulate(b, steps.drop_last());
}

/// A single timeout trips a breaker that is closed or half open, whatever its
/// failure count was, and leaves exactly one failure on record and no probe
/// count.
pub proof fn lemma_timeout_trips(b: BreakerView, now: u64)
    requires
        b.state !is Open,
    ensures
        b.after_call(Step { signal: Signal::Timeout, now }) == b.tripped(now),
        b.tripped(now).state is Open,
        b.tripped(now).failure_count == 1,
        b.tripped(now).last_failure_time == now,
        b.tripped(now).open_success_count == 0,
{
}

/// While half open, successful probes that do not take the count up to the
/// probe threshold are counted one by one and leave the breaker half open.
pub proof fn lemma_probes_accumulate(b: BreakerView, steps: Seq<Step>)
    requires
        b.state is HalfOpen,
        all_signal(steps, Signal::Success),
        b.open_success_count + steps.len() < b.open_threshold_count,
    ensures
        b.run(steps) == (BreakerView {
            open_success_count: b.open_success_count + steps.len(),
            ..b
        }),
    decreases steps.len(),
{
    if steps.len() > 0 {
        lemma_probes_accumulate(b, steps.drop_last());
    }
}

/// A half-open breaker with a probe threshold of at least one closes on the
/// successful probe that takes the count of consecutive successes up to the
/// threshold, and on no earlier one; both counters are then zero.
pub proof fn lemma_probes_close_at_threshold(b: BreakerView, steps: Seq<Step>)
    requires
        b.wf(),
        b.state is HalfOpen,
        all_signal(steps, Signal::Success),
        b.open_threshold_count >= 1,
        b.open_success_count + steps.len() == b.open_threshold_count,
    ensures
        forall|k: int| 0 <= k < steps.len() ==> (#[trigger] b.run(steps.take(k))).state is HalfOpen,
        b.run(steps) == (BreakerView {
            state: State::Closed,
            open_success_count: 0,
            failure_count: 0,
            ..b
        }),
{
    assert forall|k: int| 0 <= k < steps.len() implies (#[trigger] b.run(steps.take(k))).state
        is HalfOpen by {
        lemma_probes_accumulate(b, steps.take(k));
    }
    lemma_probes_accumulate(b, steps.drop_last());
}

/// A probe that fails or times out trips a half-open breaker at once, however
/// many probes had succeeded before it: the breaker is then open with one
/// failure on record, at the time of that call, and its probe count is zero.
pub proof fn lemma_failed_probe_trips(b: BreakerView, step: Step)
    requires
        b.state is HalfOpen,
        step.signal !is Success,
    ensures
        b.after_call(step) == b.tripped(step.now),
        b.after_call(step).state is Open,
        b.after_call(step).failure_count == 1,
        b.after_call(step).last_failure_time == step.now,
        b.after_call(step).open_success_count == 0,
{
}

/// An open breaker becomes half open, with both counters at zero and the time
/// of the last failure untouched, on the first call made once the recovery
/// window has passed.
pub proof fn lemma_open_leaves_when_due(b: BreakerView, step: Step)
    requires
        b.state is Open,
        b.may_probe(step.now),
    ensures
        b.after_call(step) == (BreakerView {
            state: State::HalfOpen,
            failure_count: 0,
            open_success_count: 0,
            ..b
        }),
{
}

/// An open breaker stays exactly as it is through every call made before the
/// recovery window has passed, whatever the attempts would have given: each of
/// these calls finds the breaker as the first one found it.
pub proof fn lemma_open_holds_until_due(b: BreakerView, steps: Seq<Step>)
    requires
        b.state is Open,
        forall|i: int| 0 <= i < steps.len() ==> !b.may_probe((#[trigger] steps[i]).now),
    ensures
        forall|k: int| 0 <= k <= steps.len() ==> #[trigger] b.run(steps.take(k)) == b,
        b.run(steps) == b,
    decreases steps.len(),
{
    if steps.len() > 0 {
        lemma_open_holds_until_due(b, steps.drop_last());
    }
    assert forall|k: int| 0 <= k <= steps.len() implies #[trigger] b.run(steps.take(k)) == b by {
        if k < steps.len() {
            assert(steps.take(k) == steps.drop_last().take(k));
        } else {
            assert(steps.take(k) == steps);
        }
    }
}

} // verus!
