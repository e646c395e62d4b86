//! The mathematical model of the breaker: its states, what one call observes,
//! and the transition taken for each observation.

use vstd::prelude::*;

verus! {

/// The position of the breaker, which alone selects the policy of the next call.
#[derive(Debug, Clone, Copy, PartialEq, Eq, Structural)]
pub enum State {
    /// Tripped: calls are turned away until the recovery window has passed.
    Open,
    /// Normal operation: calls are attempted and consecutive failures counted.
    Closed,
    /// Probation: calls are attempted as probes; any failure trips the breaker again.
    HalfOpen,
}

/// How a timed attempt at the guarded operation ended, without its payload.
pub enum Signal {
    /// The operation returned a success value before the deadline.
    Success,
    /// The operation returned its own failure value before the deadline.
    Failure,
    /// No result arrived before the deadline.
    Timeout,
}

/// What one call observes: how the attempt ended and the time, in milliseconds
/// since the epoch, read for that call. While the breaker is open no attempt is
/// made and the signal plays no part.
pub struct Step {
    pub signal: Signal,
    pub now: u64,
}

/// The breaker as a mathematical value. The policy values and the times, in
/// milliseconds since a fixed epoch, are the machine integers the breaker was
/// given; the two counters are natural numbers.
pub struct BreakerView {
    pub state: State,
    /// Consecutive failures that must be exceeded, while closed, to trip the breaker.
    pub failure_threshold: u32,
    /// Consecutive failures seen so far.
    pub failure_count: nat,
    /// When the most recent failure or timeout was recorded.
    pub last_failure_time: u64,
    /// Deadline of a single attempt, in milliseconds.
    pub timeout: u64,
    /// How long the breaker stays open after the last failure, in milliseconds.
    pub recovery_time: u64,
    /// Consecutive successful probes seen while half open.
    pub open_success_count: nat,
    /// Consecutive successful probes needed to close the breaker.
    pub open_threshold_count: u64,
}

impl BreakerView {
    /// A fresh breaker: closed, with no failure on record.
    pub open spec fn initial(
        failure_threshold: u32,
        timeout: u64,
        recovery_time: u64,
        open_threshold_count: u64,
    ) -> BreakerView {
        BreakerView {
            state: State::Closed,
            failure_threshold,
            failure_count: 0,
            last_failure_time: 0,
            timeout,
            recovery_time,
            open_success_count: 0,
            open_threshold_count,
        }
    }

    /// What holds of every breaker that was built by `initial` and driven by
    /// calls. The probe count is zero unless the breaker is half open. A
    /// closed breaker has not counted more failures than its threshold allows.
    /// A half-open breaker has no failure on record and has not yet counted as
    /// many successful probes as it needs. An open breaker was tripped either
    /// at once, with one failure on record, or by the failure that went beyond
    /// the threshold.
    pub open spec fn wf(self) -> bool {
        match self.state {
            State::Closed => self.failure_count <= self.failure_threshold
                && self.open_success_count == 0,
            State::HalfOpen => self.failure_count == 0 && (self.open_success_count == 0
                || self.open_success_count < self.open_threshold_count),
            State::Open => (self.failure_count == 1 || self.failure_count
                == self.failure_threshold + 1) && self.open_success_count == 0,
        }
    }

    /// The four policy values agree.
    pub open spec fn same_policy(self, other: BreakerView) -> bool {
        &&& self.failure_threshold == other.failure_threshold
        &&& self.timeout == other.timeout
        &&& self.recovery_time == other.recovery_time
        &&& self.open_threshold_count == other.open_threshold_count
    }

    /// Whether an open breaker may leave `Open` at time `now`: the time elapsed
    /// since the last failure has reached the recovery time. The difference is
    /// taken over the integers, so a clock that reads earlier than the last
    /// failure never counts as elapsed time.
    pub open spec fn may_probe(self, now: u64) -> bool {
        now - self.last_failure_time >= self.recovery_time
    }

    /// The breaker tripped at time `now`: open, with exactly one failure on
    /// record and the probe count back at zero.
    pub open spec fn tripped(self, now: u64) -> BreakerView {
        BreakerView {
            state: State::Open,
            failure_count: 1,
            last_failure_time: now,
            open_success_count: 0,
            ..self
        }
    }

    /// The policy of `Open`. No attempt is made. Once the recovery window has
    /// passed the breaker becomes half open with both counters at zero;
    /// before that nothing changes.
    pub open spec fn on_open(self, now: u64) -> BreakerView {
        if self.may_probe(now) {
            BreakerView {
                state: State::HalfOpen,
                open_success_count: 0,
                failure_count: 0,
                ..self
            }
        } else {
            self
        }
    }

    /// The policy of `Closed`. A success clears the failure count. A failure is
    /// counted and trips the breaker once the count exceeds the threshold. A
    /// timeout trips it at once, whatever the count was.
    pub open spec fn on_closed(self, signal: Signal, now: u64) -> BreakerView {
        match signal {
            Signal::Success => BreakerView { state: State::Closed, failure_count: 0, ..self },
            Signal::Failure => BreakerView {
                state: if self.failure_count + 1 > self.failure_threshold {
                    State::Open
                } else {
                    self.state
                },
                failure_count: self.failure_count + 1,
                last_failure_time: now,
                ..self
            },
            Signal::Timeout => self.tripped(now),
        }
    }

    /// The policy of `HalfOpen`. A successful probe is counted and closes the
    /// breaker, with both counters at zero, once the count reaches the probe
    /// threshold. A failure or a timeout trips the breaker at once and clears
    /// the probe count.
    pub open spec fn on_half_open(self, signal: Signal, now: u64) -> BreakerView {
        match signal {
            Signal::Success => if self.open_success_count + 1 >= self.open_threshold_count {
                BreakerView {
                    state: State::Closed,
                    open_success_count: 0,
                    failure_count: 0,
                    ..self
                }
            } else {
                BreakerView { open_success_count: self.open_success_count + 1, ..self }
            },
            Signal::Failure | Signal::Timeout => self.tripped(now),
        }
    }

    /// The breaker after one call, by the state it was in.
    pub open spec fn after_call(self, step: Step) -> BreakerView {
        match self.state {
            State::Open => self.on_open(step.now),
            State::Closed => self.on_closed(step.signal, step.now),
            State::HalfOpen => self.on_half_open(step.signal, step.now),
        }
    }

    /// The breaker after a sequence of calls, the first step first.
    pub open spec fn run(self, steps: Seq<Step>) -> BreakerView
        decreases steps.len(),
    {
        if steps.len() == 0 {
            self
        } else {
            self.run(steps.drop_last()).after_call(steps.last())
        }
    }
}

} // verus!
