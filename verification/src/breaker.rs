//! The executable breaker and the policies of its three states.

use vstd::prelude::*;
use crate::error::MyError;
use crate::model::{BreakerView, Signal, State, Step};

verus! {

/// How a timed attempt at the guarded operation ended.
#[derive(Debug, PartialEq, Eq)]
pub enum Outcome<R, E> {
    /// The operation returned this success value before the deadline.
    Success(R),
    /// The operation returned this failure value before the deadline.
    Failure(E),
    /// No result arrived before the deadline.
    TimedOut,
}

impl<R, E> Outcome<R, E> {
    /// The outcome of an attempt from what had arrived when the wait for it
    /// ended: the result of the operation, or nothing. Nothing counts as a
    /// timeout, whatever kept the result from arriving.
    pub fn received(arrived: Option<Result<R, E>>) -> (outcome: Self)
        ensures
            outcome == match arrived {
                Some(Ok(value)) => Outcome::Success(value),
                Some(Err(error)) => Outcome::Failure(error),
                None => Outcome::TimedOut,
            },
    {
        match arrived {
            Some(Ok(value)) => Outcome::Success(value),
            Some(Err(error)) => Outcome::Failure(error),
            None => Outcome::TimedOut,
        }
    }

    /// The outcome without its payload.
    pub open spec fn signal(self) -> Signal {
        match self {
            Outcome::Success(_) => Signal::Success,
            Outcome::Failure(_) => Signal::Failure,
            Outcome::TimedOut => Signal::Timeout,
        }
    }

    /// What the caller is told of an attempt that ended in this outcome.
    pub open spec fn reply(self) -> Result<R, MyError<E>> {
        match self {
            Outcome::Success(value) => Ok(value),
            Outcome::Failure(error) => Err(MyError::FunctionError(error)),
            Outcome::TimedOut => Err(MyError::TimeoutError),
        }
    }
}

/// A circuit breaker, owned and driven by one caller.
#[derive(Debug)]
pub struct CircuitBreaker {
    state: State,
    failure_threshold: u32,
    failure_count: u64,
    last_failure_time: u64,
    timeout: u64,
    recovery_time: u64,
    open_success_count: u64,
    open_threshold_count: u64,
}

impl View for CircuitBreaker {
    type V = BreakerView;

    closed spec fn view(&self) -> BreakerView {
        BreakerView {
            state: self.state,
            failure_threshold: self.failure_threshold,
            failure_count: self.failure_count as nat,
            last_failure_time: self.last_failure_time,
            timeout: self.timeout,
            recovery_time: self.recovery_time,
            open_success_count: self.open_success_count as nat,
            open_threshold_count: self.open_threshold_count,
        }
    }
}

impl CircuitBreaker {
    /// Every breaker meets the invariant of the model at all times.
    #[verifier::type_invariant]
    spec fn inv(self) -> bool {
        self@.wf()
    }

    /// What a call is told when it finds the breaker open: `Ok(None)` if that
    /// call moved the breaker to half open, a timeout error if it did not.
    pub open spec fn rejection<R, E>(probing: bool) -> Result<Option<R>, MyError<E>> {
        if probing {
            Ok(None)
        } else {
            Err(MyError::TimeoutError)
        }
    }

    /// The breaker `after` is the breaker `before` once a call has attempted the
    /// operation, seen it end in `outcome` and then read the time `now`.
    pub open spec fn attempted<R, E>(
        before: BreakerView,
        after: BreakerView,
        outcome: Outcome<R, E>,
        now: u64,
    ) -> bool {
        after == before.after_call(Step { signal: outcome.signal(), now })
    }

    /// What a call is told when its attempt ended in `outcome`.
    pub open spec fn answer<R, E>(outcome: Outcome<R, E>) -> Result<Option<R>, MyError<E>> {
        match outcome {
            Outcome::Success(value) => Ok(Some(value)),
            Outcome::Failure(error) => Err(MyError::FunctionError(error)),
            Outcome::TimedOut => Err(MyError::TimeoutError),
        }
    }

    /// A breaker with the given policy: closed, with no failure on record.
    ///
    /// `failure_threshold` is the number of consecutive failures that must be
    /// exceeded to trip the breaker, `timeout` the deadline of one attempt and
    /// `recovery_time` the time the breaker stays open after the last failure,
    /// both in milliseconds, and `open_threshold_count` the number of
    /// consecutive successful probes that close it again. Every value is
    /// accepted, zero included.
    pub fn new(
        failure_threshold: u32,
        timeout: u64,
        recovery_time: u64,
        open_threshold_count: u64,
    ) -> (breaker: Self)
        ensures
            breaker@ == BreakerView::initial(
                failure_threshold,
                timeout,
                recovery_time,
                open_threshold_count,
            ),
    {
        CircuitBreaker {
            state: State::Closed,
            failure_threshold,
            failure_count: 0,
            last_failure_time: 0,
            recovery_time,
            timeout,
            open_success_count: 0,
            open_threshold_count,
        }
    }

    /// Records a failure at time `now` that trips the breaker at once and
    /// clears the probe count.
    fn trip(&mut self, now: u64)
        ensures
            final(self)@ == old(self)@.tripped(now),
    {
        *self = CircuitBreaker {
            state: State::Open,
            failure_count: 1,
            last_failure_time: now,
            open_success_count: 0,
            ..*self
        };
    }

    /// The policy of `HalfOpen`, applied to the outcome of a probe that was
    /// observed at time `now`.
    pub fn handle_half_open_state<R, E>(
        &mut self,
        outcome: Outcome<R, E>,
        now: u64,
    ) -> (res: Result<R, MyError<E>>)
        requires
            old(self)@.state is HalfOpen,
        ensures
            final(self)@ == old(self)@.on_half_open(outcome.signal(), now),
            final(self)@.wf(),
            res == outcome.reply(),
    {
        proof {
            use_type_invariant(&*self);
        }
        match outcome {
            Outcome::Success(data) => {
                let successes: u64 = self.open_success_count + 1;
                if successes >= self.open_threshold_count {
                    *self = CircuitBreaker {
                        state: State::Closed,
                        open_success_count: 0,
                        failure_count: 0,
                        ..*self
                    };
                } else {
                    self.open_success_count = successes;
                }
                Ok(data)
            },
            Outcome::Failure(e) => {
                self.trip(now);
                Err(MyError::FunctionError(e))
            },
            Outcome::TimedOut => {
                self.trip(now);
                Err(MyError::TimeoutError)
            },
        }
    }

    /// The policy of `Closed`, applied to the outcome of an attempt that was
    /// observed at time `now`.
    pub fn handle_closed_state<R, E>(
        &mut self,
        outcome: Outcome<R, E>,
        now: u64,
    ) -> (res: Result<R, MyError<E>>)
        requires
            old(self)@.state is Closed,
        ensures
            final(self)@ == old(self)@.on_closed(outcome.signal(), now),
            final(self)@.wf(),
            res == outcome.reply(),
    {
        proof {
            use_type_invariant(&*self);
        }
        match outcome {
            Outcome::Success(data) => {
                self.failure_count = 0;
                Ok(data)
            },
            Outcome::Failure(e) => {
                let failures: u64 = self.failure_count + 1;
                let state = if failures > self.failure_threshold as u64 {
                    State::Open
                } else {
                    State::Closed
                };
                *self = CircuitBreaker {
                    state,
                    failure_count: failures,
                    last_failure_time: now,
                    ..*self
                };
                Err(MyError::FunctionError(e))
            },
            Outcome::TimedOut => {
                self.trip(now);
                Err(MyError::TimeoutError)
            },
        }
    }

    /// The policy of `Open`, applied at time `now`. No attempt is made. Once the
    /// time elapsed since the last failure has reached the recovery time the
    /// breaker becomes half open and the call is answered with `Ok`; the call
    /// that finds this out is itself not attempted. Before that the breaker
    /// stays as it is and the call is answered with a timeout error.
    pub fn handle_open_state<E>(&mut self, now: u64) -> (res: Result<(), MyError<E>>)
        requires
            old(self)@.state is Open,
        ensures
            final(self)@ == old(self)@.on_open(now),
            final(self)@.wf(),
            res == if old(self)@.may_probe(now) {
                Ok::<(), MyError<E>>(())
            } else {
                Err::<(), MyError<E>>(MyError::TimeoutError)
            },
    {
        proof {
            use_type_invariant(&*self);
        }
        if now >= self.last_failure_time && now - self.last_failure_time >= self.recovery_time {
            *self = CircuitBreaker {
                state: State::HalfOpen,
                open_success_count: 0,
                failure_count: 0,
                ..*self
            };
            Ok(())
        } else {
            Err(MyError::TimeoutError)
        }
    }

    /// Makes one guarded call.
    ///
    /// `attempt` stands for the guarded operation under the timed-call
    /// protocol: given the deadline in milliseconds it runs the operation once
    /// and says how that ended. `clock` reads the current time in milliseconds
    /// since the epoch.
    ///
    /// While the breaker is open `attempt` is not invoked, and so nothing is
    /// required of it then: the call is answered from the clock alone, with
    /// `Ok(None)` if it moved the breaker to half open and with a timeout error
    /// otherwise. While it is closed or half open `attempt` is invoked once
    /// with the breaker's timeout, the clock is read after it has returned, and
    /// the policy of the state decides.
    pub fn call<C, F, R, E>(&mut self, clock: C, attempt: F) -> (res: Result<Option<R>, MyError<E>>)
        where
            C: FnOnce() -> u64,
            F: FnOnce(u64) -> Outcome<R, E>,
        requires
            call_requires(clock, ()),
            old(self)@.state !is Open ==> call_requires(attempt, (old(self)@.timeout,)),
        ensures
            final(self)@.wf(),
            old(self)@.state is Open ==> exists|now: u64|
                {
                    &&& call_ensures(clock, (), now)
                    &&& final(self)@ == old(self)@.on_open(now)
                    &&& res == Self::rejection::<R, E>(old(self)@.may_probe(now))
                },
            old(self)@.state !is Open ==> exists|outcome: Outcome<R, E>, now: u64|
                {
                    &&& call_ensures(attempt, (old(self)@.timeout,), outcome)
                    &&& call_ensures(clock, (), now)
                    &&& #[trigger] Self::attempted(old(self)@, final(self)@, outcome, now)
                    &&& res == Self::answer(outcome)
                },
    {
        match self.state {
            State::Open => {
                let now: u64 = clock();
                match self.handle_open_state::<E>(now) {
                    Ok(()) => Ok(None),
                    Err(e) => Err(e),
                }
            },
            State::Closed => {
                let outcome = attempt(self.timeout);
                let ghost seen = outcome;
                let now: u64 = clock();
                let handled = self.handle_closed_state(outcome, now);
                assert(Self::attempted(old(self)@, self@, seen, now));
                match handled {
                    Ok(data) => Ok(Some(data)),
                    Err(e) => Err(e),
                }
            },
            State::HalfOpen => {
                let outcome = attempt(self.timeout);
                let ghost seen = outcome;
                let now: u64 = clock();
                let handled = self.handle_half_open_state(outcome, now);
                assert(Self::attempted(old(self)@, self@, seen, now));
                match handled {
                    Ok(data) => Ok(Some(data)),
                    Err(e) => Err(e),
                }
            },
        }
    }

    /// The state the next call will find. The breaker it is read from meets
    /// the invariant of the model, as every breaker does.
    pub fn state(&self) -> (state: State)
        ensures
            state == self@.state,
            self@.wf(),
    {
        proof {
            use_type_invariant(self);
        }
        self.state
    }

    /// The number of consecutive failures on record.
    pub fn failure_count(&self) -> (count: u64)
        ensures
            count == self@.failure_count,
    {
        self.failure_count
    }

    /// When the most recent failure or timeout was recorded, in milliseconds
    /// since the epoch; zero if there was none.
    pub fn last_failure_time(&self) -> (time: u64)
        ensures
            time == self@.last_failure_time,
    {
        self.last_failure_time
    }

    /// The number of consecutive successful probes counted in the current
    /// half-open episode; zero whenever the breaker is not half open.
    pub fn open_success_count(&self) -> (count: u64)
        ensures
            count == self@.open_success_count,
    {
        self.open_success_count
    }

    /// The number of consecutive failures that must be exceeded to trip the breaker.
    pub fn failure_threshold(&self) -> (threshold: u32)
        ensures
            threshold == self@.failure_threshold,
    {
        self.failure_threshold
    }

    /// The deadline of a single attempt, in milliseconds.
    pub fn timeout(&self) -> (millis: u64)
        ensures
            millis == self@.timeout,
    {
        self.timeout
    }

    /// How long the breaker stays open after the last failure, in milliseconds.
    pub fn recovery_time(&self) -> (millis: u64)
        ensures
            millis == self@.recovery_time,
    {
        self.recovery_time
    }

    /// The number of consecutive successful probes that close the breaker.
    pub fn open_threshold_count(&self) -> (threshold: u64)
        ensures
            threshold == self@.open_threshold_count,
    {
        self.open_threshold_count
    }
}

} // verus!
