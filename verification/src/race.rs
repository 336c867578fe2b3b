//! The race between the inner handler's pending computation and the deadline
//! timer, modelled over discrete ticks.
//!
//! A raced computation is described by what it reports when polled at a tick:
//! still pending, or ready with a value. The handler is polled first on every
//! wake-up, then the timer, so a handler that becomes ready in the same tick
//! as the deadline wins the race.

use vstd::prelude::*;

use crate::errors::MyError;
use crate::errors::WrappedError;

verus! {

/// What a raced computation reports when polled: not yet ready, or ready with
/// a value.
#[derive(Clone, Copy, Debug, PartialEq, Eq)]
pub enum PollState<T> {
    Pending,
    Ready(T),
}

/// Map the inner handler's own result into the middleware's: a success passes
/// through unchanged, a failure is converted into the envelope.
pub open spec fn wrap_result<T, E>(result: Result<T, E>) -> Result<T, WrappedError<E>> {
    match result {
        Ok(v) => Ok(v),
        Err(e) => Err(WrappedError::Inner(e)),
    }
}

/// The decision one poll of the race makes, given what the handler and the
/// timer each report. The handler is consulted first: only when it is still
/// pending does the timer get a say, so a tie goes to the handler. A fired
/// timer turns into the timeout envelope; two pending reports leave the race
/// pending.
pub open spec fn race_decision<T, E>(
    handler: PollState<Result<T, E>>,
    timer: PollState<()>,
) -> PollState<Result<T, WrappedError<E>>> {
    match handler {
        PollState::Ready(result) => PollState::Ready(wrap_result(result)),
        PollState::Pending => match timer {
            PollState::Ready(_) => PollState::Ready(Err(WrappedError::Timeout(MyError {}))),
            PollState::Pending => PollState::Pending,
        },
    }
}

/// One poll of the race: try the handler first, then the timer.
pub fn poll_race<T, E>(handler: PollState<Result<T, E>>, timer: PollState<()>) -> (r: PollState<
    Result<T, WrappedError<E>>,
>)
    ensures
        r == race_decision(handler, timer),
{
    match handler {
        PollState::Ready(result) => match result {
            Ok(v) => PollState::Ready(Ok(v)),
            Err(e) => PollState::Ready(Err(WrappedError::Inner(e))),
        },
        PollState::Pending => match timer {
            PollState::Ready(_) => PollState::Ready(Err(WrappedError::Timeout(MyError {}))),
            PollState::Pending => PollState::Pending,
        },
    }
}

/// The inner handler's pending computation, described by its behaviour over
/// ticks: it either becomes ready at a fixed tick with a fixed result, or it
/// never becomes ready.
#[derive(Debug, PartialEq, Eq)]
pub enum HandlerFuture<T, E> {
    /// Becomes ready at tick `at` (measured from invocation) with `result`.
    Completes { at: u64, result: Result<T, E> },
    /// Never becomes ready.
    Never,
}

impl<T, E> HandlerFuture<T, E> {
    /// Whether a poll at tick `now` finds this computation ready.
    pub open spec fn ready_at(self, now: u64) -> bool {
        self matches HandlerFuture::Completes { at, .. } && now >= at
    }

    pub fn is_ready(&self, now: u64) -> (r: bool)
        ensures
            r == self.ready_at(now),
    {
        match self {
            HandlerFuture::Completes { at, .. } => now >= *at,
            HandlerFuture::Never => false,
        }
    }
}

/// The race a single accepted request runs: the handler's pending computation
/// against a timer that fires once the fixed deadline has elapsed. Each
/// request owns its own value of this type; nothing here is shared between
/// requests.
#[derive(Debug, PartialEq, Eq)]
pub struct ResponseFuture<T, E> {
    /// The inner handler's pending computation.
    pub response: HandlerFuture<T, E>,
    /// The tick at which the timer fires, measured from invocation time.
    pub deadline: u64,
}

impl<T, E> ResponseFuture<T, E> {
    pub fn new(response: HandlerFuture<T, E>, deadline: u64) -> (r: Self)
        ensures
            r.response == response,
            r.deadline == deadline,
    {
        ResponseFuture { response, deadline }
    }

    /// What the handler reports when polled at tick `now`.
    pub open spec fn handler_poll(self, now: u64) -> PollState<Result<T, E>> {
        if self.response.ready_at(now) {
            PollState::Ready(self.response->result)
        } else {
            PollState::Pending
        }
    }

    /// What the timer reports when polled at tick `now`.
    pub open spec fn timer_poll(self, now: u64) -> PollState<()> {
        if now >= self.deadline {
            PollState::Ready(())
        } else {
            PollState::Pending
        }
    }

    /// What one poll of the whole race reports at tick `now`.
    pub open spec fn poll_spec(self, now: u64) -> PollState<Result<T, WrappedError<E>>> {
        race_decision(self.handler_poll(now), self.timer_poll(now))
    }

    /// The tick at which the race resolves: when the handler becomes ready,
    /// if that is no later than the deadline, and at the deadline otherwise.
    pub open spec fn resolves_at(self) -> u64 {
        match self.response {
            HandlerFuture::Completes { at, .. } => if at <= self.deadline {
                at
            } else {
                self.deadline
            },
            HandlerFuture::Never => self.deadline,
        }
    }

    /// The outcome the race resolves to: the handler's own result, wrapped,
    /// when it becomes ready no later than the deadline (a tie included), and
    /// the timeout envelope otherwise.
    pub open spec fn outcome(self) -> Result<T, WrappedError<E>> {
        match self.response {
            HandlerFuture::Completes { at, result } => if at <= self.deadline {
                wrap_result(result)
            } else {
                Err(WrappedError::Timeout(MyError {}))
            },
            HandlerFuture::Never => Err(WrappedError::Timeout(MyError {})),
        }
    }

    /// The race resolves exactly once: every poll before `resolves_at` reports
    /// pending, and the poll at `resolves_at` reports the outcome.
    pub proof fn lemma_first_resolution(self)
        ensures
            forall|now: u64| now < self.resolves_at() ==> self.poll_spec(now) is Pending,
            self.poll_spec(self.resolves_at()) == PollState::Ready(self.outcome()),
            self.resolves_at() <= self.deadline,
    {
    }

    /// Drive the race to its resolution, polling once per tick from
    /// invocation time, the handler before the timer on every poll. Returns
    /// the tick at which the race resolved together with the outcome.
    pub fn run(self) -> (r: (u64, Result<T, WrappedError<E>>))
        ensures
            r.0 == self.resolves_at(),
            r.1 == self.outcome(),
    {
        let mut now: u64 = 0;
        loop
            invariant
                now <= self.resolves_at(),
                self.resolves_at() <= self.deadline,
            ensures
                now == self.resolves_at(),
            decreases self.deadline - now,
        {
            // Poll the handler first, then the timer: a tie goes to the handler.
            let handler_ready = self.response.is_ready(now);
            let timer_ready = now >= self.deadline;
            if handler_ready || timer_ready {
                break ;
            }
            now = now + 1;
        }
        let result = match self.response {
            HandlerFuture::Completes { at, result } => {
                if at <= now {
                    match result {
                        Ok(v) => Ok(v),
                        Err(e) => Err(WrappedError::Inner(e)),
                    }
                } else {
                    Err(WrappedError::timeout())
                }
            },
            HandlerFuture::Never => Err(WrappedError::timeout()),
        };
        (now, result)
    }
}

} // verus!
