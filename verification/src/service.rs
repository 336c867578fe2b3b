//! The middleware itself: a wrapper around an inner handler that enforces a
//! fixed per-request deadline.
//!
//! The decisions the middleware makes are functions here: how an inner
//! readiness report is propagated, and how accepting a request arms the race.
//! The surrounding glue polls the real inner handler and the real timer and
//! feeds each observation in.

use vstd::prelude::*;

use crate::errors::WrappedError;
use crate::race::HandlerFuture;
use crate::race::PollState;
use crate::race::ResponseFuture;

verus! {

/// How the middleware propagates the inner handler's readiness report: a
/// pending report passes through as pending, a ready success as success, and
/// a ready error is converted into the envelope and surfaced immediately. No
/// timer takes part in readiness.
pub open spec fn ready_decision<E>(inner: PollState<Result<(), E>>) -> PollState<
    Result<(), WrappedError<E>>,
> {
    match inner {
        PollState::Pending => PollState::Pending,
        PollState::Ready(Ok(())) => PollState::Ready(Ok(())),
        PollState::Ready(Err(e)) => PollState::Ready(Err(WrappedError::Inner(e))),
    }
}

/// The timeout middleware: the wrapped inner handler together with the fixed
/// deadline, set once at construction. An instance holds no other state; each
/// accepted request gets a race of its own.
#[derive(Clone, Debug)]
pub struct MyService<S> {
    /// The wrapped inner handler: an opaque, cloneable handle shared across
    /// concurrent requests.
    pub inner: S,
    /// The fixed deadline, in ticks. Every request's timer is armed with this
    /// value; it is not reconfigurable per request.
    pub deadline: u64,
}

/// Builds the middleware around an inner handler, carrying the one
/// configuration parameter: the fixed deadline.
#[derive(Clone, Copy, Debug)]
pub struct MyLayer {
    /// The deadline, in ticks, every wrapped service will enforce.
    pub deadline: u64,
}

impl MyLayer {
    pub fn new(deadline: u64) -> (r: Self)
        ensures
            r.deadline == deadline,
    {
        MyLayer { deadline }
    }

    /// Wrap an inner handler, handing it the configured deadline.
    pub fn layer<S>(&self, inner: S) -> (r: MyService<S>)
        ensures
            r.inner == inner,
            r.deadline == self.deadline,
    {
        MyService { inner, deadline: self.deadline }
    }
}

impl<S> MyService<S> {
    pub fn new(inner: S, deadline: u64) -> (r: Self)
        ensures
            r.inner == inner,
            r.deadline == deadline,
    {
        MyService { inner, deadline }
    }

    /// The readiness decision, made on the inner handler's report. The
    /// middleware itself is left untouched and no timer is started: the
    /// deadline clock only runs once a request has been accepted.
    pub fn poll_ready<E>(&self, inner: PollState<Result<(), E>>) -> (r: PollState<
        Result<(), WrappedError<E>>,
    >)
        ensures
            r == ready_decision(inner),
    {
        match inner {
            PollState::Pending => PollState::Pending,
            PollState::Ready(result) => match result {
                Ok(()) => PollState::Ready(Ok(())),
                Err(e) => PollState::Ready(Err(WrappedError::Inner(e))),
            },
        }
    }

    /// Accept one request: take the pending computation the inner handler
    /// produced for it and arm a fresh timer with the configured deadline,
    /// beginning at invocation time. The computation itself is passed through
    /// untouched; the race decides the outcome.
    pub fn call<T, E>(&self, response: HandlerFuture<T, E>) -> (f: ResponseFuture<T, E>)
        ensures
            f.response == response,
            f.deadline == self.deadline,
    {
        ResponseFuture::new(response, self.deadline)
    }
}

/// The one endpoint behind the middleware: it answers every request with a
/// fixed greeting.
pub fn hello() -> (r: String)
    ensures
        r@ == "Hello"@,
{
    "Hello".to_owned()
}

} // verus!
