//! The guarantees the middleware gives, stated and proved over the race
//! model: fast successes pass through, slow handlers time out at the
//! deadline, a tie goes to the handler, failures convert losslessly, and
//! readiness propagates without arming a timer.

use vstd::prelude::*;

use crate::errors::MyError;
use crate::errors::WrappedError;
use crate::race::HandlerFuture;
use crate::race::PollState;
use crate::race::ResponseFuture;
use crate::race::race_decision;
use crate::race::wrap_result;
use crate::service::ready_decision;

verus! {

/// Pass-through on fast success: a handler that becomes ready strictly before
/// the deadline with a success resolves the race to exactly that success, at
/// exactly the tick the handler becomes ready — never earlier: every poll
/// before that tick reports pending.
pub proof fn lemma_pass_through_on_fast_success<T, E>(f: ResponseFuture<T, E>, at: u64, v: T)
    requires
        f.response == (HandlerFuture::Completes { at, result: Ok::<T, E>(v) }),
        at < f.deadline,
    ensures
        f.outcome() == Ok::<T, WrappedError<E>>(v),
        f.resolves_at() == at,
        forall|now: u64| now < at ==> f.poll_spec(now) is Pending,
{
    f.lemma_first_resolution();
}

/// Timeout on a slow handler: whatever the handler would eventually produce —
/// a success, a failure, or nothing at all — if it is not ready by the
/// deadline, the race resolves to the timeout envelope, at exactly the
/// deadline.
pub proof fn lemma_timeout_on_slow_handler<T, E>(f: ResponseFuture<T, E>)
    requires
        f.response matches HandlerFuture::Completes { at, .. } ==> at > f.deadline,
    ensures
        f.outcome() == Err::<T, WrappedError<E>>(WrappedError::Timeout(MyError {})),
        f.resolves_at() == f.deadline,
{
}

/// Tie-break favours the handler, at a single poll: when the handler and the
/// timer become ready in the same tick, the decision is the handler's own
/// result, wrapped — never the timeout.
pub proof fn lemma_tie_break_decision<T, E>(result: Result<T, E>)
    ensures
        race_decision(PollState::Ready(result), PollState::Ready(())) == PollState::Ready(
            wrap_result(result),
        ),
        !(race_decision(PollState::Ready(result), PollState::Ready(())) matches PollState::Ready(
            Err(we),
        ) && we is Timeout),
{
}

/// Tie-break favours the handler, over a whole race: a handler that becomes
/// ready exactly at the deadline still wins — the race resolves to its
/// result, wrapped, never to the timeout.
pub proof fn lemma_tie_break_favors_handler<T, E>(f: ResponseFuture<T, E>, result: Result<T, E>)
    requires
        f.response == (HandlerFuture::Completes { at: f.deadline, result }),
    ensures
        f.outcome() == wrap_result(result),
        f.resolves_at() == f.deadline,
        !(f.outcome() matches Err(we) && we is Timeout),
{
}

/// Error conversion: a handler failure that arrives in time resolves the race
/// to the envelope holding exactly that failure — nothing of it is dropped.
pub proof fn lemma_error_conversion<T, E>(f: ResponseFuture<T, E>, at: u64, e: E)
    requires
        f.response == (HandlerFuture::Completes { at, result: Err::<T, E>(e) }),
        at <= f.deadline,
    ensures
        f.outcome() == Err::<T, WrappedError<E>>(WrappedError::Inner(e)),
{
}

/// Readiness propagation: a pending inner report leaves the middleware
/// pending (and, the readiness decision being a function of the report alone,
/// no timer exists at that point); once a later poll finds the inner handler
/// ready, the middleware reports ready too — a success as a success, an error
/// converted into the envelope.
pub proof fn lemma_readiness_propagation<E>(pending: PollState<Result<(), E>>, e: E)
    requires
        pending is Pending,
    ensures
        ready_decision(pending) is Pending,
        ready_decision(PollState::Ready(Ok::<(), E>(()))) == PollState::Ready(
            Ok::<(), WrappedError<E>>(()),
        ),
        ready_decision(PollState::Ready(Err::<(), E>(e))) == PollState::Ready(
            Err::<(), WrappedError<E>>(WrappedError::Inner(e)),
        ),
{
}

} // verus!
