use timeout_middleware::errors::{handle_error, MyError, WrappedError};
use timeout_middleware::race::{poll_race, HandlerFuture, PollState, ResponseFuture};
use timeout_middleware::independence::run_interleaved;
use timeout_middleware::service::{hello, MyLayer, MyService};

#[test]
fn fast_success_passes_through() {
    // The concrete scenario: deadline 15, handler succeeds after 1 tick.
    let f: ResponseFuture<String, u8> =
        ResponseFuture::new(HandlerFuture::Completes { at: 1, result: Ok(hello()) }, 15);
    let (at, outcome) = f.run();
    assert_eq!(at, 1);
    assert_eq!(outcome, Ok("Hello".to_string()));
}

#[test]
fn never_completing_handler_times_out() {
    let f: ResponseFuture<String, u8> = ResponseFuture::new(HandlerFuture::Never, 15);
    let (at, outcome) = f.run();
    assert_eq!(at, 15);
    assert_eq!(outcome, Err(WrappedError::Timeout(MyError {})));
}

#[test]
fn slow_success_times_out() {
    // Whatever the handler would eventually produce is irrelevant once the
    // deadline has fired first.
    let f: ResponseFuture<&str, u8> =
        ResponseFuture::new(HandlerFuture::Completes { at: 20, result: Ok("late") }, 15);
    let (at, outcome) = f.run();
    assert_eq!(at, 15);
    assert_eq!(outcome, Err(WrappedError::Timeout(MyError {})));
}

#[test]
fn tie_goes_to_the_handler() {
    // Handler ready in the very tick the deadline fires: its result wins.
    let f: ResponseFuture<&str, u8> =
        ResponseFuture::new(HandlerFuture::Completes { at: 15, result: Ok("just in time") }, 15);
    let (at, outcome) = f.run();
    assert_eq!(at, 15);
    assert_eq!(outcome, Ok("just in time"));
}

#[test]
fn tie_with_failing_handler_is_inner_error_not_timeout() {
    let f: ResponseFuture<&str, u8> =
        ResponseFuture::new(HandlerFuture::Completes { at: 15, result: Err(9) }, 15);
    let (at, outcome) = f.run();
    assert_eq!(at, 15);
    assert_eq!(outcome, Err(WrappedError::Inner(9)));
}

#[test]
fn inner_failure_converts_losslessly() {
    let f: ResponseFuture<&str, String> = ResponseFuture::new(
        HandlerFuture::Completes { at: 3, result: Err("database gone".to_string()) },
        15,
    );
    let (at, outcome) = f.run();
    assert_eq!(at, 3);
    assert_eq!(outcome, Err(WrappedError::Inner("database gone".to_string())));
}

#[test]
fn zero_deadline_still_favors_immediate_handler() {
    let f: ResponseFuture<&str, u8> =
        ResponseFuture::new(HandlerFuture::Completes { at: 0, result: Ok("instant") }, 0);
    let (at, outcome) = f.run();
    assert_eq!(at, 0);
    assert_eq!(outcome, Ok("instant"));
}

#[test]
fn zero_deadline_times_out_pending_handler() {
    let f: ResponseFuture<&str, u8> = ResponseFuture::new(HandlerFuture::Never, 0);
    let (at, outcome) = f.run();
    assert_eq!(at, 0);
    assert_eq!(outcome, Err(WrappedError::Timeout(MyError {})));
}

#[test]
fn poll_race_covers_every_combination() {
    // Handler ready with a success: passes through, timer ignored.
    assert_eq!(
        poll_race::<u32, u8>(PollState::Ready(Ok(5)), PollState::Ready(())),
        PollState::Ready(Ok(5))
    );
    // Handler ready with a failure: converted, timer ignored.
    assert_eq!(
        poll_race::<u32, u8>(PollState::Ready(Err(2)), PollState::Pending),
        PollState::Ready(Err(WrappedError::Inner(2)))
    );
    // Handler pending, timer fired: the timeout envelope.
    assert_eq!(
        poll_race::<u32, u8>(PollState::Pending, PollState::Ready(())),
        PollState::Ready(Err(WrappedError::Timeout(MyError {})))
    );
    // Both pending: the race stays pending.
    assert_eq!(
        poll_race::<u32, u8>(PollState::Pending, PollState::Pending),
        PollState::Pending
    );
}

#[test]
fn readiness_propagates_without_a_timer() {
    let service: MyService<()> = MyService::new((), 15);
    // Not ready passes through as not ready.
    assert_eq!(service.poll_ready::<u8>(PollState::Pending), PollState::Pending);
    // Polling again once the inner handler has become ready succeeds.
    assert_eq!(
        service.poll_ready::<u8>(PollState::Ready(Ok(()))),
        PollState::Ready(Ok(()))
    );
    // A readiness error surfaces immediately, converted into the envelope.
    assert_eq!(
        service.poll_ready::<u8>(PollState::Ready(Err(4))),
        PollState::Ready(Err(WrappedError::Inner(4)))
    );
}

#[test]
fn layer_hands_the_deadline_to_the_service() {
    let layer = MyLayer::new(15);
    let service = layer.layer("inner handler");
    assert_eq!(service.deadline, 15);
    assert_eq!(service.inner, "inner handler");
    let f = service.call::<&str, u8>(HandlerFuture::Completes { at: 1, result: Ok("done") });
    assert_eq!(f.deadline, 15);
    let (at, outcome) = f.run();
    assert_eq!(at, 1);
    assert_eq!(outcome, Ok("done"));
}

#[test]
fn concurrent_fast_and_slow_requests_are_independent() {
    let fast: ResponseFuture<&str, u8> =
        ResponseFuture::new(HandlerFuture::Completes { at: 2, result: Ok("fast") }, 15);
    let slow: ResponseFuture<&str, u8> = ResponseFuture::new(HandlerFuture::Never, 15);
    // Alternate strictly: the slow race gets as many steps as the fast one.
    let mut schedule = Vec::new();
    for i in 0..24 {
        schedule.push(i % 2 == 0);
    }
    let (fast_run, slow_run) = run_interleaved(fast, slow, &schedule);
    // The fast request resolved at its own tick, unhindered by the slow one.
    assert_eq!(fast_run.resolved, Some(2));
    // The slow request is still pending: 12 steps, deadline 15.
    assert_eq!(slow_run.resolved, None);
}

#[test]
fn starved_request_resolves_once_scheduled() {
    let a: ResponseFuture<&str, u8> =
        ResponseFuture::new(HandlerFuture::Completes { at: 1, result: Ok("a") }, 15);
    let b: ResponseFuture<&str, u8> =
        ResponseFuture::new(HandlerFuture::Completes { at: 1, result: Ok("b") }, 15);
    // Give every step to the second race first; the first one waits, then
    // resolves exactly as it would have alone.
    let mut schedule = vec![false, false, false, false];
    schedule.extend([true, true, true]);
    let (a_run, b_run) = run_interleaved(a, b, &schedule);
    assert_eq!(a_run.resolved, Some(1));
    assert_eq!(b_run.resolved, Some(1));
}

#[test]
fn handle_error_maps_both_origins_to_internal_error() {
    let timeout: WrappedError<u8> = WrappedError::timeout();
    let (status, message) = handle_error(&timeout);
    assert_eq!(status, 500);
    assert_eq!(message, "Unhandled internal error: deadline exceeded");

    let inner: WrappedError<u8> = WrappedError::from_inner(3);
    let (status, message) = handle_error(&inner);
    assert_eq!(status, 500);
    assert_eq!(message, "Unhandled internal error: inner handler failed");
}

#[test]
fn hello_greets() {
    assert_eq!(hello(), "Hello");
}
