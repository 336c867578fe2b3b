//! The error taxonomy: a distinguished timeout error, the uniform envelope
//! every failure is normalised into, and the translation of an envelope into
//! a transport-level status and message.

use vstd::prelude::*;

verus! {

/// The distinguished timeout error: the deadline fired before the inner
/// handler completed. It carries no payload beyond its kind.
#[derive(Clone, Copy, Debug, PartialEq, Eq)]
pub struct MyError {}

/// The uniform envelope. Every error leaving the middleware is expressed in
/// this one type, whatever its origin: either the inner handler's own failure,
/// converted, or the timeout.
#[derive(Clone, Debug, PartialEq, Eq)]
pub enum WrappedError<E> {
    /// A failure surfaced by the wrapped handler, carried unchanged.
    Inner(E),
    /// The deadline fired before the handler completed.
    Timeout(MyError),
}

impl<E> WrappedError<E> {
    /// Convert an inner-handler failure into the envelope. Nothing of the
    /// failure is dropped: the envelope holds it unchanged.
    pub fn from_inner(e: E) -> (r: Self)
        ensures
            r == WrappedError::<E>::Inner(e),
    {
        WrappedError::Inner(e)
    }

    /// The envelope value for a fired deadline.
    pub fn timeout() -> (r: Self)
        ensures
            r == WrappedError::<E>::Timeout(MyError {}),
    {
        WrappedError::Timeout(MyError {})
    }
}

/// Translate an envelope into a transport-level response: a fixed
/// internal-error status code together with a human-readable message. Both
/// failure origins map to the same status; the message tells them apart only
/// as internal diagnostics.
pub fn handle_error<E>(error: &WrappedError<E>) -> (r: (u16, String))
    ensures
        r.0 == 500,
        error is Timeout ==> r.1@ == "Unhandled internal error: deadline exceeded"@,
        error is Inner ==> r.1@ == "Unhandled internal error: inner handler failed"@,
{
    match error {
        WrappedError::Timeout(_) => (500, "Unhandled internal error: deadline exceeded".to_owned()),
        WrappedError::Inner(_) => (500, "Unhandled internal error: inner handler failed".to_owned()),
    }
}

} // verus!
