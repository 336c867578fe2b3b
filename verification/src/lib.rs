//! A request-timeout middleware, modelled and verified.
//!
//! The middleware wraps an inner request handler. For each accepted request
//! it races the handler's pending computation against a timer armed with a
//! fixed deadline: whichever becomes ready first decides the outcome, and on
//! each poll the handler is tried before the timer, so a tie goes to the
//! handler. Every failure leaving the middleware — the handler's own error or
//! a fired deadline — is normalised into one envelope type.
//!
//! Time is modelled in discrete ticks, and the two raced computations by what
//! they report when polled at a tick. The surrounding glue (a real timer, a
//! real handler future, the transport) performs the outside work and feeds
//! each observation to the decision functions here.

pub mod errors;
pub mod independence;
pub mod laws;
pub mod race;
pub mod service;
