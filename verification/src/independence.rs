//! Concurrent requests are independent: each request's race carries its own
//! timer and its own in-flight computation, so under any interleaving of
//! scheduling steps a request resolves exactly when and how it would have
//! resolved alone. A slow request can neither delay nor fail a fast one — it
//! can only cost the fast one scheduling steps it is not given here either.

use vstd::prelude::*;

use crate::race::ResponseFuture;

verus! {

/// How many of the first `n` entries of a schedule pick the first race.
pub open spec fn count_true(s: Seq<bool>, n: int) -> int
    decreases n,
{
    if n <= 0 {
        0
    } else {
        count_true(s, n - 1) + if s[n - 1] {
            1int
        } else {
            0int
        }
    }
}

/// One request's race in flight: the race itself, the request's private
/// clock, and, once the race has resolved, the tick at which it did. The
/// outcome at that tick is `self.fut.outcome()`, by the race's own
/// resolution lemma.
#[derive(Debug)]
pub struct RaceRunner<T, E> {
    /// The race this request runs; fixed for the runner's lifetime.
    pub fut: ResponseFuture<T, E>,
    /// The request's own clock: the next tick at which the race is polled.
    pub now: u64,
    /// The tick at which the race resolved, once it has.
    pub resolved: Option<u64>,
}

impl<T, E> RaceRunner<T, E> {
    /// The runner never misses its race's resolution: while unresolved its
    /// clock has not passed the resolution tick, and once resolved the
    /// recorded tick is exactly the one the race resolves at.
    pub open spec fn wf(self) -> bool {
        &&& (self.resolved matches Some(t) ==> t == self.fut.resolves_at())
        &&& (self.resolved is None ==> self.now <= self.fut.resolves_at())
    }

    pub fn new(fut: ResponseFuture<T, E>) -> (r: Self)
        ensures
            r.fut == fut,
            r.now == 0,
            r.resolved is None,
            r.wf(),
    {
        RaceRunner { fut, now: 0, resolved: None }
    }

    /// One scheduling step given to this request alone: poll its race at its
    /// own clock — the handler first, then the timer — and either record the
    /// resolution or advance the clock. No other request's state is read or
    /// written.
    pub fn step(&mut self)
        requires
            old(self).wf(),
        ensures
            final(self).wf(),
            final(self).fut == old(self).fut,
            old(self).resolved is Some ==> *final(self) == *old(self),
            old(self).resolved is None && old(self).now == old(self).fut.resolves_at()
                ==> final(self).resolved == Some(old(self).fut.resolves_at()),
            old(self).resolved is None && old(self).now < old(self).fut.resolves_at() ==> (
            final(self).resolved is None && final(self).now == old(self).now + 1),
    {
        if self.resolved.is_some() {
            return ;
        }
        let handler_ready = self.fut.response.is_ready(self.now);
        let timer_ready = self.now >= self.fut.deadline;
        if handler_ready || timer_ready {
            self.resolved = Some(self.now);
        } else {
            self.now = self.now + 1;
        }
    }
}

/// Independence of concurrent requests: run two races under an arbitrary
/// interleaving — each `true` entry of the schedule gives a step to the
/// first, each `false` to the second. Whatever the interleaving, a race that
/// is given enough steps resolves, at exactly the tick it would resolve at
/// alone; the other race's speed, slowness, or failure plays no part.
pub fn run_interleaved<T, E>(
    a: ResponseFuture<T, E>,
    b: ResponseFuture<T, E>,
    schedule: &Vec<bool>,
) -> (r: (RaceRunner<T, E>, RaceRunner<T, E>))
    ensures
        r.0.fut == a,
        r.1.fut == b,
        r.0.wf(),
        r.1.wf(),
        r.0.resolved matches Some(t) ==> t == a.resolves_at(),
        r.1.resolved matches Some(t) ==> t == b.resolves_at(),
        count_true(schedule@, schedule@.len() as int) > a.resolves_at() ==> r.0.resolved
            == Some(a.resolves_at()),
        schedule@.len() - count_true(schedule@, schedule@.len() as int) > b.resolves_at()
            ==> r.1.resolved == Some(b.resolves_at()),
{
    let mut first = RaceRunner::new(a);
    let mut second = RaceRunner::new(b);
    let n = schedule.len();
    let mut i: usize = 0;
    while i < n
        invariant
            i <= n,
            n == schedule@.len(),
            first.wf(),
            second.wf(),
            first.fut == a,
            second.fut == b,
            first.resolved is None ==> first.now == count_true(schedule@, i as int),
            second.resolved is None ==> second.now == i - count_true(schedule@, i as int),
        decreases n - i,
    {
        if schedule[i] {
            first.step();
        } else {
            second.step();
        }
        i = i + 1;
    }
    (first, second)
}

} // verus!
