//! A monotonic stopwatch and the elapsed time between two of its readings.

use std::time::Duration;
use std::time::Instant;
use vstd::prelude::*;

verus! {

/// Nanoseconds in one millisecond.
pub const NANOS_PER_MILLI: u128 = 1_000_000;

#[verifier::external_type_specification]
#[verifier::external_body]
pub struct ExInstant(Instant);

/// `Instant::now`: the current reading of the monotonic clock. Nothing is
/// claimed about the value.
#[verifier::external_body]
fn instant_now() -> (now: Instant) {
    Instant::now()
}

/// `Instant::elapsed`: the time that has passed since `since` was taken.
/// Nothing is claimed about the value.
#[verifier::external_body]
fn instant_elapsed(since: &Instant) -> (passed: Duration) {
    since.elapsed()
}

/// `Duration::as_nanos`: the whole duration in nanoseconds. Nothing is
/// claimed about the value.
#[verifier::external_body]
fn duration_as_nanos(passed: &Duration) -> (nanos: u128) {
    passed.as_nanos()
}

/// Whole milliseconds between two readings of one clock, both in nanoseconds.
/// A reading that lies before `begin` counts as no time at all.
pub open spec fn millis_between(begin: nat, end: nat) -> nat {
    if end >= begin {
        ((end - begin) / 1_000_000) as nat
    } else {
        0
    }
}

/// A clock that counts nanoseconds from the moment it was started and whose
/// readings never go back.
pub struct Stopwatch {
    origin: Instant,
    latest: u128,
}

impl Stopwatch {
    /// The latest reading that was handed out, zero before the first.
    pub closed spec fn latest(&self) -> nat {
        self.latest as nat
    }

    /// Starts a new clock.
    pub fn start() -> (watch: Stopwatch)
        ensures
            watch.latest() == 0,
    {
        Stopwatch { origin: instant_now(), latest: 0 }
    }

    /// Nanoseconds since the clock was started. Should the underlying clock
    /// ever report less than it did before, the earlier reading is repeated.
    pub fn read(&mut self) -> (nanos: u128)
        ensures
            nanos >= old(self).latest(),
            final(self).latest() == nanos,
    {
        let passed = instant_elapsed(&self.origin);
        let nanos = duration_as_nanos(&passed);
        if nanos > self.latest {
            self.latest = nanos;
        }
        self.latest
    }
}

/// Two readings of one clock, taken just before and just after an operation.
#[derive(Clone, Copy, Debug, PartialEq, Eq, Structural)]
pub struct Span {
    /// Reading before the operation, in nanoseconds.
    pub begin: u128,
    /// Reading after the operation, in nanoseconds.
    pub end: u128,
}

impl Span {
    /// The closing reading is not before the opening one.
    pub open spec fn ordered(self) -> bool {
        self.begin <= self.end
    }

    /// The elapsed time in whole milliseconds.
    pub open spec fn millis(self) -> nat {
        millis_between(self.begin as nat, self.end as nat)
    }

    /// The elapsed time in whole milliseconds: the difference of the two
    /// readings, rounded down, and zero if the clock went backwards.
    pub fn elapsed_millis(&self) -> (ms: u128)
        ensures
            ms == self.millis(),
            self.begin <= self.end ==> ms == (self.end - self.begin) / 1_000_000,
            self.begin > self.end ==> ms == 0,
    {
        if self.end >= self.begin {
            (self.end - self.begin) / NANOS_PER_MILLI
        } else {
            0
        }
    }
}

/// The later the closing reading is taken, and the earlier the opening one,
/// the longer the elapsed time.
pub proof fn lemma_millis_monotonic(begin: nat, end: nat, earlier_begin: nat, later_end: nat)
    requires
        earlier_begin <= begin,
        end <= later_end,
    ensures
        millis_between(begin, end) <= millis_between(earlier_begin, later_end),
{
    if end >= begin {
        let a = (end - begin) as int;
        let b = (later_end - earlier_begin) as int;
        assert(a / 1_000_000 <= b / 1_000_000) by (nonlinear_arith)
            requires
                0 <= a <= b,
        ;
    }
}

} // verus!
