//! Wall-clock time between iterations, read from the monotonic clock.

use vstd::prelude::*;
use std::time::{Duration, Instant};

verus! {

/// A reading of the monotonic clock. Opaque to the proofs.
#[verifier::external_type_specification]
#[verifier::external_body]
pub struct ExInstant(std::time::Instant);

/// Calls `std::time::Instant::now`. The reading depends on when the call is
/// made, so nothing is claimed of it.
#[verifier::external_body]
fn instant_now() -> (now: Instant) {
    Instant::now()
}

/// Calls `std::time::Instant::saturating_duration_since`: the time from
/// `earlier` to `later`, or zero where `earlier` is the later of the two.
/// Readings are opaque, so nothing is claimed of the length.
#[verifier::external_body]
fn duration_between(later: &Instant, earlier: &Instant) -> (length: Duration) {
    later.saturating_duration_since(*earlier)
}

/// Calls `std::time::Duration::as_nanos`: the length in whole nanoseconds.
/// Durations are opaque, so nothing is claimed of the number.
#[verifier::external_body]
fn duration_nanos(length: &Duration) -> (nanos: u128) {
    length.as_nanos()
}

/// Greatest span that [`Clock::elapsed_nanos`] reports: about 584 years.
pub const MAX_ELAPSED_NANOS: u64 = u64::MAX;

/// A span of nanoseconds in 64 bits: the span itself where it fits,
/// [`MAX_ELAPSED_NANOS`] where it does not.
pub fn saturate_nanos(nanos: u128) -> (span: u64)
    ensures
        span == if nanos <= MAX_ELAPSED_NANOS {
            nanos
        } else {
            MAX_ELAPSED_NANOS as u128
        },
{
    if nanos > MAX_ELAPSED_NANOS as u128 {
        MAX_ELAPSED_NANOS
    } else {
        nanos as u64
    }
}

/// Measures the time between samples, on a reading that never goes back.
pub struct Clock {
    origin: Instant,
    reading: u128,
}

impl Clock {
    /// A clock made now: its reading starts at zero.
    pub fn new() -> (clock: Clock)
        ensures
            clock.reading() == 0,
    {
        Clock { origin: instant_now(), reading: 0 }
    }

    /// Takes a sample and returns the time since the one before, in
    /// nanoseconds. The reading moves on to the sample, or stays where the
    /// sample is not past it, so the span is never negative; one too long
    /// for 64 bits is reported as [`MAX_ELAPSED_NANOS`].
    pub fn elapsed_nanos(&mut self) -> (nanos: u64)
        ensures
            final(self).reading() >= old(self).reading(),
            nanos == saturated((final(self).reading() - old(self).reading()) as nat),
    {
        let now = instant_now();
        let length = duration_between(&now, &self.origin);
        let sample = duration_nanos(&length);
        self.advance_to(sample)
    }

    /// Takes `sample`, a time in nanoseconds since the clock was made, as
    /// the next sample. One past the reading moves the reading on to it and
    /// gives the span between the two, reported as [`MAX_ELAPSED_NANOS`]
    /// where it is too long for 64 bits; one that is not past the reading
    /// leaves the reading where it is and gives zero.
    pub fn advance_to(&mut self, sample: u128) -> (nanos: u64)
        ensures
            final(self).reading() == if sample > old(self).reading() {
                sample as nat
            } else {
                old(self).reading()
            },
            nanos == saturated((final(self).reading() - old(self).reading()) as nat),
    {
        if sample > self.reading {
            let span = sample - self.reading;
            self.reading = sample;
            saturate_nanos(span)
        } else {
            0
        }
    }

    /// The time of the last sample, in nanoseconds since the clock was made.
    pub closed spec fn reading(self) -> nat {
        self.reading as nat
    }
}

/// A span as [`Clock::elapsed_nanos`] reports it: the span itself where it
/// fits in 64 bits, [`MAX_ELAPSED_NANOS`] where it does not.
pub open spec fn saturated(nanos: nat) -> nat {
    if nanos <= MAX_ELAPSED_NANOS {
        nanos
    } else {
        MAX_ELAPSED_NANOS as nat
    }
}

} // verus!
