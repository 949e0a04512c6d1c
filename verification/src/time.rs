//! Fixed-timestep arithmetic: how many ticks an amount of elapsed time pays
//! for, and what is left over.

use vstd::prelude::*;
use vstd::arithmetic::div_mod::{lemma_fundamental_div_mod, lemma_fundamental_div_mod_converse};

verus! {

/// Default length of a simulation tick: a sixtieth of a second, in whole
/// nanoseconds.
pub const DEFAULT_TICK_NANOS: u64 = 16_666_666;

/// Length of a simulation tick: a number of nanoseconds that is never zero.
pub struct TickLength {
    nanos: u64,
}

impl TickLength {
    #[verifier::type_invariant]
    spec fn positive(self) -> bool {
        self.nanos > 0
    }

    /// The length, in nanoseconds.
    pub closed spec fn length(self) -> nat {
        self.nanos as nat
    }

    /// The default length, [`DEFAULT_TICK_NANOS`].
    pub fn default_length() -> (tick: TickLength)
        ensures
            tick.length() == DEFAULT_TICK_NANOS,
    {
        TickLength { nanos: DEFAULT_TICK_NANOS }
    }

    /// The length, in nanoseconds.
    pub fn nanos(&self) -> (nanos: u64)
        ensures
            nanos == self.length(),
            nanos > 0,
    {
        proof {
            use_type_invariant(self);
        }
        self.nanos
    }
}

/// Number of whole ticks to simulate once `elapsed` is added to `lag`.
pub open spec fn ticks_due(lag: nat, elapsed: nat, tick: nat) -> nat {
    (lag + elapsed) / tick
}

/// Time that stays unsimulated once those ticks are taken out.
pub open spec fn lag_left(lag: nat, elapsed: nat, tick: nat) -> nat {
    (lag + elapsed) % tick
}

/// Sum of a sequence of elapsed-time samples.
pub open spec fn total_elapsed(samples: Seq<u64>) -> nat
    decreases samples.len(),
{
    if samples.len() == 0 {
        0
    } else {
        total_elapsed(samples.drop_last()) + samples.last() as nat
    }
}

/// Lag after one iteration per sample, starting from `lag`.
pub open spec fn lag_after(lag: nat, tick: nat, samples: Seq<u64>) -> nat
    decreases samples.len(),
{
    if samples.len() == 0 {
        lag
    } else {
        lag_left(lag_after(lag, tick, samples.drop_last()), samples.last() as nat, tick)
    }
}

/// Ticks simulated over one iteration per sample, starting from `lag`.
pub open spec fn ticks_after(lag: nat, tick: nat, samples: Seq<u64>) -> nat
    decreases samples.len(),
{
    if samples.len() == 0 {
        0
    } else {
        ticks_after(lag, tick, samples.drop_last()) + ticks_due(
            lag_after(lag, tick, samples.drop_last()),
            samples.last() as nat,
            tick,
        )
    }
}

/// No sample is longer than `u64::MAX`, so the sum of a sequence is at most
/// that many times its length.
pub proof fn lemma_total_elapsed_bound(samples: Seq<u64>)
    ensures
        total_elapsed(samples) <= samples.len() * u64::MAX,
    decreases samples.len(),
{
    if samples.len() > 0 {
        lemma_total_elapsed_bound(samples.drop_last());
    }
}

/// One iteration neither gains nor loses time: the ticks it simulates and the
/// lag it leaves add up to the lag it found and the time that elapsed, and
/// the lag it leaves is shorter than a tick.
pub proof fn lemma_iteration_conserves_time(lag: nat, elapsed: nat, tick: nat)
    requires
        tick > 0,
    ensures
        ticks_due(lag, elapsed, tick) * tick + lag_left(lag, elapsed, tick) == lag + elapsed,
        lag_left(lag, elapsed, tick) < tick,
{
    lemma_fundamental_div_mod((lag + elapsed) as int, tick as int);
    assert(tick * ((lag + elapsed) / tick) == ((lag + elapsed) / tick) * tick)
        by (nonlinear_arith);
}

/// Over any sequence of elapsed-time samples no time is gained or lost: from
/// a lag shorter than a tick, the ticks simulated are the whole ticks in the
/// starting lag plus the total elapsed time, and the final lag is the
/// remainder, shorter than a tick.
pub proof fn lemma_no_time_lost(lag: nat, tick: nat, samples: Seq<u64>)
    requires
        tick > 0,
        lag < tick,
    ensures
        ticks_after(lag, tick, samples) * tick + lag_after(lag, tick, samples) == lag
            + total_elapsed(samples),
        lag_after(lag, tick, samples) < tick,
        ticks_after(lag, tick, samples) == (lag + total_elapsed(samples)) / tick,
        lag_after(lag, tick, samples) == (lag + total_elapsed(samples)) % tick,
    decreases samples.len(),
{
    let ticks = ticks_after(lag, tick, samples);
    let left = lag_after(lag, tick, samples);
    if samples.len() > 0 {
        let before = samples.drop_last();
        let elapsed = samples.last() as nat;
        let ticks_before = ticks_after(lag, tick, before);
        let left_before = lag_after(lag, tick, before);
        let due = ticks_due(left_before, elapsed, tick);
        lemma_no_time_lost(lag, tick, before);
        lemma_iteration_conserves_time(left_before, elapsed, tick);
        assert((ticks_before + due) * tick == ticks_before * tick + due * tick)
            by (nonlinear_arith);
    } else {
        assert(ticks * tick == 0) by (nonlinear_arith)
            requires
                ticks == 0,
        ;
    }
    lemma_fundamental_div_mod_converse(
        (lag + total_elapsed(samples)) as int,
        tick as int,
        ticks as int,
        left as int,
    );
}

/// Fraction of a tick that has elapsed and is not yet simulated: what is left
/// of the lag over the tick length. Rendering interpolates by it.
#[derive(Clone, Copy, Debug, PartialEq, Eq)]
pub struct Interpolation {
    /// Lag left once whole ticks are taken out, in nanoseconds.
    pub remainder_nanos: u64,
    /// Length of a tick, in nanoseconds.
    pub tick_nanos: u64,
}

impl Interpolation {
    /// The fraction is at least zero and less than one.
    pub open spec fn in_unit_interval(self) -> bool {
        self.remainder_nanos < self.tick_nanos
    }

    /// The fraction is zero.
    pub open spec fn is_zero(self) -> bool {
        self.remainder_nanos == 0 && self.tick_nanos > 0
    }
}

} // verus!
