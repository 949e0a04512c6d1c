//! The fixed-timestep loop: simulation advances in ticks of one length
//! however fast frames are drawn.

use vstd::prelude::*;
use crate::context::Context;
use crate::event::Event;
use vstd::arithmetic::div_mod::lemma_fundamental_div_mod_converse;
use crate::time::{
    lag_after, lag_left, lemma_no_time_lost, lemma_total_elapsed_bound, ticks_after, ticks_due,
    total_elapsed, Interpolation,
};

verus! {

/// The two callbacks of an application. The loop calls them one after the
/// other, never at once, and hands each the context for the length of the
/// call.
pub trait State<P> {
    /// Advances the simulation by one tick.
    fn update(&mut self, ctx: &mut Context<P>);

    /// Draws a frame. `dt` says how far the clock is past the last tick
    /// simulated, as a fraction of a tick in `[0, 1)`.
    fn draw(&mut self, ctx: &mut Context<P>, dt: Interpolation)
        requires
            dt.in_unit_interval(),
    ;
}

/// What one iteration of the loop did.
#[derive(Clone, Copy, Debug, PartialEq, Eq)]
pub struct FrameReport {
    /// Number of ticks simulated.
    pub updates: u64,
    /// The fraction handed to the draw callback.
    pub interpolation: Interpolation,
}

/// The accumulator of the loop: time that has elapsed and is not yet
/// simulated, always shorter than a tick between iterations.
pub struct Runner {
    lag_nanos: u64,
    tick_nanos: u64,
}

impl Runner {
    #[verifier::type_invariant]
    spec fn lag_below_tick(self) -> bool {
        self.lag_nanos < self.tick_nanos
    }

    /// Elapsed time not yet simulated, in nanoseconds.
    pub closed spec fn lag(self) -> nat {
        self.lag_nanos as nat
    }

    /// Length of a tick, in nanoseconds.
    pub closed spec fn tick(self) -> nat {
        self.tick_nanos as nat
    }

    /// Enters the loop: marks the context as running and starts with no lag,
    /// at the context's tick length.
    pub fn start<P>(ctx: &mut Context<P>) -> (runner: Runner)
        ensures
            final(ctx)@ == old(ctx)@.started(),
            final(ctx).platform_handles() == old(ctx).platform_handles(),
            runner.lag() == 0,
            runner.tick() == old(ctx)@.tick_nanos,
            runner.tick() > 0,
    {
        let tick_nanos = ctx.tick_nanos();
        ctx.set_running();
        Runner { lag_nanos: 0, tick_nanos }
    }

    /// Elapsed time not yet simulated, in nanoseconds.
    pub fn lag_nanos(&self) -> (nanos: u64)
        ensures
            nanos == self.lag(),
            nanos < self.tick(),
    {
        proof {
            use_type_invariant(self);
        }
        self.lag_nanos
    }

    /// Length of a tick, in nanoseconds.
    pub fn tick_nanos(&self) -> (nanos: u64)
        ensures
            nanos == self.tick(),
            nanos > 0,
    {
        proof {
            use_type_invariant(self);
        }
        self.tick_nanos
    }

    /// Runs one iteration on what the platform reported for it: the time
    /// elapsed since the iteration before, and the events pending.
    ///
    /// The elapsed time is added to the lag, the input snapshot starts a new
    /// frame and takes the events, `update` runs once for every whole tick in
    /// the lag, and `draw` runs once with the fraction of a tick that is
    /// left. The number of updates has no cap: after a long stall the loop
    /// catches up on all of it.
    ///
    /// The callbacks own the context while they run, so nothing is said of it
    /// afterwards.
    pub fn frame<P, S: State<P>>(
        &mut self,
        ctx: &mut Context<P>,
        state: &mut S,
        elapsed_nanos: u64,
        events: &Vec<Event>,
    ) -> (report: FrameReport)
        ensures
            final(self).tick() == old(self).tick(),
            final(self).lag() == lag_left(old(self).lag(), elapsed_nanos as nat, old(self).tick()),
            final(self).lag() < final(self).tick(),
            report.updates == ticks_due(old(self).lag(), elapsed_nanos as nat, old(self).tick()),
            report.updates * old(self).tick() + final(self).lag() == old(self).lag()
                + elapsed_nanos,
            report.interpolation.remainder_nanos == final(self).lag(),
            report.interpolation.tick_nanos == old(self).tick(),
            report.interpolation.in_unit_interval(),
            report.interpolation.is_zero() <==> (old(self).lag() + elapsed_nanos) % (old(
                self,
            ).tick() as int) == 0,
    {
        proof {
            use_type_invariant(&*self);
        }
        let tick: u64 = self.tick_nanos;
        let ghost total: nat = self.lag() + elapsed_nanos as nat;
        let mut lag: u128 = self.lag_nanos as u128 + elapsed_nanos as u128;

        ctx.enter_frame(events);

        let mut updates: u64 = 0;
        while lag >= tick as u128
            invariant
                tick > 0,
                total < tick + elapsed_nanos,
                updates * tick + lag == total,
            decreases lag,
        {
            assert(updates < elapsed_nanos) by (nonlinear_arith)
                requires
                    updates * tick + lag == total,
                    total < tick + elapsed_nanos,
                    lag >= tick,
                    tick > 0,
            ;
            state.update(ctx);
            lag = lag - tick as u128;
            assert((updates + 1) * tick == updates * tick + tick) by (nonlinear_arith);
            updates = updates + 1;
        }
        proof {
            lemma_fundamental_div_mod_converse(
                total as int,
                tick as int,
                updates as int,
                lag as int,
            );
        }
        self.lag_nanos = lag as u64;
        let dt = Interpolation { remainder_nanos: lag as u64, tick_nanos: tick };
        state.draw(ctx, dt);
        FrameReport { updates, interpolation: dt }
    }
}

/// What the platform reported for one iteration of a recorded session.
#[derive(Debug, PartialEq, Eq)]
pub struct Frame {
    /// Time elapsed since the iteration before, in nanoseconds.
    pub elapsed_nanos: u64,
    /// The events that were pending, oldest first.
    pub events: Vec<Event>,
}

/// The elapsed-time samples of a recorded session.
pub open spec fn elapsed_samples(frames: Seq<Frame>) -> Seq<u64> {
    frames.map_values(|frame: Frame| frame.elapsed_nanos)
}

/// What a run of the loop did.
#[derive(Clone, Copy, Debug, PartialEq, Eq)]
pub struct RunReport {
    /// Number of iterations run, each of which drew once.
    pub frames: usize,
    /// Number of ticks simulated over all of them.
    pub updates: u128,
    /// Elapsed time left unsimulated at the end, in nanoseconds.
    pub lag_nanos: u64,
}

/// Runs the loop over a recorded session, one iteration per frame, for as
/// long as the context is running and frames are left.
///
/// The context is checked between iterations only: an iteration that has
/// begun is completed, and once one ends with the context stopped, no
/// callback runs again. Over the iterations run no time is gained or lost:
/// the ticks simulated are the whole ticks in the time that elapsed, and the
/// lag at the end is the remainder.
pub fn run<P, S: State<P>>(ctx: &mut Context<P>, state: &mut S, frames: &Vec<Frame>) -> (report:
    RunReport)
    ensures
        report.frames <= frames.len(),
        frames.len() > 0 ==> report.frames > 0,
        report.frames < frames.len() ==> !final(ctx)@.running,
        frames.len() == 0 ==> final(ctx)@ == old(ctx)@.started() && final(ctx).platform_handles()
            == old(ctx).platform_handles(),
        report.updates == total_elapsed(elapsed_samples(frames@).take(report.frames as int)) / old(
            ctx,
        )@.tick_nanos,
        report.lag_nanos == total_elapsed(elapsed_samples(frames@).take(report.frames as int))
            % old(ctx)@.tick_nanos,
        report.updates * old(ctx)@.tick_nanos + report.lag_nanos == total_elapsed(
            elapsed_samples(frames@).take(report.frames as int),
        ),
{
    let ghost tick: nat = ctx@.tick_nanos;
    let ghost samples = elapsed_samples(frames@);
    let mut runner = Runner::start(ctx);
    let mut updates: u128 = 0;
    let mut done: usize = 0;
    while ctx.is_running() && done < frames.len()
        invariant
            done <= frames.len(),
            samples == elapsed_samples(frames@),
            tick > 0,
            runner.tick() == tick,
            runner.lag() == lag_after(0, tick, samples.take(done as int)),
            updates == ticks_after(0, tick, samples.take(done as int)),
            done == 0 ==> ctx@ == old(ctx)@.started() && ctx.platform_handles() == old(
                ctx,
            ).platform_handles(),
            done == 0 ==> ctx@.running,
        decreases frames.len() - done,
    {
        let ghost before = samples.take(done as int);
        let ghost now = samples.take(done + 1);
        proof {
            assert(now.drop_last() == before);
            lemma_no_time_lost(0, tick, now);
            lemma_total_elapsed_bound(now);
        }
        let frame = &frames[done];
        let outcome = runner.frame(ctx, state, frame.elapsed_nanos, &frame.events);
        updates = updates + outcome.updates as u128;
        done = done + 1;
    }
    proof {
        lemma_no_time_lost(0, tick, samples.take(done as int));
    }
    RunReport { frames: done, updates, lag_nanos: runner.lag_nanos() }
}

} // verus!
