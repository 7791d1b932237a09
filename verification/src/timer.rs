use vstd::prelude::*;
use vstd::arithmetic::div_mod::{
    lemma_basic_div, lemma_fundamental_div_mod, lemma_hoist_over_denominator, lemma_mod_bound,
    lemma_mod_multiples_vanish, lemma_small_mod,
};
use vstd::arithmetic::mul::lemma_mul_is_commutative;

verus! {

/// Period of the repeating spawn timer, in milliseconds.
pub const SNOG_TIMER_PERIOD_MS: u64 = 1000;

/// A repeating countdown. It accumulates frame time and fires once per full
/// period elapsed; fractional remainders are carried into the next frame,
/// never dropped.
pub struct SnogSpawnerTimer {
    pub elapsed_ms: u64,
    pub period_ms: u64,
}

impl SnogSpawnerTimer {
    /// The timer's invariant: a positive period, and an accumulation that has
    /// already been reduced below one period.
    pub open spec fn well_formed(self) -> bool {
        0 < self.period_ms && self.elapsed_ms < self.period_ms
    }

    /// A fresh repeating timer with the one-second period and no time accumulated.
    pub fn new() -> (t: Self)
        ensures
            t.well_formed(),
            t.elapsed_ms == 0,
            t.period_ms == SNOG_TIMER_PERIOD_MS,
    {
        SnogSpawnerTimer { elapsed_ms: 0, period_ms: SNOG_TIMER_PERIOD_MS }
    }

    /// Advance the timer by one frame's delta. Returns how many whole periods
    /// elapsed this frame; the remainder stays accumulated.
    pub fn tick(&mut self, delta_ms: u64) -> (fires: u64)
        requires
            old(self).well_formed(),
            delta_ms <= u64::MAX - old(self).period_ms,
        ensures
            final(self).well_formed(),
            final(self).period_ms == old(self).period_ms,
            fires as int == (old(self).elapsed_ms + delta_ms) as int / old(self).period_ms as int,
            final(self).elapsed_ms as int == (old(self).elapsed_ms + delta_ms) as int % old(self).period_ms as int,
    {
        let total = self.elapsed_ms + delta_ms;
        let fires = total / self.period_ms;
        self.elapsed_ms = total % self.period_ms;
        fires
    }
}

/// One frame of the periodic spawn trigger: ticks the timer and reports
/// whether a spawn notification is due this frame. The spawned entity carries
/// no payload, so the caller only needs the flag.
pub fn snog_spawner_system(snog_timer: &mut SnogSpawnerTimer, delta_ms: u64) -> (fired: bool)
    requires
        old(snog_timer).well_formed(),
        delta_ms <= u64::MAX - old(snog_timer).period_ms,
    ensures
        final(snog_timer).well_formed(),
        final(snog_timer).period_ms == old(snog_timer).period_ms,
        final(snog_timer).elapsed_ms as int == (old(snog_timer).elapsed_ms + delta_ms) as int
            % old(snog_timer).period_ms as int,
        fired <==> old(snog_timer).elapsed_ms + delta_ms >= old(snog_timer).period_ms,
{
    let fired = delta_ms >= remaining_ms(snog_timer);
    let _fires = snog_timer.tick(delta_ms);
    fired
}

/// Time left until the timer next fires, in milliseconds.
pub fn remaining_ms(snog_timer: &SnogSpawnerTimer) -> (r: u64)
    requires
        snog_timer.well_formed(),
    ensures
        r == snog_timer.period_ms - snog_timer.elapsed_ms,
{
    snog_timer.period_ms - snog_timer.elapsed_ms
}

/// Total of a sequence of frame deltas.
pub open spec fn total_of(deltas: Seq<int>) -> int
    decreases deltas.len(),
{
    if deltas.len() == 0 {
        0
    } else {
        deltas[0] + total_of(deltas.drop_first())
    }
}

/// Accumulation left on a timer of period `p` after ticking through `deltas`,
/// starting from accumulation `e`.
pub open spec fn run_elapsed(e: int, deltas: Seq<int>, p: int) -> int
    decreases deltas.len(),
{
    if deltas.len() == 0 {
        e
    } else {
        run_elapsed((e + deltas[0]) % p, deltas.drop_first(), p)
    }
}

/// Number of fires of a timer of period `p` over ticking through `deltas`,
/// starting from accumulation `e`.
pub open spec fn run_fires(e: int, deltas: Seq<int>, p: int) -> int
    decreases deltas.len(),
{
    if deltas.len() == 0 {
        0
    } else {
        (e + deltas[0]) / p + run_fires((e + deltas[0]) % p, deltas.drop_first(), p)
    }
}

/// The timer fires exactly once per full period of accumulated frame time,
/// however that time is split into frames: the fire count and the leftover
/// accumulation depend only on the total, not on the frame-rate granularity.
pub proof fn lemma_timer_fires_per_period(e: int, deltas: Seq<int>, p: int)
    requires
        0 < p,
        0 <= e < p,
        forall|i: int| 0 <= i < deltas.len() ==> deltas[i] >= 0,
    ensures
        run_fires(e, deltas, p) == (e + total_of(deltas)) / p,
        run_elapsed(e, deltas, p) == (e + total_of(deltas)) % p,
    decreases deltas.len(),
{
    if deltas.len() == 0 {
        lemma_basic_div(e, p);
        lemma_small_mod(e as nat, p as nat);
    } else {
        let a = e + deltas[0];
        let rest = deltas.drop_first();
        let t = total_of(rest);
        assert(forall|i: int| 0 <= i < rest.len() ==> rest[i] >= 0) by {
            assert(forall|i: int| 0 <= i < rest.len() ==> rest[i] == deltas[i + 1]);
        }
        lemma_mod_bound(a, p);
        lemma_timer_fires_per_period(a % p, rest, p);
        lemma_fundamental_div_mod(a, p);
        lemma_hoist_over_denominator(a % p + t, a / p, p as nat);
        lemma_mod_multiples_vanish(a / p, a % p + t, p);
        lemma_mul_is_commutative(a / p, p);
        assert((a % p + t) + (a / p) * p == a + t);
        assert((a % p + t) / p + a / p == (a + t) / p);
        assert((a % p + t) % p == (a + t) % p);
    }
}

/// From a fresh timer, ticking through any frame-delta sequence fires exactly
/// floor(total elapsed / period) times: one fire per elapsed second.
pub proof fn lemma_fresh_timer_fires(deltas: Seq<int>)
    requires
        forall|i: int| 0 <= i < deltas.len() ==> deltas[i] >= 0,
    ensures
        run_fires(0, deltas, SNOG_TIMER_PERIOD_MS as int) == total_of(deltas) / (
        SNOG_TIMER_PERIOD_MS as int),
        run_elapsed(0, deltas, SNOG_TIMER_PERIOD_MS as int) == total_of(deltas) % (
        SNOG_TIMER_PERIOD_MS as int),
{
    lemma_timer_fires_per_period(0, deltas, SNOG_TIMER_PERIOD_MS as int);
}

} // verus!
