//! The decay engine.
//!
//! Stats drift lazily: no background timer exists, so every interaction
//! first brings the pet up to date ("decay on access"). One whole hour
//! elapsed since the last observation is one decay interval; per
//! interval, hunger rises, happiness and strength fall, and energy is
//! untouched. All updates clamp to the stat range. The interval count
//! is capped at `MAX_INTERVALS` so that arbitrarily long neglect
//! saturates instead of wrapping, and a clock that appears to run
//! backwards is treated as zero elapsed time.

use vstd::arithmetic::div_mod::lemma_div_by_multiple;
use vstd::arithmetic::div_mod::lemma_div_is_ordered;
use vstd::arithmetic::div_mod::lemma_fundamental_div_mod;
use vstd::arithmetic::div_mod::lemma_hoist_over_denominator;
use vstd::prelude::*;

use crate::pet::MAX_STAT;
use crate::pet::MIN_STAT;
use crate::pet::Pet;
use crate::pet::PetStats;

verus! {

/// Length of one decay interval: one hour, in seconds.
pub const SECONDS_PER_DECAY: u64 = 3600;

/// Hunger gained per elapsed interval.
pub const HUNGER_DECAY: u8 = 5;

/// Happiness lost per elapsed interval.
pub const HAPPINESS_DECAY: u8 = 5;

/// Strength lost per elapsed interval.
pub const STRENGTH_DECAY: u8 = 2;

/// Cap on the interval count applied in one observation. Beyond this
/// every decaying stat is saturated anyway, so capping loses nothing.
pub const MAX_INTERVALS: u64 = 255;

/// Raise a stat by `d`, clamping at `MAX_STAT`.
pub open spec fn raised(v: u8, d: int) -> u8
    recommends
        0 <= d,
{
    if v + d >= MAX_STAT {
        MAX_STAT
    } else {
        (v + d) as u8
    }
}

/// Lower a stat by `d`, clamping at `MIN_STAT`.
pub open spec fn lowered(v: u8, d: int) -> u8
    recommends
        0 <= d,
{
    if v - d <= MIN_STAT {
        MIN_STAT
    } else {
        (v - d) as u8
    }
}

/// Whole decay intervals between `last` and `now`, capped at
/// `MAX_INTERVALS`; zero when the clock appears to have regressed.
pub open spec fn intervals_of(last: u64, now: u64) -> int {
    if now <= last {
        0
    } else {
        vstd::math::min((now - last) / (SECONDS_PER_DECAY as int), MAX_INTERVALS as int)
    }
}

/// Stats after `k` decay intervals have passed.
pub open spec fn decayed_stats(s: PetStats, k: int) -> PetStats
    recommends
        0 <= k,
{
    PetStats {
        hunger: raised(s.hunger, k * HUNGER_DECAY),
        strength: lowered(s.strength, k * STRENGTH_DECAY),
        happiness: lowered(s.happiness, k * HAPPINESS_DECAY),
        energy: s.energy,
    }
}

/// The pet as the decay engine leaves it at observation time `now`:
/// unchanged when no whole interval has elapsed, otherwise with decayed
/// stats and `last_interacted` advanced to `now`.
pub open spec fn decayed(pet: Pet, now: u64) -> Pet {
    let k = intervals_of(pet.last_interacted, now);
    if k == 0 {
        pet
    } else {
        Pet { stats: decayed_stats(pet.stats, k), last_interacted: now, ..pet }
    }
}

/// Bring a pet's stats up to date at observation time `now`.
///
/// This is the first step of every interaction. A `now` earlier than
/// the last observation (clock regression) is a no-op.
pub fn update_stats(pet: &mut Pet, now: u64)
    ensures
        *final(pet) == decayed(*old(pet), now),
        old(pet).wf() ==> final(pet).wf(),
{
    if now <= pet.last_interacted {
        return ;
    }
    let elapsed: u64 = now - pet.last_interacted;
    let whole: u64 = elapsed / SECONDS_PER_DECAY;
    let k: u64 = if whole > MAX_INTERVALS {
        MAX_INTERVALS
    } else {
        whole
    };
    if k > 0 {
        let hunger_gain: u64 = k * (HUNGER_DECAY as u64);
        let strength_loss: u64 = k * (STRENGTH_DECAY as u64);
        let happiness_loss: u64 = k * (HAPPINESS_DECAY as u64);
        let hunger_sum: u64 = (pet.stats.hunger as u64) + hunger_gain;
        pet.stats.hunger = if hunger_sum >= (MAX_STAT as u64) {
            MAX_STAT
        } else {
            hunger_sum as u8
        };
        pet.stats.strength = if (pet.stats.strength as u64) <= strength_loss {
            MIN_STAT
        } else {
            pet.stats.strength - (strength_loss as u8)
        };
        pet.stats.happiness = if (pet.stats.happiness as u64) <= happiness_loss {
            MIN_STAT
        } else {
            pet.stats.happiness - (happiness_loss as u8)
        };
        pet.last_interacted = now;
    }
}

/// Decay is idempotent: observing a pet twice at the same time changes
/// nothing on the second observation.
pub proof fn lemma_decay_idempotent(pet: Pet, now: u64)
    ensures
        decayed(decayed(pet, now), now) == decayed(pet, now),
{
}

/// Long neglect saturates the interval count at `MAX_INTERVALS`
/// instead of wrapping to a small number.
pub proof fn lemma_long_neglect_caps(last: u64, now: u64)
    requires
        now - last >= MAX_INTERVALS * SECONDS_PER_DECAY,
    ensures
        intervals_of(last, now) == MAX_INTERVALS,
{
    let d = SECONDS_PER_DECAY as int;
    lemma_div_by_multiple(MAX_INTERVALS as int, d);
    lemma_div_is_ordered(MAX_INTERVALS * d, now - last, d);
}

/// Decay accumulates linearly: when both elapsed spans are whole
/// numbers of intervals, decaying straight to `now2` equals decaying to
/// `now1` first and then to `now2`.
pub proof fn lemma_decay_additive(pet: Pet, now1: u64, now2: u64)
    requires
        pet.wf(),
        pet.last_interacted <= now1 <= now2,
        (now1 - pet.last_interacted) % (SECONDS_PER_DECAY as int) == 0,
        (now2 - now1) % (SECONDS_PER_DECAY as int) == 0,
    ensures
        decayed(decayed(pet, now1), now2) == decayed(pet, now2),
{
    let d = SECONDS_PER_DECAY as int;
    let last = pet.last_interacted as int;
    let e1 = now1 - last;
    let e2 = now2 - now1;
    let k1 = e1 / d;
    let k2 = e2 / d;
    lemma_fundamental_div_mod(e1, d);
    lemma_fundamental_div_mod(e2, d);
    assert(e1 == d * k1 && e2 == d * k2);
    lemma_hoist_over_denominator(e2, k1, d as nat);
    assert(k1 * d == d * k1) by (nonlinear_arith);
    assert((e1 + e2) / d == k1 + k2);
    if k1 == 0 {
        assert(e1 == 0) by (nonlinear_arith)
            requires
                e1 == d * k1,
                k1 == 0,
        ;
    } else if k2 == 0 {
        assert(e2 == 0) by (nonlinear_arith)
            requires
                e2 == d * k2,
                k2 == 0,
        ;
    } else {
        assert(e1 >= d && e2 >= d) by (nonlinear_arith)
            requires
                e1 == d * k1,
                e2 == d * k2,
                k1 >= 1,
                k2 >= 1,
                d > 0,
        ;
        let a = vstd::math::min(k1, MAX_INTERVALS as int);
        let b = vstd::math::min(k2, MAX_INTERVALS as int);
        let c = vstd::math::min(k1 + k2, MAX_INTERVALS as int);
        assert(a + b >= c);
        let s = pet.stats;
        assert(decayed_stats(decayed_stats(s, a), b) == decayed_stats(s, c)) by {
            assert(raised(raised(s.hunger, a * HUNGER_DECAY), b * HUNGER_DECAY) == raised(
                s.hunger,
                c * HUNGER_DECAY,
            ));
            assert(lowered(lowered(s.strength, a * STRENGTH_DECAY), b * STRENGTH_DECAY) == lowered(
                s.strength,
                c * STRENGTH_DECAY,
            ));
            assert(lowered(
                lowered(s.happiness, a * HAPPINESS_DECAY),
                b * HAPPINESS_DECAY,
            ) == lowered(s.happiness, c * HAPPINESS_DECAY));
        }
    }
}

} // verus!
