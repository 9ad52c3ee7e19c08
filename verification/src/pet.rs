//! The pet record and its invariant.
//!
//! A pet owns four stats, each an 8-bit value clamped to
//! `[MIN_STAT, MAX_STAT]`. `hunger` has inverted polarity (0 is full,
//! 100 is starving); for the other three, 100 is best. A pet also
//! remembers when it was last observed and carries an inert
//! `pending_rewards` accumulator reserved for a future reward-accrual
//! feature.

use vstd::prelude::*;

verus! {

/// Lowest value any stat can take.
pub const MIN_STAT: u8 = 0;

/// Highest value any stat can take.
pub const MAX_STAT: u8 = 100;

/// The four bounded attributes of a pet.
#[derive(Clone, Copy, Debug, PartialEq, Eq, Structural)]
pub struct PetStats {
    /// 0 is full, 100 is starving.
    pub hunger: u8,
    pub strength: u8,
    pub happiness: u8,
    pub energy: u8,
}

/// A durable pet record: owner identity, stats, the time the stats
/// were last brought up to date, and the inert reward accumulator.
#[derive(Clone, Copy, Debug, PartialEq, Eq, Structural)]
pub struct Pet {
    pub owner: u64,
    pub stats: PetStats,
    pub last_interacted: u64,
    pub pending_rewards: u64,
}

/// Game-wide configuration: the admin identity and the reward mint.
#[derive(Clone, Copy, Debug, PartialEq, Eq, Structural)]
pub struct GlobalState {
    pub admin: u64,
    pub reward_mint: u64,
}

impl PetStats {
    /// Every stat lies in `[MIN_STAT, MAX_STAT]`.
    pub open spec fn wf(self) -> bool {
        &&& MIN_STAT <= self.hunger <= MAX_STAT
        &&& MIN_STAT <= self.strength <= MAX_STAT
        &&& MIN_STAT <= self.happiness <= MAX_STAT
        &&& MIN_STAT <= self.energy <= MAX_STAT
    }
}

impl Pet {
    /// A well-formed pet has all stats in bounds.
    pub open spec fn wf(self) -> bool {
        self.stats.wf()
    }
}

/// Create the game-wide configuration record.
pub fn initialize_game(admin: u64, reward_mint: u64) -> (g: GlobalState)
    ensures
        g == (GlobalState { admin, reward_mint }),
{
    GlobalState { admin, reward_mint }
}

/// Create a fresh pet for `owner`, observed at `now`: full (hunger 0),
/// middling strength, full happiness and energy, no pending rewards.
pub fn initialize_pet(owner: u64, now: u64) -> (p: Pet)
    ensures
        p == (Pet {
            owner,
            stats: PetStats { hunger: 0, strength: 50, happiness: 100, energy: 100 },
            last_interacted: now,
            pending_rewards: 0,
        }),
        p.wf(),
{
    Pet {
        owner,
        stats: PetStats { hunger: 0, strength: 50, happiness: 100, energy: 100 },
        last_interacted: now,
        pending_rewards: 0,
    }
}

} // verus!
