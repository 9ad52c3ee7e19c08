//! The interaction/token-settlement state machine.
//!
//! Every interaction is one atomic transition over a pet record and a
//! token balance: bring the stats up to date, check the caller's
//! authority and the interaction's precondition, settle the token cost
//! or reward, apply the stat deltas, and hand back the event record.
//! Any fallible step aborts the whole transition before a stat delta is
//! applied; the only mutation a failed settlement can leave behind is
//! the decay itself, which is observational.

use vstd::prelude::*;

use crate::decay::decayed;
use crate::decay::update_stats;
use crate::pet::MAX_STAT;
use crate::pet::MIN_STAT;
use crate::pet::Pet;
use crate::pet::PetStats;

verus! {

/// Token cost of feeding, in the ledger's smallest unit.
pub const COST_FEED: u64 = 10 * 1_000_000;

/// Token cost of training, in the ledger's smallest unit.
pub const COST_TRAIN: u64 = 15 * 1_000_000;

/// Token reward for cleaning, in the ledger's smallest unit.
pub const REWARD_CLEAN: u64 = 5 * 1_000_000;

/// Training demands at least this much energy after decay.
pub const TRAIN_ENERGY_FLOOR: u8 = 20;

/// The closed set of interaction kinds. `Fight` is reserved: it has no
/// defined transition and every attempt at it fails.
#[derive(Clone, Copy, Debug, PartialEq, Eq, Structural)]
pub enum ActionType {
    Feed,
    Train,
    Clean,
    Fight,
}

/// Why an interaction was refused. Every error leaves pet, balance and
/// event sink exactly as stated in [`interact`]'s contract.
#[derive(Clone, Copy, Debug, PartialEq, Eq, Structural)]
pub enum PetError {
    /// The caller is not the pet's recorded owner.
    Unauthorized,
    /// Train was requested with post-decay energy below the floor.
    Tired,
    /// A token debit exceeded the available balance.
    InsufficientFunds,
    /// The interaction kind has no defined transition.
    UnsupportedInteraction,
}

/// Event record emitted once per successful interaction.
#[derive(Clone, Copy, Debug, PartialEq, Eq, Structural)]
pub struct PetInteracted {
    pub pet: u64,
    pub action: ActionType,
}

/// Whether an interaction kind has a defined transition.
pub open spec fn supported(kind: ActionType) -> bool {
    kind != ActionType::Fight
}

/// The interaction-specific precondition, checked on post-decay stats.
pub open spec fn precondition_holds(kind: ActionType, stats: PetStats) -> bool {
    match kind {
        ActionType::Train => stats.energy >= TRAIN_ENERGY_FLOOR,
        _ => true,
    }
}

/// Amount the interaction debits from the caller's balance.
pub open spec fn debit_of(kind: ActionType) -> u64 {
    match kind {
        ActionType::Feed => COST_FEED,
        ActionType::Train => COST_TRAIN,
        _ => 0,
    }
}

/// Amount the interaction credits (mints) to the caller's balance.
pub open spec fn credit_of(kind: ActionType) -> u64 {
    match kind {
        ActionType::Clean => REWARD_CLEAN,
        _ => 0,
    }
}

/// The balance once settlement for `kind` succeeds.
pub open spec fn settled_balance(balance: u64, kind: ActionType) -> int {
    balance - debit_of(kind) + credit_of(kind)
}

/// Stat deltas of a supported interaction, applied to post-decay stats.
pub open spec fn after_action(s: PetStats, kind: ActionType) -> PetStats {
    match kind {
        ActionType::Feed => PetStats {
            hunger: if s.hunger >= 20 {
                (s.hunger - 20) as u8
            } else {
                MIN_STAT
            },
            energy: if s.energy + 5 >= MAX_STAT {
                MAX_STAT
            } else {
                (s.energy + 5) as u8
            },
            ..s
        },
        ActionType::Train => PetStats {
            strength: if s.strength + 10 >= MAX_STAT {
                MAX_STAT
            } else {
                (s.strength + 10) as u8
            },
            energy: if s.energy >= 20 {
                (s.energy - 20) as u8
            } else {
                MIN_STAT
            },
            hunger: if s.hunger + 10 >= MAX_STAT {
                MAX_STAT
            } else {
                (s.hunger + 10) as u8
            },
            ..s
        },
        ActionType::Clean => PetStats {
            happiness: if s.happiness + 20 >= MAX_STAT {
                MAX_STAT
            } else {
                (s.happiness + 20) as u8
            },
            ..s
        },
        ActionType::Fight => s,
    }
}

/// Success is owed exactly when the kind is supported, the caller owns
/// the pet, the post-decay precondition holds and the balance covers
/// the debit.
pub open spec fn succeeds(pet: Pet, balance: u64, caller: u64, kind: ActionType, now: u64) -> bool {
    &&& supported(kind)
    &&& caller == pet.owner
    &&& precondition_holds(kind, decayed(pet, now).stats)
    &&& balance >= debit_of(kind)
}

/// The outcome the state machine owes for a given starting point; the
/// failures are ordered as the machine checks them.
pub open spec fn interact_result(
    pet: Pet,
    balance: u64,
    pet_id: u64,
    caller: u64,
    kind: ActionType,
    now: u64,
) -> Result<PetInteracted, PetError> {
    if !supported(kind) {
        Err(PetError::UnsupportedInteraction)
    } else if caller != pet.owner {
        Err(PetError::Unauthorized)
    } else if !precondition_holds(kind, decayed(pet, now).stats) {
        Err(PetError::Tired)
    } else if balance < debit_of(kind) {
        Err(PetError::InsufficientFunds)
    } else {
        Ok(PetInteracted { pet: pet_id, action: kind })
    }
}

/// The pet record as the state machine leaves it.
pub open spec fn pet_after(pet: Pet, balance: u64, caller: u64, kind: ActionType, now: u64) -> Pet {
    if !supported(kind) || caller != pet.owner || !precondition_holds(
        kind,
        decayed(pet, now).stats,
    ) {
        pet
    } else if balance < debit_of(kind) {
        decayed(pet, now)
    } else {
        Pet { stats: after_action(decayed(pet, now).stats, kind), ..decayed(pet, now) }
    }
}

/// The balance as the state machine leaves it: settled on success,
/// untouched on every failure.
pub open spec fn balance_after(pet: Pet, balance: u64, caller: u64, kind: ActionType, now: u64) -> int {
    if succeeds(pet, balance, caller, kind, now) {
        settled_balance(balance, kind)
    } else {
        balance as int
    }
}

/// Run one interaction against a pet record and a token balance.
///
/// The transition is all-or-nothing: on `Ok` the decayed stats, the
/// stat deltas and the settlement all commit together and the event
/// record is returned for publication; on any error the balance is
/// untouched and no event exists. A failed settlement may still leave
/// the decay behind (`last_interacted` advances), since decay only
/// records the passage of time; every earlier failure leaves the pet
/// record exactly as it was.
pub fn interact(
    pet: &mut Pet,
    balance: &mut u64,
    pet_id: u64,
    caller: u64,
    kind: ActionType,
    now: u64,
) -> (r: Result<PetInteracted, PetError>)
    requires
        old(pet).wf(),
        kind == ActionType::Clean ==> *old(balance) <= u64::MAX - REWARD_CLEAN,
    ensures
        r is Ok <==> succeeds(*old(pet), *old(balance), caller, kind, now),
        r == interact_result(*old(pet), *old(balance), pet_id, caller, kind, now),
        *final(pet) == pet_after(*old(pet), *old(balance), caller, kind, now),
        *final(balance) == balance_after(*old(pet), *old(balance), caller, kind, now),
        final(pet).wf(),
        final(pet).owner == old(pet).owner,
        final(pet).pending_rewards == old(pet).pending_rewards,
        r is Err ==> *final(balance) == *old(balance),
        r == Err::<PetInteracted, PetError>(PetError::InsufficientFunds) ==> *final(pet) == decayed(
            *old(pet),
            now,
        ),
        (r is Err && r != Err::<PetInteracted, PetError>(PetError::InsufficientFunds))
            ==> *final(pet) == *old(pet),
{
    match kind {
        ActionType::Fight => {
            return Err(PetError::UnsupportedInteraction);
        },
        _ => {},
    }
    if caller != pet.owner {
        return Err(PetError::Unauthorized);
    }
    let mut updated: Pet = *pet;
    update_stats(&mut updated, now);
    match kind {
        ActionType::Train => {
            if updated.stats.energy < TRAIN_ENERGY_FLOOR {
                return Err(PetError::Tired);
            }
        },
        _ => {},
    }
    let cost: u64 = match kind {
        ActionType::Feed => COST_FEED,
        ActionType::Train => COST_TRAIN,
        _ => 0,
    };
    if *balance < cost {
        *pet = updated;
        return Err(PetError::InsufficientFunds);
    }
    let reward: u64 = match kind {
        ActionType::Clean => REWARD_CLEAN,
        _ => 0,
    };
    *balance = *balance - cost + reward;
    updated.stats = apply_action(updated.stats, kind);
    *pet = updated;
    Ok(PetInteracted { pet: pet_id, action: kind })
}

/// Apply the stat deltas of a supported interaction to post-decay
/// stats. Every delta saturates at the stat bounds.
pub fn apply_action(s: PetStats, kind: ActionType) -> (r: PetStats)
    requires
        s.wf(),
        supported(kind),
    ensures
        r == after_action(s, kind),
        r.wf(),
{
    let mut r = s;
    match kind {
        ActionType::Feed => {
            r.hunger = if r.hunger >= 20 {
                r.hunger - 20
            } else {
                MIN_STAT
            };
            r.energy = if r.energy + 5 >= MAX_STAT {
                MAX_STAT
            } else {
                r.energy + 5
            };
        },
        ActionType::Train => {
            r.strength = if r.strength + 10 >= MAX_STAT {
                MAX_STAT
            } else {
                r.strength + 10
            };
            r.energy = if r.energy >= 20 {
                r.energy - 20
            } else {
                MIN_STAT
            };
            r.hunger = if r.hunger + 10 >= MAX_STAT {
                MAX_STAT
            } else {
                r.hunger + 10
            };
        },
        ActionType::Clean => {
            r.happiness = if r.happiness + 20 >= MAX_STAT {
                MAX_STAT
            } else {
                r.happiness + 20
            };
        },
        ActionType::Fight => {},
    }
    r
}

/// Feed the pet: debit `COST_FEED`, lower hunger by 20 and raise
/// energy by 5, both saturating.
pub fn feed(pet: &mut Pet, balance: &mut u64, pet_id: u64, caller: u64, now: u64) -> (r: Result<
    PetInteracted,
    PetError,
>)
    requires
        old(pet).wf(),
    ensures
        r == interact_result(*old(pet), *old(balance), pet_id, caller, ActionType::Feed, now),
        *final(pet) == pet_after(*old(pet), *old(balance), caller, ActionType::Feed, now),
        *final(balance) == balance_after(*old(pet), *old(balance), caller, ActionType::Feed, now),
        final(pet).wf(),
{
    interact(pet, balance, pet_id, caller, ActionType::Feed, now)
}

/// Train the pet: requires post-decay energy of at least
/// `TRAIN_ENERGY_FLOOR`, debits `COST_TRAIN`, raises strength by 10,
/// lowers energy by 20 and raises hunger by 10, all saturating.
pub fn train(pet: &mut Pet, balance: &mut u64, pet_id: u64, caller: u64, now: u64) -> (r: Result<
    PetInteracted,
    PetError,
>)
    requires
        old(pet).wf(),
    ensures
        r == interact_result(*old(pet), *old(balance), pet_id, caller, ActionType::Train, now),
        *final(pet) == pet_after(*old(pet), *old(balance), caller, ActionType::Train, now),
        *final(balance) == balance_after(*old(pet), *old(balance), caller, ActionType::Train, now),
        final(pet).wf(),
{
    interact(pet, balance, pet_id, caller, ActionType::Train, now)
}

/// Clean the pet: credit `REWARD_CLEAN` to the caller and raise
/// happiness by 20, saturating.
pub fn clean(pet: &mut Pet, balance: &mut u64, pet_id: u64, caller: u64, now: u64) -> (r: Result<
    PetInteracted,
    PetError,
>)
    requires
        old(pet).wf(),
        *old(balance) <= u64::MAX - REWARD_CLEAN,
    ensures
        r == interact_result(*old(pet), *old(balance), pet_id, caller, ActionType::Clean, now),
        *final(pet) == pet_after(*old(pet), *old(balance), caller, ActionType::Clean, now),
        *final(balance) == balance_after(*old(pet), *old(balance), caller, ActionType::Clean, now),
        final(pet).wf(),
{
    interact(pet, balance, pet_id, caller, ActionType::Clean, now)
}

} // verus!
