//! Collectible record minting.
//!
//! Two structurally identical operations create immutable skin and
//! background records. No rarity or uniqueness computation happens
//! here: id and tier are caller-supplied and stored as given. The one
//! rule is the store's: a record is created only if none exists yet at
//! its `(owner, seed)` key, and a second mint at the same key fails.

use vstd::prelude::*;

verus! {

/// An immutable skin record.
#[derive(Debug)]
pub struct Skin {
    pub owner: u64,
    pub variant_id: String,
    pub tier: String,
    pub mint_time: u64,
}

/// An immutable background record.
#[derive(Debug)]
pub struct Background {
    pub owner: u64,
    pub bg_id: String,
    pub tier: String,
    pub mint_time: u64,
}

/// A skin record together with the caller-supplied seed that keys it.
#[derive(Debug)]
pub struct SkinEntry {
    pub seed: String,
    pub record: Skin,
}

/// A background record together with the seed that keys it.
#[derive(Debug)]
pub struct BackgroundEntry {
    pub seed: String,
    pub record: Background,
}

/// Why a mint was refused.
#[derive(Clone, Copy, Debug, PartialEq, Eq, Structural)]
pub enum MintError {
    /// A record already exists at this `(owner, seed)` key.
    AlreadyExists,
}

/// The durable collection of minted records, keyed by `(owner, seed)`.
#[derive(Debug)]
pub struct CollectibleStore {
    pub skins: Vec<SkinEntry>,
    pub backgrounds: Vec<BackgroundEntry>,
}

/// Whether a skin entry sits at the `(owner, seed)` key.
pub open spec fn skin_key_matches(e: SkinEntry, owner: u64, seed: Seq<char>) -> bool {
    e.record.owner == owner && e.seed@ == seed
}

/// Whether a background entry sits at the `(owner, seed)` key.
pub open spec fn background_key_matches(e: BackgroundEntry, owner: u64, seed: Seq<char>) -> bool {
    e.record.owner == owner && e.seed@ == seed
}

impl CollectibleStore {
    /// A skin record exists at the `(owner, seed)` key.
    pub open spec fn has_skin(self, owner: u64, seed: Seq<char>) -> bool {
        exists|i: int| 0 <= i < self.skins@.len() && skin_key_matches(self.skins@[i], owner, seed)
    }

    /// A background record exists at the `(owner, seed)` key.
    pub open spec fn has_background(self, owner: u64, seed: Seq<char>) -> bool {
        exists|i: int|
            0 <= i < self.backgrounds@.len() && background_key_matches(
                self.backgrounds@[i],
                owner,
                seed,
            )
    }
}

/// Create an empty collectible store.
pub fn new_store() -> (s: CollectibleStore)
    ensures
        s.skins@ == Seq::<SkinEntry>::empty(),
        s.backgrounds@ == Seq::<BackgroundEntry>::empty(),
{
    CollectibleStore { skins: Vec::new(), backgrounds: Vec::new() }
}

/// Whether a skin record exists at the `(owner, seed)` key.
pub fn skin_exists(store: &CollectibleStore, owner: u64, seed: &String) -> (b: bool)
    ensures
        b == store.has_skin(owner, seed@),
{
    let mut i: usize = 0;
    while i < store.skins.len()
        invariant
            0 <= i <= store.skins@.len(),
            forall|j: int| 0 <= j < i ==> !skin_key_matches(store.skins@[j], owner, seed@),
        decreases store.skins@.len() - i,
    {
        let e = &store.skins[i];
        if e.record.owner == owner && e.seed == *seed {
            return true;
        }
        i = i + 1;
    }
    false
}

/// Whether a background record exists at the `(owner, seed)` key.
pub fn background_exists(store: &CollectibleStore, owner: u64, seed: &String) -> (b: bool)
    ensures
        b == store.has_background(owner, seed@),
{
    let mut i: usize = 0;
    while i < store.backgrounds.len()
        invariant
            0 <= i <= store.backgrounds@.len(),
            forall|j: int| 0 <= j < i ==> !background_key_matches(store.backgrounds@[j], owner, seed@),
        decreases store.backgrounds@.len() - i,
    {
        let e = &store.backgrounds[i];
        if e.record.owner == owner && e.seed == *seed {
            return true;
        }
        i = i + 1;
    }
    false
}

/// Mint a skin record at the `(owner, seed)` key: create if absent,
/// fail without any change if a record already sits at that key.
pub fn mint_skin(
    store: &mut CollectibleStore,
    owner: u64,
    seed: String,
    variant_id: String,
    tier: String,
    mint_time: u64,
) -> (r: Result<(), MintError>)
    ensures
        r is Ok <==> !old(store).has_skin(owner, seed@),
        r is Ok ==> final(store).skins@ == old(store).skins@.push(
            (SkinEntry { seed, record: Skin { owner, variant_id, tier, mint_time } }),
        ),
        r is Ok ==> final(store).backgrounds@ == old(store).backgrounds@,
        r is Err ==> *final(store) == *old(store) && r == Err::<(), MintError>(
            MintError::AlreadyExists,
        ),
{
    if skin_exists(store, owner, &seed) {
        return Err(MintError::AlreadyExists);
    }
    store.skins.push(SkinEntry { seed, record: Skin { owner, variant_id, tier, mint_time } });
    Ok(())
}

/// Mint a background record at the `(owner, seed)` key: create if
/// absent, fail without any change if a record already sits there.
pub fn mint_background(
    store: &mut CollectibleStore,
    owner: u64,
    seed: String,
    bg_id: String,
    tier: String,
    mint_time: u64,
) -> (r: Result<(), MintError>)
    ensures
        r is Ok <==> !old(store).has_background(owner, seed@),
        r is Ok ==> final(store).backgrounds@ == old(store).backgrounds@.push(
            (BackgroundEntry { seed, record: Background { owner, bg_id, tier, mint_time } }),
        ),
        r is Ok ==> final(store).skins@ == old(store).skins@,
        r is Err ==> *final(store) == *old(store) && r == Err::<(), MintError>(
            MintError::AlreadyExists,
        ),
{
    if background_exists(store, owner, &seed) {
        return Err(MintError::AlreadyExists);
    }
    store.backgrounds.push(
        BackgroundEntry { seed, record: Background { owner, bg_id, tier, mint_time } },
    );
    Ok(())
}

} // verus!
