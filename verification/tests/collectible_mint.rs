use nftagachi::collectibles::mint_background;
use nftagachi::collectibles::mint_skin;
use nftagachi::collectibles::new_store;
use nftagachi::collectibles::MintError;

#[test]
fn mint_skin_stores_fields_as_given() {
    let mut store = new_store();
    let r = mint_skin(
        &mut store,
        7,
        String::from("seed-1"),
        String::from("dragon"),
        String::from("rare"),
        5000,
    );
    assert_eq!(r, Ok(()));
    assert_eq!(store.skins.len(), 1);
    assert_eq!(store.skins[0].seed, "seed-1");
    assert_eq!(store.skins[0].record.owner, 7);
    assert_eq!(store.skins[0].record.variant_id, "dragon");
    assert_eq!(store.skins[0].record.tier, "rare");
    assert_eq!(store.skins[0].record.mint_time, 5000);
    assert_eq!(store.backgrounds.len(), 0);
}

#[test]
fn second_mint_at_same_key_fails_unchanged() {
    let mut store = new_store();
    let r1 = mint_skin(
        &mut store,
        7,
        String::from("seed-1"),
        String::from("dragon"),
        String::from("rare"),
        5000,
    );
    assert_eq!(r1, Ok(()));
    let r2 = mint_skin(
        &mut store,
        7,
        String::from("seed-1"),
        String::from("phoenix"),
        String::from("epic"),
        6000,
    );
    assert_eq!(r2, Err(MintError::AlreadyExists));
    assert_eq!(store.skins.len(), 1);
    assert_eq!(store.skins[0].record.variant_id, "dragon");
}

#[test]
fn same_seed_different_owner_is_a_fresh_key() {
    let mut store = new_store();
    let r1 = mint_skin(
        &mut store,
        7,
        String::from("seed-1"),
        String::from("dragon"),
        String::from("rare"),
        5000,
    );
    let r2 = mint_skin(
        &mut store,
        8,
        String::from("seed-1"),
        String::from("dragon"),
        String::from("rare"),
        5000,
    );
    assert_eq!(r1, Ok(()));
    assert_eq!(r2, Ok(()));
    assert_eq!(store.skins.len(), 2);
}

#[test]
fn skin_and_background_keys_are_independent() {
    let mut store = new_store();
    let r1 = mint_skin(
        &mut store,
        7,
        String::from("seed-1"),
        String::from("dragon"),
        String::from("rare"),
        5000,
    );
    let r2 = mint_background(
        &mut store,
        7,
        String::from("seed-1"),
        String::from("forest"),
        String::from("common"),
        5000,
    );
    assert_eq!(r1, Ok(()));
    assert_eq!(r2, Ok(()));
    assert_eq!(store.skins.len(), 1);
    assert_eq!(store.backgrounds.len(), 1);
    assert_eq!(store.backgrounds[0].record.bg_id, "forest");
}

#[test]
fn duplicate_background_fails_unchanged() {
    let mut store = new_store();
    let r1 = mint_background(
        &mut store,
        7,
        String::from("bg-seed"),
        String::from("forest"),
        String::from("common"),
        5000,
    );
    let r2 = mint_background(
        &mut store,
        7,
        String::from("bg-seed"),
        String::from("ocean"),
        String::from("rare"),
        7000,
    );
    assert_eq!(r1, Ok(()));
    assert_eq!(r2, Err(MintError::AlreadyExists));
    assert_eq!(store.backgrounds.len(), 1);
    assert_eq!(store.backgrounds[0].record.bg_id, "forest");
}
