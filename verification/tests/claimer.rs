use relay_collator::claim::{claim_slot, ClaimError};
use relay_collator::keys::{KeyCustody, PublicKey};

fn key(tag: u8) -> PublicKey {
    PublicKey::new(vec![tag; 32])
}

#[test]
fn assigned_index_is_slot_mod_len() {
    // Three authorities, slot 7: the assigned index is 7 mod 3 = 1.
    let authorities = vec![key(1), key(2), key(3)];
    let custody = KeyCustody::new(vec![key(2)]);
    let claim = claim_slot(&authorities, 7, &custody, false)
        .expect("non-empty authority set")
        .expect("assigned key is held");
    assert_eq!(claim.author_index, 1);
    assert_eq!(claim.author, key(2));
    assert_eq!(claim.slot, 7);
}

#[test]
fn empty_authorities_is_an_error_not_a_skip() {
    let custody = KeyCustody::new(vec![key(1)]);
    let r = claim_slot(&Vec::new(), 7, &custody, false);
    assert_eq!(r, Err(ClaimError::EmptyAuthorities));
    let forced = claim_slot(&Vec::new(), 7, &custody, true);
    assert_eq!(forced, Err(ClaimError::EmptyAuthorities));
}

#[test]
fn assigned_key_not_held_yields_no_claim() {
    let authorities = vec![key(1), key(2), key(3)];
    let custody = KeyCustody::new(vec![key(1)]);
    // Slot 7 assigns index 1, whose key is not held.
    let r = claim_slot(&authorities, 7, &custody, false);
    assert_eq!(r, Ok(None));
}

#[test]
fn force_authoring_picks_first_held_key() {
    let authorities = vec![key(1), key(2), key(3)];
    let custody = KeyCustody::new(vec![key(3)]);
    // Slot 7 assigns index 1; under force-authoring the first held
    // authority in list order claims instead.
    let claim = claim_slot(&authorities, 7, &custody, true)
        .expect("non-empty authority set")
        .expect("a held key exists");
    assert_eq!(claim.author_index, 2);
    assert_eq!(claim.author, key(3));
}

#[test]
fn force_authoring_without_any_held_key_yields_no_claim() {
    let authorities = vec![key(1), key(2), key(3)];
    let custody = KeyCustody::new(Vec::new());
    let r = claim_slot(&authorities, 7, &custody, true);
    assert_eq!(r, Ok(None));
}

#[test]
fn claimer_is_deterministic() {
    let authorities = vec![key(1), key(2), key(3)];
    let custody = KeyCustody::new(vec![key(2), key(3)]);
    for force in [false, true] {
        let first = claim_slot(&authorities, 7, &custody, force);
        let second = claim_slot(&authorities, 7, &custody, force);
        assert_eq!(first, second);
    }
}

#[test]
fn assigned_index_wraps_with_slot() {
    let authorities = vec![key(1), key(2)];
    let custody = KeyCustody::new(vec![key(1), key(2)]);
    for slot in 0u64..6 {
        let claim = claim_slot(&authorities, slot, &custody, false)
            .expect("non-empty authority set")
            .expect("all keys held");
        assert_eq!(claim.author_index as u64, slot % 2);
    }
}
