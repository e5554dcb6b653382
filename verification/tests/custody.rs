//! The custody derivation against the real derivation primitive.

use nft_coupon::custody::{derive_issuance_escrow, derive_resale_escrow};

fn id(byte: u8) -> Vec<u8> {
    vec![byte; 32]
}

#[test]
fn derivation_yields_a_32_byte_identity_and_a_bump() {
    let (address, _bump) = derive_issuance_escrow(&id(1), &id(2), &id(3)).unwrap();
    assert_eq!(address.len(), 32);
}

#[test]
fn derivation_is_a_pure_function_of_its_seeds() {
    let first = derive_issuance_escrow(&id(1), &id(2), &id(3)).unwrap();
    let second = derive_issuance_escrow(&id(1), &id(2), &id(3)).unwrap();
    assert_eq!(first, second);

    let relisted = derive_resale_escrow(&id(2), &id(5), &id(3)).unwrap();
    assert_eq!(relisted, derive_resale_escrow(&id(2), &id(5), &id(3)).unwrap());
}

#[test]
fn derivation_depends_on_every_seed() {
    let base = derive_issuance_escrow(&id(1), &id(2), &id(3)).unwrap();
    // Different merchant, asset or program: different escrow identity.
    assert_ne!(base, derive_issuance_escrow(&id(9), &id(2), &id(3)).unwrap());
    assert_ne!(base, derive_issuance_escrow(&id(1), &id(9), &id(3)).unwrap());
    assert_ne!(base, derive_issuance_escrow(&id(1), &id(2), &id(9)).unwrap());
    // The derived identity is not any of the seeds handed in.
    assert_ne!(base.0, id(1));
    assert_ne!(base.0, id(2));
    assert_ne!(base.0, id(3));
}

#[test]
fn issuance_and_resale_families_do_not_collide() {
    // Same two identity seeds under both labels: distinct escrow identities.
    let issuance = derive_issuance_escrow(&id(4), &id(5), &id(3)).unwrap();
    let resale = derive_resale_escrow(&id(4), &id(5), &id(3)).unwrap();
    assert_ne!(issuance.0, resale.0);
}
