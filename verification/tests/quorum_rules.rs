use escrow_program::address::Address;
use escrow_program::error::EscrowError;
use escrow_program::quorum::{authorize, contains_address, count_signed_parties, Roles};

fn key(n: u8) -> Address {
    Address { bytes: [n; 32] }
}

fn three() -> Roles {
    Roles { buyer: key(1), seller: key(2), moderator: Some(key(3)) }
}

#[test]
fn two_of_three_needs_two_distinct_parties() {
    let roles = three();
    assert_eq!(authorize(&[key(1), key(2)], &roles, 2, 0, 100), Ok(()));
    assert_eq!(authorize(&[key(1)], &roles, 2, 0, 100), Err(EscrowError::InsufficientSignatures));
    assert_eq!(authorize(&[key(9), key(3), key(2)], &roles, 2, 0, 100), Ok(()));
}

#[test]
fn a_signer_listed_twice_counts_once() {
    let roles = three();
    assert_eq!(count_signed_parties(&[key(1), key(1), key(1)], &roles), 1);
    assert_eq!(
        authorize(&[key(1), key(1)], &roles, 2, 0, 100),
        Err(EscrowError::InsufficientSignatures)
    );
}

#[test]
fn strangers_do_not_count() {
    let roles = three();
    assert_eq!(count_signed_parties(&[key(7), key(8), key(9)], &roles), 0);
    assert_eq!(
        authorize(&[key(7), key(8), key(9)], &roles, 1, 0, 100),
        Err(EscrowError::InsufficientSignatures)
    );
}

#[test]
fn quorum_for_every_subset_and_threshold() {
    let roles = three();
    let parties = [key(1), key(2), key(3)];
    for mask in 0u8..8 {
        let mut signers = Vec::new();
        for (i, party) in parties.iter().enumerate() {
            if mask & (1 << i) != 0 {
                signers.push(*party);
            }
        }
        for required in 0u8..=4 {
            let expected = signers.len() >= required as usize;
            assert_eq!(authorize(&signers, &roles, required, 0, 50).is_ok(), expected);
            // A timelock that has not expired changes nothing.
            assert_eq!(authorize(&signers, &roles, required, 51, 50).is_ok(), expected);
        }
    }
}

#[test]
fn without_moderator_only_two_parties_count() {
    let roles = Roles { buyer: key(1), seller: key(2), moderator: None };
    assert_eq!(count_signed_parties(&[key(1), key(2), key(3)], &roles), 2);
    assert_eq!(
        authorize(&[key(1), key(3)], &roles, 2, 0, 0),
        Err(EscrowError::InsufficientSignatures)
    );
}

#[test]
fn one_key_in_two_roles_is_one_party() {
    let roles = Roles { buyer: key(1), seller: key(1), moderator: Some(key(1)) };
    assert_eq!(count_signed_parties(&[key(1)], &roles), 1);
}

#[test]
fn after_expiry_only_the_seller_counts() {
    let roles = three();
    // Buyer and moderator meet the quorum but are not the seller.
    assert_eq!(
        authorize(&[key(1), key(3)], &roles, 2, 1000, 1000),
        Err(EscrowError::InsufficientSignatures)
    );
    assert_eq!(authorize(&[key(2)], &roles, 2, 1000, 1000), Ok(()));
    assert_eq!(authorize(&[key(2)], &roles, 3, 1000, 5000), Ok(()));
    // One second before the unlock time the quorum still rules.
    assert_eq!(authorize(&[key(2)], &roles, 2, 1000, 999), Err(EscrowError::InsufficientSignatures));
}

#[test]
fn no_timelock_never_expires() {
    let roles = three();
    assert_eq!(
        authorize(&[key(2)], &roles, 2, 0, i64::MAX),
        Err(EscrowError::InsufficientSignatures)
    );
    // A negative unlock time is no timelock either.
    assert_eq!(authorize(&[key(2)], &roles, 2, -5, 10), Err(EscrowError::InsufficientSignatures));
}

#[test]
fn contains_address_finds_only_listed_keys() {
    assert!(contains_address(&[key(1), key(2)], &key(2)));
    assert!(!contains_address(&[key(1), key(2)], &key(3)));
    assert!(!contains_address(&[], &key(1)));
}

#[test]
fn addresses_differ_in_any_byte() {
    let mut other = [5u8; 32];
    other[31] = 6;
    assert_ne!(key(5), Address { bytes: other });
    assert_eq!(key(5), Address { bytes: [5u8; 32] });
}
