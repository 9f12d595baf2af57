use solana_program::pubkey::Pubkey;
use staking::authority::{
    copy_bytes, make_keyed_seeds, make_rewards_seeds, DerivedAuthority, DEPOSIT_TAG, ESCROW_TAG,
    REWARDS_TAG, STAKED_NFT_TAG, STAKING_TAG,
};
use staking::bytes::Address;
use staking::errors::StakingError;

fn program() -> Address {
    Address::new([9u8; 32])
}

fn find(seeds: &[&[u8]]) -> (Address, u8) {
    let (key, bump) = Pubkey::find_program_address(seeds, &Pubkey::new_from_array([9u8; 32]));
    (Address::new(key.to_bytes()), bump)
}

#[test]
fn tags_are_the_seed_texts() {
    assert_eq!(&STAKING_TAG, b"staking");
    assert_eq!(&ESCROW_TAG, b"escrow");
    assert_eq!(&REWARDS_TAG, b"rewards");
    assert_eq!(&STAKED_NFT_TAG, b"staked_nft");
    assert_eq!(&DEPOSIT_TAG, b"deposit");
}

#[test]
fn keyed_seeds_are_tag_key_and_bump() {
    let key = Address::new([4u8; 32]);
    let seeds = make_keyed_seeds(&ESCROW_TAG, &key, 250);
    assert_eq!(seeds, vec![b"escrow".to_vec(), vec![4u8; 32], vec![250u8]]);
    let mint = Address::new([5u8; 32]);
    let seeds = make_rewards_seeds(&key, &mint, 3);
    assert_eq!(seeds, vec![b"rewards".to_vec(), vec![4u8; 32], vec![5u8; 32], vec![3u8]]);
    assert_eq!(copy_bytes(b"abc"), b"abc".to_vec());
}

#[test]
fn derive_gives_the_address_the_ledger_derives() {
    let key = [4u8; 32];
    let (expected, bump) = find(&[b"escrow", &key]);
    let seeds = make_keyed_seeds(&ESCROW_TAG, &Address::new(key), bump);
    let authority = DerivedAuthority::derive(seeds.clone(), program()).unwrap();
    assert_eq!(authority.address(), expected);
    assert_ne!(authority.address(), program());
    assert_eq!(authority.signer_seeds(), &seeds);
}

#[test]
fn derive_fails_on_an_address_with_a_private_key() {
    // The search for a bump tries 255 first: every bump above the one found
    // derives a point on the curve.
    let mut found_rejected = false;
    for n in 0..=255u8 {
        let key = [n; 32];
        let (_, bump) = find(&[b"escrow", &key]);
        if bump < 255 {
            let seeds = make_keyed_seeds(&ESCROW_TAG, &Address::new(key), 255);
            assert!(DerivedAuthority::derive(seeds, program()).is_none());
            found_rejected = true;
            break;
        }
    }
    assert!(found_rejected);
}

#[test]
fn derive_fails_on_oversized_seeds() {
    let long = vec![vec![0u8; 33]];
    assert!(DerivedAuthority::derive(long, program()).is_none());
    let many: Vec<Vec<u8>> = (0..17).map(|i| vec![i as u8]).collect();
    assert!(DerivedAuthority::derive(many, program()).is_none());
}

#[test]
fn confirm_accepts_the_derived_address_only() {
    let key = [4u8; 32];
    let (expected, bump) = find(&[b"staking", &key]);
    let seeds = make_keyed_seeds(&STAKING_TAG, &Address::new(key), bump);
    let confirmed = DerivedAuthority::confirm(&expected, seeds.clone(), program());
    assert_eq!(confirmed.unwrap().address(), expected);
    let mut wrong = expected.to_bytes();
    wrong[0] ^= 1;
    let rejected = DerivedAuthority::confirm(&Address::new(wrong), seeds, program());
    assert_eq!(rejected.err(), Some(StakingError::InvalidDerivation));
    // Another tag derives another address.
    let other = make_keyed_seeds(&ESCROW_TAG, &Address::new(key), bump);
    let rejected = DerivedAuthority::confirm(&expected, other, program());
    assert_eq!(rejected.err(), Some(StakingError::InvalidDerivation));
}
