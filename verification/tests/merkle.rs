use solana_program::keccak::hashv;
use staking::bytes::Address;
use staking::hashing::digest;
use staking::merkle_proof::{compute_root, leaf, leaf_bytes, parent, sorted_pair, verify};

fn token(n: u8) -> Address {
    Address::new([n; 32])
}

fn joined(a: &[u8; 32], b: &[u8; 32]) -> Vec<u8> {
    let mut out = a.to_vec();
    out.extend_from_slice(b);
    out
}

/// Three leaves: the first two share a parent, the third stands alone one
/// level higher.
fn three_leaf_tree() -> ([[u8; 32]; 3], [u8; 32], [u8; 32]) {
    let leaves = [leaf(&token(1), 2), leaf(&token(2), 5), leaf(&token(3), 1)];
    let inner = parent(&leaves[0], &leaves[1]);
    let root = parent(&inner, &leaves[2]);
    (leaves, inner, root)
}

#[test]
fn leaf_is_the_digest_of_prefix_token_and_rarity() {
    let t = token(7);
    let rarity: u64 = 0x0102;
    let expected = hashv(&[&[0x00], &t.to_bytes(), &rarity.to_le_bytes()]).to_bytes();
    assert_eq!(leaf(&t, rarity), expected);
    let bytes = leaf_bytes(&t, rarity);
    assert_eq!(bytes.len(), 41);
    assert_eq!(bytes[0], 0);
    assert_eq!(&bytes[1..33], &[7u8; 32]);
    assert_eq!(&bytes[33..], &[2, 1, 0, 0, 0, 0, 0, 0]);
}

#[test]
fn sorted_pair_puts_the_smaller_digest_first() {
    let lo = [1u8; 32];
    let hi = [2u8; 32];
    assert_eq!(sorted_pair(&lo, &hi).to_vec(), joined(&lo, &hi));
    assert_eq!(sorted_pair(&hi, &lo).to_vec(), joined(&lo, &hi));
}

#[test]
fn parent_is_the_digest_of_the_sorted_pair() {
    let lo = [1u8; 32];
    let hi = [2u8; 32];
    let expected = hashv(&[&lo, &hi]).to_bytes();
    assert_eq!(parent(&lo, &hi), expected);
    assert_eq!(parent(&hi, &lo), expected);
    assert_ne!(parent(&lo, &hi), lo);
}

#[test]
fn empty_proof_is_valid_only_when_leaf_is_root() {
    let l = leaf(&token(1), 1);
    assert!(verify(Vec::new(), l, l));
    let mut other = l;
    other[0] ^= 1;
    assert!(!verify(Vec::new(), other, l));
}

#[test]
fn every_leaf_of_a_three_leaf_tree_verifies() {
    let (leaves, inner, root) = three_leaf_tree();
    assert!(verify(vec![leaves[1], leaves[2]], root, leaves[0]));
    assert!(verify(vec![leaves[0], leaves[2]], root, leaves[1]));
    assert!(verify(vec![inner], root, leaves[2]));
    assert_eq!(compute_root(&vec![inner], leaves[2]), root);
}

#[test]
fn a_flipped_bit_in_the_leaf_is_rejected() {
    let (leaves, _, root) = three_leaf_tree();
    for byte in 0..32 {
        for bit in 0..8 {
            let mut altered = leaves[0];
            altered[byte] ^= 1 << bit;
            assert!(!verify(vec![leaves[1], leaves[2]], root, altered));
        }
    }
}

#[test]
fn a_flipped_bit_in_any_proof_node_is_rejected() {
    let (leaves, _, root) = three_leaf_tree();
    for node in 0..2 {
        for byte in 0..32 {
            for bit in 0..8 {
                let mut proof = vec![leaves[1], leaves[2]];
                proof[node][byte] ^= 1 << bit;
                assert!(!verify(proof, root, leaves[0]));
            }
        }
    }
}

#[test]
fn a_wrong_rarity_is_rejected() {
    let (leaves, _, root) = three_leaf_tree();
    let claimed = leaf(&token(1), 3);
    assert!(!verify(vec![leaves[1], leaves[2]], root, claimed));
}

#[test]
fn joining_without_sorting_gives_another_root() {
    let (leaves, inner, root) = three_leaf_tree();
    let (lo, hi) = if inner <= leaves[2] { (inner, leaves[2]) } else { (leaves[2], inner) };
    assert_eq!(digest(&joined(&lo, &hi)), root);
    assert_ne!(digest(&joined(&hi, &lo)), root);
    // The proof of the third leaf holds whichever side its sibling is on.
    assert!(verify(vec![inner], root, leaves[2]));
    assert!(verify(vec![leaves[2]], root, inner));
}
