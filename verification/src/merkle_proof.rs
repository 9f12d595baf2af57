//! Proofs that a token and its rarity belong to a collection.
//!
//! A collection is fixed by the root of a hash tree over its leaves. A proof
//! is the list of sibling digests met on the way from a leaf to the root. On
//! each level the two digests are put in lexicographic order before they are
//! hashed, so a proof carries no left or right marks.

use crate::bytes::{digest_eq, digest_le, le_bytes, lex_le, u64_to_le_bytes, Address};
use crate::bytes::{lemma_lex_le_antisymmetric, lemma_lex_le_total};
use crate::hashing::{keccak, keccak256};
use vstd::prelude::*;

verus! {

/// The byte that starts what is hashed into a leaf. No pair of digests is as
/// short as a leaf's 41 bytes, so a leaf is never taken for an inner node.
pub const LEAF_PREFIX: u8 = 0;

/// What is hashed into the leaf of a token: the prefix, the token's identity
/// and its rarity, least significant byte first.
pub open spec fn leaf_preimage(token: Seq<u8>, rarity: u64) -> Seq<u8> {
    seq![LEAF_PREFIX] + token + le_bytes(rarity)
}

/// The leaf of a token with its rarity.
pub open spec fn leaf_digest(token: Seq<u8>, rarity: u64) -> Seq<u8> {
    keccak256(leaf_preimage(token, rarity))
}

/// Two digests joined, the one that comes first in lexicographic order in
/// front.
pub open spec fn ordered_pair(a: Seq<u8>, b: Seq<u8>) -> Seq<u8> {
    if lex_le(a, b) {
        a + b
    } else {
        b + a
    }
}

/// The parent of two digests.
pub open spec fn parent_digest(a: Seq<u8>, b: Seq<u8>) -> Seq<u8> {
    keccak256(ordered_pair(a, b))
}

/// The digest reached from `start` by joining it with each sibling in turn.
pub open spec fn climb(start: Seq<u8>, siblings: Seq<Seq<u8>>) -> Seq<u8>
    decreases siblings.len(),
{
    if siblings.len() == 0 {
        start
    } else {
        climb(parent_digest(start, siblings[0]), siblings.drop_first())
    }
}

/// Every digest on the climb has 32 bytes: the start, each sibling and each
/// parent on the way.
pub open spec fn climb_sized(start: Seq<u8>, siblings: Seq<Seq<u8>>) -> bool
    decreases siblings.len(),
{
    &&& start.len() == 32
    &&& siblings.len() > 0 ==> {
        &&& siblings[0].len() == 32
        &&& climb_sized(parent_digest(start, siblings[0]), siblings.drop_first())
    }
}

/// The siblings of a proof as byte strings.
pub open spec fn sibling_bytes(proof: Seq<[u8; 32]>) -> Seq<Seq<u8>> {
    Seq::new(proof.len(), |i: int| proof[i]@)
}

/// What `verify` decides: the climb from `leaf` along `proof` ends in `root`.
pub open spec fn proves(proof: Seq<[u8; 32]>, root: Seq<u8>, leaf: Seq<u8>) -> bool {
    climb(leaf, sibling_bytes(proof)) == root
}

/// The 41 bytes that are hashed into the leaf of `token` with `rarity`.
pub fn leaf_bytes(token: &Address, rarity: u64) -> (out: [u8; 41])
    ensures
        out@ == leaf_preimage(token@, rarity),
{
    let mut out: [u8; 41] = [0u8; 41];
    out[0] = LEAF_PREFIX;
    let mut i: usize = 0;
    while i < 32
        invariant
            0 <= i <= 32,
            out@[0] == LEAF_PREFIX,
            forall|j: int| 0 <= j < i ==> out@[1 + j] == token@[j],
        decreases 32 - i,
    {
        out[1 + i] = token.bytes[i];
        i += 1;
    }
    let tail = u64_to_le_bytes(rarity);
    let mut k: usize = 0;
    while k < 8
        invariant
            0 <= k <= 8,
            out@[0] == LEAF_PREFIX,
            forall|j: int| 0 <= j < 32 ==> out@[1 + j] == token@[j],
            forall|j: int| 0 <= j < k ==> out@[33 + j] == tail@[j],
        decreases 8 - k,
    {
        out[33 + k] = tail[k];
        k += 1;
    }
    assert(out@ =~= leaf_preimage(token@, rarity));
    out
}

/// The leaf of `token` with `rarity`.
pub fn leaf(token: &Address, rarity: u64) -> (out: [u8; 32])
    ensures
        out@ == leaf_digest(token@, rarity),
{
    let bytes = leaf_bytes(token, rarity);
    keccak(bytes.as_slice())
}

/// The 64 bytes that are hashed into the parent of `a` and `b`.
pub fn sorted_pair(a: &[u8; 32], b: &[u8; 32]) -> (out: [u8; 64])
    ensures
        out@ == ordered_pair(a@, b@),
{
    let a_first = digest_le(a, b);
    let mut out: [u8; 64] = [0u8; 64];
    let mut i: usize = 0;
    while i < 32
        invariant
            0 <= i <= 32,
            forall|j: int| 0 <= j < i ==> out@[j] == (if a_first { a@[j] } else { b@[j] }),
            forall|j: int| 0 <= j < i ==> out@[32 + j] == (if a_first { b@[j] } else { a@[j] }),
        decreases 32 - i,
    {
        out[i] = if a_first { a[i] } else { b[i] };
        out[32 + i] = if a_first { b[i] } else { a[i] };
        i += 1;
    }
    assert(out@ =~= ordered_pair(a@, b@));
    out
}

/// The parent of `a` and `b`.
pub fn parent(a: &[u8; 32], b: &[u8; 32]) -> (out: [u8; 32])
    ensures
        out@ == parent_digest(a@, b@),
{
    let pair = sorted_pair(a, b);
    keccak(pair.as_slice())
}

/// The digest that the climb from `leaf` along `proof` ends in. Every
/// digest on the way has 32 bytes.
pub fn compute_root(proof: &Vec<[u8; 32]>, leaf: [u8; 32]) -> (out: [u8; 32])
    ensures
        out@ == climb(leaf@, sibling_bytes(proof@)),
        climb_sized(leaf@, sibling_bytes(proof@)),
{
    let ghost siblings = sibling_bytes(proof@);
    let mut computed: [u8; 32] = leaf;
    let mut i: usize = 0;
    assert(siblings.skip(0) =~= siblings);
    while i < proof.len()
        invariant
            0 <= i <= proof.len(),
            siblings == sibling_bytes(proof@),
            climb(leaf@, siblings) == climb(computed@, siblings.skip(i as int)),
            climb_sized(leaf@, siblings) == climb_sized(computed@, siblings.skip(i as int)),
        decreases proof.len() - i,
    {
        proof {
            assert(siblings.skip(i as int).drop_first() =~= siblings.skip(i as int + 1));
            assert(siblings.skip(i as int)[0] == proof@[i as int]@);
        }
        computed = parent(&computed, &proof[i]);
        i += 1;
    }
    computed
}

/// Whether `proof` shows that `leaf` belongs to the tree with root `root`.
/// An empty proof shows it exactly when the leaf is the root.
pub fn verify(proof: Vec<[u8; 32]>, root: [u8; 32], leaf: [u8; 32]) -> (valid: bool)
    ensures
        valid == proves(proof@, root@, leaf@),
        proof@.len() == 0 ==> valid == (leaf@ == root@),
        climb_sized(leaf@, sibling_bytes(proof@)),
{
    let computed = compute_root(&proof, leaf);
    digest_eq(&computed, &root)
}

/// The parent of two digests does not depend on the order in which they are
/// given.
pub proof fn lemma_parent_symmetric(a: Seq<u8>, b: Seq<u8>)
    ensures
        ordered_pair(a, b) == ordered_pair(b, a),
        parent_digest(a, b) == parent_digest(b, a),
{
    lemma_lex_le_total(a, b);
    if lex_le(a, b) && lex_le(b, a) {
        lemma_lex_le_antisymmetric(a, b);
    }
}

/// Climbing along a list of siblings and then past one more is climbing along
/// the longer list.
pub proof fn lemma_climb_push(start: Seq<u8>, siblings: Seq<Seq<u8>>, last: Seq<u8>)
    ensures
        climb(start, siblings.push(last)) == parent_digest(climb(start, siblings), last),
    decreases siblings.len(),
{
    if siblings.len() == 0 {
        assert(siblings.push(last).drop_first() =~= siblings);
        assert(climb(parent_digest(start, last), siblings) == parent_digest(start, last));
    } else {
        assert(siblings.push(last).drop_first() =~= siblings.drop_first().push(last));
        lemma_climb_push(parent_digest(start, siblings[0]), siblings.drop_first(), last);
    }
}

} // verus!
