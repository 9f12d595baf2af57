//! What a membership proof is worth: every leaf of a tree verifies against
//! the tree's root, and a leaf or sibling that was altered, or a root built
//! without sorting, verifies only if Keccak-256 collides.
//!
//! The laws on altered proofs speak of climbs whose digests all have 32
//! bytes. `compute_root` and `verify` ensure this of every climb they make.

use crate::hashing::keccak256;
use crate::bytes::lex_le;
use crate::merkle_proof::{
    climb, climb_sized, leaf_digest, lemma_climb_push, lemma_parent_symmetric, ordered_pair,
    parent_digest, proves, sibling_bytes,
};
use vstd::prelude::*;

verus! {

/// A hash tree of any shape. A level with an odd number of nodes has one
/// subtree that is shallower than its sibling.
pub enum Tree {
    Leaf { digest: Seq<u8> },
    Node { left: Box<Tree>, right: Box<Tree> },
}

/// The digest at the top of the tree.
pub open spec fn tree_root(tree: Tree) -> Seq<u8>
    decreases tree,
{
    match tree {
        Tree::Leaf { digest } => digest,
        Tree::Node { left, right } => parent_digest(tree_root(*left), tree_root(*right)),
    }
}

/// The subtree entered by the first turn of `path`: the right one on `true`.
pub open spec fn turn(left: Tree, right: Tree, path: Seq<bool>) -> Tree {
    if path[0] {
        right
    } else {
        left
    }
}

/// The subtree passed by at the first turn of `path`.
pub open spec fn passed(left: Tree, right: Tree, path: Seq<bool>) -> Tree {
    if path[0] {
        left
    } else {
        right
    }
}

/// `path`, read from the top, ends at a leaf of the tree that holds `leaf`.
pub open spec fn leads_to(tree: Tree, path: Seq<bool>, leaf: Seq<u8>) -> bool
    decreases tree,
{
    match tree {
        Tree::Leaf { digest } => path.len() == 0 && digest == leaf,
        Tree::Node { left, right } => path.len() > 0 && leads_to(
            turn(*left, *right, path),
            path.drop_first(),
            leaf,
        ),
    }
}

/// The roots of the subtrees passed by along `path`, the lowest first.
pub open spec fn siblings_along(tree: Tree, path: Seq<bool>) -> Seq<Seq<u8>>
    decreases tree,
{
    match tree {
        Tree::Leaf { digest } => Seq::empty(),
        Tree::Node { left, right } => if path.len() == 0 {
            Seq::empty()
        } else {
            siblings_along(turn(*left, *right, path), path.drop_first()).push(
                tree_root(passed(*left, *right, path)),
            )
        },
    }
}

/// Two different byte strings with one digest.
pub open spec fn collides(x: Seq<u8>, y: Seq<u8>) -> bool {
    x != y && keccak256(x) == keccak256(y)
}

/// Keccak-256 has a collision.
pub open spec fn collision_exists() -> bool {
    exists|x: Seq<u8>, y: Seq<u8>| collides(x, y)
}

/// The climb from a leaf of a tree along the siblings of its path ends in the
/// tree's root.
pub proof fn lemma_path_climbs_to_root(tree: Tree, path: Seq<bool>, leaf: Seq<u8>)
    requires
        leads_to(tree, path, leaf),
    ensures
        climb(leaf, siblings_along(tree, path)) == tree_root(tree),
    decreases tree,
{
    match tree {
        Tree::Leaf { digest } => {},
        Tree::Node { left, right } => {
            let below = turn(*left, *right, path);
            let other = passed(*left, *right, path);
            lemma_path_climbs_to_root(below, path.drop_first(), leaf);
            lemma_climb_push(leaf, siblings_along(below, path.drop_first()), tree_root(other));
            lemma_parent_symmetric(tree_root(below), tree_root(other));
        },
    }
}

/// Every token of a collection verifies: where the leaf of a token with its
/// rarity stands in a tree, the siblings along its path are a proof that
/// `verify` accepts against the tree's root.
pub proof fn lemma_member_verifies(
    tree: Tree,
    path: Seq<bool>,
    token: Seq<u8>,
    rarity: u64,
    proof: Seq<[u8; 32]>,
)
    requires
        leads_to(tree, path, leaf_digest(token, rarity)),
        sibling_bytes(proof) == siblings_along(tree, path),
    ensures
        proves(proof, tree_root(tree), leaf_digest(token, rarity)),
{
    lemma_path_climbs_to_root(tree, path, leaf_digest(token, rarity));
}

/// Two digests of 32 bytes that give one ordered pair with a third are equal.
pub proof fn lemma_ordered_pair_cancel(h1: Seq<u8>, h2: Seq<u8>, s: Seq<u8>)
    requires
        h1.len() == 32,
        h2.len() == 32,
        s.len() == 32,
        ordered_pair(h1, s) == ordered_pair(h2, s),
    ensures
        h1 == h2,
{
    let x = ordered_pair(h1, s);
    let y = ordered_pair(h2, s);
    assert((h1 + s).subrange(0, 32) =~= h1);
    assert((h1 + s).subrange(32, 64) =~= s);
    assert((s + h1).subrange(0, 32) =~= s);
    assert((s + h1).subrange(32, 64) =~= h1);
    assert((h2 + s).subrange(0, 32) =~= h2);
    assert((h2 + s).subrange(32, 64) =~= s);
    assert((s + h2).subrange(0, 32) =~= s);
    assert((s + h2).subrange(32, 64) =~= h2);
    assert(x.subrange(0, 32) == y.subrange(0, 32));
    assert(x.subrange(32, 64) == y.subrange(32, 64));
}

/// Two climbs from different digests along the same siblings end in
/// different digests, unless Keccak-256 collides.
pub proof fn lemma_climbs_stay_apart(h1: Seq<u8>, h2: Seq<u8>, siblings: Seq<Seq<u8>>)
    requires
        climb_sized(h1, siblings),
        climb_sized(h2, siblings),
        h1 != h2,
    ensures
        climb(h1, siblings) != climb(h2, siblings) || collision_exists(),
    decreases siblings.len(),
{
    if siblings.len() > 0 {
        let s = siblings[0];
        let p1 = ordered_pair(h1, s);
        let p2 = ordered_pair(h2, s);
        if p1 == p2 {
            lemma_ordered_pair_cancel(h1, h2, s);
        }
        if keccak256(p1) == keccak256(p2) {
            assert(collides(p1, p2));
        } else {
            lemma_climbs_stay_apart(keccak256(p1), keccak256(p2), siblings.drop_first());
        }
    }
}

/// A proof that verifies for one leaf verifies for no other leaf, unless
/// Keccak-256 collides: a leaf with any bit flipped is rejected.
pub proof fn lemma_altered_leaf_rejected(
    proof: Seq<[u8; 32]>,
    root: Seq<u8>,
    leaf: [u8; 32],
    altered: [u8; 32],
)
    requires
        climb_sized(leaf@, sibling_bytes(proof)),
        climb_sized(altered@, sibling_bytes(proof)),
        proves(proof, root, leaf@),
        altered@ != leaf@,
    ensures
        !proves(proof, root, altered@) || collision_exists(),
{
    lemma_climbs_stay_apart(leaf@, altered@, sibling_bytes(proof));
}

/// A climb along two lists of siblings, one after the other, is the climb
/// along the second from where the first ends.
pub proof fn lemma_climb_append(start: Seq<u8>, lower: Seq<Seq<u8>>, upper: Seq<Seq<u8>>)
    ensures
        climb(start, lower + upper) == climb(climb(start, lower), upper),
        climb_sized(start, lower + upper) == (climb_sized(start, lower) && climb_sized(
            climb(start, lower),
            upper,
        )),
    decreases lower.len(),
{
    if lower.len() == 0 {
        assert(lower + upper =~= upper);
    } else {
        assert((lower + upper).drop_first() =~= lower.drop_first() + upper);
        assert((lower + upper)[0] == lower[0]);
        lemma_climb_append(parent_digest(start, lower[0]), lower.drop_first(), upper);
    }
}

/// A proof that verifies for a leaf no longer verifies once one of its
/// siblings is replaced by another digest, unless Keccak-256 collides: a
/// proof with any bit of any node flipped is rejected.
pub proof fn lemma_altered_sibling_rejected(
    proof: Seq<[u8; 32]>,
    root: Seq<u8>,
    leaf: [u8; 32],
    at: int,
    altered: [u8; 32],
)
    requires
        climb_sized(leaf@, sibling_bytes(proof)),
        climb_sized(leaf@, sibling_bytes(proof.update(at, altered))),
        proves(proof, root, leaf@),
        0 <= at < proof.len(),
        altered@ != proof[at]@,
    ensures
        !proves(proof.update(at, altered), root, leaf@) || collision_exists(),
{
    let siblings = sibling_bytes(proof);
    let changed = sibling_bytes(proof.update(at, altered));
    let lower = siblings.subrange(0, at);
    let upper = siblings.subrange(at + 1, siblings.len() as int);
    assert(siblings =~= lower + (seq![proof[at]@] + upper));
    assert(changed =~= lower + (seq![altered@] + upper));
    lemma_climb_append(leaf@, lower, seq![proof[at]@] + upper);
    lemma_climb_append(leaf@, lower, seq![altered@] + upper);
    let h = climb(leaf@, lower);
    assert((seq![proof[at]@] + upper).drop_first() =~= upper);
    assert((seq![altered@] + upper).drop_first() =~= upper);
    let p1 = ordered_pair(h, proof[at]@);
    let p2 = ordered_pair(h, altered@);
    if p1 == p2 {
        lemma_parent_symmetric(h, proof[at]@);
        lemma_parent_symmetric(h, altered@);
        lemma_ordered_pair_cancel(proof[at]@, altered@, h);
    }
    if keccak256(p1) == keccak256(p2) {
        assert(collides(p1, p2));
    } else {
        lemma_climbs_stay_apart(keccak256(p1), keccak256(p2), upper);
    }
}

/// Two digests joined in the order that sorting does not pick.
pub open spec fn unsorted_pair(a: Seq<u8>, b: Seq<u8>) -> Seq<u8> {
    if lex_le(a, b) {
        b + a
    } else {
        a + b
    }
}

/// Joining two different digests without sorting gives another parent than
/// joining them sorted, unless Keccak-256 collides.
pub proof fn lemma_unsorted_parent_differs(a: Seq<u8>, b: Seq<u8>)
    requires
        a.len() == 32,
        b.len() == 32,
        a != b,
    ensures
        unsorted_pair(a, b) != ordered_pair(a, b),
        keccak256(unsorted_pair(a, b)) != parent_digest(a, b) || collision_exists(),
{
    let x = unsorted_pair(a, b);
    let y = ordered_pair(a, b);
    assert((a + b).subrange(0, 32) =~= a);
    assert((b + a).subrange(0, 32) =~= b);
    if x == y {
        assert(x.subrange(0, 32) == y.subrange(0, 32));
    }
    if keccak256(x) == keccak256(y) {
        assert(collides(x, y));
    }
}

/// A root built by joining one pair without sorting is not the root built
/// with every pair sorted, unless Keccak-256 collides. So a proof that
/// verifies against the one is rejected against the other.
pub proof fn lemma_unsorted_root_rejected(
    a: Seq<u8>,
    b: Seq<u8>,
    above: Seq<Seq<u8>>,
    proof: Seq<[u8; 32]>,
    leaf: Seq<u8>,
)
    requires
        a != b,
        climb_sized(parent_digest(a, b), above),
        climb_sized(keccak256(unsorted_pair(a, b)), above),
        a.len() == 32,
        b.len() == 32,
        proves(proof, climb(parent_digest(a, b), above), leaf),
    ensures
        !proves(proof, climb(keccak256(unsorted_pair(a, b)), above), leaf) || collision_exists(),
{
    lemma_unsorted_parent_differs(a, b);
    if keccak256(unsorted_pair(a, b)) != parent_digest(a, b) {
        lemma_climbs_stay_apart(parent_digest(a, b), keccak256(unsorted_pair(a, b)), above);
    }
}

} // verus!
