//! Membership proofs against a published Merkle root.  Each level hashes the
//! running digest with its sibling, smaller one first, so a proof does not
//! record on which side a sibling stands.

use vstd::prelude::*;
use vstd::bytes::spec_u64_to_le_bytes;
use crate::hashing::{append_bytes, append_u64_le, keccak256, keccak_hash};
use crate::types::Pubkey;

verus! {

broadcast use vstd::array::axiom_array_ext_equal;

/// Lexicographic `a <= b` on byte strings of equal length.
pub open spec fn lex_le(a: Seq<u8>, b: Seq<u8>) -> bool {
    a == b || exists|i: int|
        0 <= i < a.len() && i < b.len() && #[trigger] a[i] < b[i] && a.subrange(0, i) == b.subrange(
            0,
            i,
        )
}

/// The digest of one level: the two nodes, smaller first, hashed together.
pub open spec fn hash_pair(acc: Seq<u8>, sibling: Seq<u8>) -> Seq<u8> {
    if lex_le(acc, sibling) {
        keccak256(acc + sibling)
    } else {
        keccak256(sibling + acc)
    }
}

/// The digest reached from `leaf` by folding in the siblings of `proof` in order.
pub open spec fn fold_proof(leaf: Seq<u8>, proof: Seq<[u8; 32]>) -> Seq<u8>
    decreases proof.len(),
{
    if proof.len() == 0 {
        leaf
    } else {
        hash_pair(fold_proof(leaf, proof.drop_last()), proof.last()@)
    }
}

/// The leaf of a claimant: the digest of the address followed by the amount
/// in little-endian bytes.
pub open spec fn leaf_hash(claimant: Pubkey, amount: u64) -> Seq<u8> {
    keccak256(claimant.bytes@ + spec_u64_to_le_bytes(amount))
}

/// Whether `proof` leads from the leaf of `(claimant, amount)` to `root`.
pub open spec fn proves(claimant: Pubkey, amount: u64, proof: Seq<[u8; 32]>, root: [u8; 32]) -> bool {
    fold_proof(leaf_hash(claimant, amount), proof) == root@
}

/// Lexicographic comparison of two digests.
pub fn digest_le(a: &[u8; 32], b: &[u8; 32]) -> (r: bool)
    ensures
        r == lex_le(a@, b@),
{
    let mut i: usize = 0;
    while i < 32
        invariant
            i <= 32,
            a@.subrange(0, i as int) == b@.subrange(0, i as int),
        decreases 32 - i,
    {
        if a[i] < b[i] {
            return true;
        }
        if a[i] > b[i] {
            proof {
                assert(a@ != b@);
                assert forall|k: int|
                    0 <= k < 32 && #[trigger] a@[k] < b@[k] implies a@.subrange(0, k) != b@.subrange(
                    0,
                    k,
                ) by {
                    if k < i {
                        assert(a@.subrange(0, i as int)[k] == b@.subrange(0, i as int)[k]);
                    } else if k > i {
                        if a@.subrange(0, k) == b@.subrange(0, k) {
                            assert(a@.subrange(0, k)[i as int] == b@.subrange(0, k)[i as int]);
                        }
                    }
                }
            }
            return false;
        }
        proof {
            assert(a@.subrange(0, i + 1) =~= a@.subrange(0, i as int).push(a@[i as int]));
            assert(b@.subrange(0, i + 1) =~= b@.subrange(0, i as int).push(b@[i as int]));
        }
        i = i + 1;
    }
    proof {
        assert(a@.subrange(0, 32) == a@);
        assert(b@.subrange(0, 32) == b@);
    }
    true
}

/// Hashes a digest with its sibling, smaller one first.
pub fn hash_sorted_pair(acc: &[u8; 32], sibling: &[u8; 32]) -> (digest: [u8; 32])
    ensures
        digest@ == hash_pair(acc@, sibling@),
{
    let mut combined: Vec<u8> = Vec::new();
    if digest_le(acc, sibling) {
        append_bytes(&mut combined, acc.as_slice());
        append_bytes(&mut combined, sibling.as_slice());
    } else {
        append_bytes(&mut combined, sibling.as_slice());
        append_bytes(&mut combined, acc.as_slice());
    }
    assert(Seq::<u8>::empty() + acc@ == acc@);
    assert(Seq::<u8>::empty() + sibling@ == sibling@);
    keccak_hash(combined.as_slice())
}

/// Computes the leaf of `(claimant, amount)`.
pub fn compute_leaf(claimant: Pubkey, amount: u64) -> (leaf: [u8; 32])
    ensures
        leaf@ == leaf_hash(claimant, amount),
{
    let mut data: Vec<u8> = Vec::new();
    append_bytes(&mut data, claimant.bytes.as_slice());
    append_u64_le(&mut data, amount);
    assert(Seq::<u8>::empty() + claimant.bytes@ == claimant.bytes@);
    keccak_hash(data.as_slice())
}

/// Folds the siblings of `proof` into `leaf`.
pub fn compute_root(leaf: [u8; 32], proof: &Vec<[u8; 32]>) -> (root: [u8; 32])
    ensures
        root@ == fold_proof(leaf@, proof@),
{
    let mut acc = leaf;
    let mut i: usize = 0;
    assert(proof@.take(0) =~= Seq::<[u8; 32]>::empty());
    while i < proof.len()
        invariant
            i <= proof.len(),
            acc@ == fold_proof(leaf@, proof@.take(i as int)),
        decreases proof.len() - i,
    {
        let next = hash_sorted_pair(&acc, &proof[i]);
        proof {
            let upto = proof@.take(i + 1);
            assert(upto.drop_last() =~= proof@.take(i as int));
            assert(upto.last() == proof@[i as int]);
        }
        acc = next;
        i = i + 1;
    }
    assert(proof@.take(proof@.len() as int) =~= proof@);
    acc
}

/// Whether two digests are the same.
pub fn digest_eq(a: &[u8; 32], b: &[u8; 32]) -> (r: bool)
    ensures
        r == (a@ == b@),
{
    let mut i: usize = 0;
    while i < 32
        invariant
            i <= 32,
            forall|j: int| 0 <= j < i ==> a@[j] == b@[j],
        decreases 32 - i,
    {
        if a[i] != b[i] {
            return false;
        }
        i = i + 1;
    }
    assert(a@ =~= b@);
    true
}

/// Checks a membership proof: true exactly when folding `proof` into the leaf
/// of `(claimant, amount)` gives `root`.  With an empty proof this is the
/// single-leaf tree, whose root is the leaf itself.
pub fn verify(claimant: Pubkey, amount: u64, proof: &Vec<[u8; 32]>, root: &[u8; 32]) -> (ok: bool)
    ensures
        ok == proves(claimant, amount, proof@, *root),
{
    let leaf = compute_leaf(claimant, amount);
    let computed = compute_root(leaf, proof);
    digest_eq(&computed, root)
}

/// The first index at which two different strings of one length differ.
proof fn first_difference(a: Seq<u8>, b: Seq<u8>, from: int) -> (d: int)
    requires
        a.len() == b.len(),
        0 <= from <= a.len(),
        a != b,
        forall|j: int| 0 <= j < from ==> a[j] == b[j],
    ensures
        from <= d < a.len(),
        a[d] != b[d],
        forall|j: int| 0 <= j < d ==> a[j] == b[j],
    decreases a.len() - from,
{
    if from == a.len() {
        assert(a =~= b);
        from
    } else if a[from] != b[from] {
        from
    } else {
        first_difference(a, b, from + 1)
    }
}

/// Of two digests of one length, one is at most the other; if each is at most
/// the other they are the same.
pub proof fn lemma_lex_le_total(a: Seq<u8>, b: Seq<u8>)
    requires
        a.len() == b.len(),
    ensures
        lex_le(a, b) || lex_le(b, a),
        lex_le(a, b) && lex_le(b, a) ==> a == b,
{
    if a != b {
        let d = first_difference(a, b, 0);
        assert(a.subrange(0, d) =~= b.subrange(0, d));
        if a[d] < b[d] {
            assert(lex_le(a, b));
        } else {
            assert(b[d] < a[d]);
            assert(lex_le(b, a));
        }
        if lex_le(a, b) && lex_le(b, a) {
            let i = choose|i: int|
                0 <= i < a.len() && i < b.len() && #[trigger] a[i] < b[i] && a.subrange(0, i)
                    == b.subrange(0, i);
            let j = choose|j: int|
                0 <= j < b.len() && j < a.len() && #[trigger] b[j] < a[j] && b.subrange(0, j)
                    == a.subrange(0, j);
            if i < j {
                assert(b.subrange(0, j)[i] == a.subrange(0, j)[i]);
            } else if j < i {
                assert(a.subrange(0, i)[j] == b.subrange(0, i)[j]);
            }
        }
    }
}

/// The digest of a level does not depend on which of the two nodes comes first.
pub proof fn lemma_hash_pair_symmetric(a: Seq<u8>, b: Seq<u8>)
    requires
        a.len() == b.len(),
    ensures
        hash_pair(a, b) == hash_pair(b, a),
{
    lemma_lex_le_total(a, b);
}

/// A proof verifies against the root that it folds to, and against no other
/// root.  In particular the empty proof verifies exactly against the leaf.
pub proof fn lemma_proof_round_trip(claimant: Pubkey, amount: u64, proof: Seq<[u8; 32]>, root: [u8; 32])
    ensures
        proves(claimant, amount, proof, root) <==> root@ == fold_proof(
            leaf_hash(claimant, amount),
            proof,
        ),
        proof.len() == 0 ==> (proves(claimant, amount, proof, root) <==> root@ == leaf_hash(
            claimant,
            amount,
        )),
        proof.len() == 1 ==> (proves(claimant, amount, proof, root) <==> root@ == hash_pair(
            leaf_hash(claimant, amount),
            proof[0]@,
        )),
{
    if proof.len() == 1 {
        assert(proof.drop_last().len() == 0);
        assert(fold_proof(leaf_hash(claimant, amount), proof) == hash_pair(
            fold_proof(leaf_hash(claimant, amount), proof.drop_last()),
            proof.last()@,
        ));
    }
}

/// Folding one more sibling into a proof hashes the digest reached so far
/// with that sibling.
pub proof fn lemma_fold_push(leaf: Seq<u8>, proof: Seq<[u8; 32]>, sibling: [u8; 32])
    ensures
        fold_proof(leaf, proof.push(sibling)) == hash_pair(fold_proof(leaf, proof), sibling@),
{
    let longer = proof.push(sibling);
    assert(longer.drop_last() =~= proof);
    assert(longer.last() == sibling);
}

/// In the tree of two leaves, each leaf verifies with the other as its
/// proof, whichever of the two is the smaller.
pub proof fn lemma_two_leaf_tree(
    first: Pubkey,
    first_amount: u64,
    second: Pubkey,
    second_amount: u64,
    first_leaf: [u8; 32],
    second_leaf: [u8; 32],
    root: [u8; 32],
)
    requires
        first_leaf@ == leaf_hash(first, first_amount),
        second_leaf@ == leaf_hash(second, second_amount),
        root@ == hash_pair(first_leaf@, second_leaf@),
    ensures
        proves(first, first_amount, seq![second_leaf], root),
        proves(second, second_amount, seq![first_leaf], root),
{
    lemma_hash_pair_symmetric(first_leaf@, second_leaf@);
    lemma_fold_push(leaf_hash(first, first_amount), Seq::empty(), second_leaf);
    lemma_fold_push(leaf_hash(second, second_amount), Seq::empty(), first_leaf);
    assert(Seq::<[u8; 32]>::empty().push(second_leaf) =~= seq![second_leaf]);
    assert(Seq::<[u8; 32]>::empty().push(first_leaf) =~= seq![first_leaf]);
}

} // verus!
