use defai_core::merkle::{compute_leaf, compute_root, digest_le, hash_sorted_pair, verify};
use defai_core::types::Pubkey;

fn key(tag: u8) -> Pubkey {
    Pubkey::new([tag; 32])
}

#[test]
fn single_leaf_tree_accepts_empty_proof() {
    let leaf = compute_leaf(key(1), 500);
    assert!(verify(key(1), 500, &vec![], &leaf));
}

#[test]
fn empty_proof_is_rejected_against_another_root() {
    let other = compute_leaf(key(2), 500);
    assert!(!verify(key(1), 500, &vec![], &other));
    assert!(!verify(key(1), 500, &vec![], &[0u8; 32]));
}

#[test]
fn leaf_depends_on_amount_and_claimant() {
    assert_ne!(compute_leaf(key(1), 500), compute_leaf(key(1), 501));
    assert_ne!(compute_leaf(key(1), 500), compute_leaf(key(2), 500));
    assert_ne!(compute_leaf(key(1), 500), [1u8; 32]);
}

#[test]
fn two_leaf_tree_round_trip() {
    let a = compute_leaf(key(1), 10);
    let b = compute_leaf(key(2), 20);
    let root = hash_sorted_pair(&a, &b);
    assert_eq!(root, hash_sorted_pair(&b, &a));
    assert!(verify(key(1), 10, &vec![b], &root));
    assert!(verify(key(2), 20, &vec![a], &root));
    assert!(!verify(key(1), 11, &vec![b], &root));
}

#[test]
fn four_leaf_tree_round_trip_and_flipped_bytes() {
    let leaves: Vec<[u8; 32]> = (0u8..4).map(|i| compute_leaf(key(i), 100 + i as u64)).collect();
    let n01 = hash_sorted_pair(&leaves[0], &leaves[1]);
    let n23 = hash_sorted_pair(&leaves[2], &leaves[3]);
    let root = hash_sorted_pair(&n01, &n23);
    let proof = vec![leaves[3], n01];
    assert_eq!(compute_root(leaves[2], &proof), root);
    assert!(verify(key(2), 102, &proof, &root));
    for level in 0..proof.len() {
        for byte in 0..32 {
            let mut bad = proof.clone();
            bad[level][byte] ^= 1;
            assert!(!verify(key(2), 102, &bad, &root));
        }
    }
}

#[test]
fn digest_order_is_lexicographic() {
    let mut lo = [0u8; 32];
    let mut hi = [0u8; 32];
    lo[31] = 1;
    hi[0] = 1;
    assert!(digest_le(&lo, &hi));
    assert!(!digest_le(&hi, &lo));
    assert!(digest_le(&lo, &lo));
}

#[test]
fn keccak_of_known_input() {
    let zero = [0u8; 32];
    let expected = [
        173, 50, 40, 182, 118, 247, 211, 205, 66, 132, 165, 68, 63, 23, 241, 150, 43, 54, 228,
        145, 179, 10, 64, 178, 64, 88, 73, 229, 151, 186, 95, 181,
    ];
    assert_eq!(hash_sorted_pair(&zero, &zero), expected);
}

#[test]
fn leaf_of_known_claimant() {
    let expected = [
        62, 174, 148, 69, 187, 75, 34, 100, 137, 87, 160, 193, 93, 251, 163, 79, 24, 177, 26, 203,
        97, 105, 186, 28, 102, 73, 50, 82, 147, 106, 226, 54,
    ];
    assert_eq!(compute_leaf(key(1), 500), expected);
}

#[test]
fn proof_order_of_siblings_matters_but_side_does_not() {
    let a = compute_leaf(key(1), 1);
    let b = compute_leaf(key(2), 2);
    let c = compute_leaf(key(3), 3);
    let ab = hash_sorted_pair(&a, &b);
    let root = hash_sorted_pair(&ab, &c);
    assert!(verify(key(1), 1, &vec![b, c], &root));
    assert!(verify(key(2), 2, &vec![a, c], &root));
    assert!(verify(key(3), 3, &vec![ab], &root));
    assert!(!verify(key(1), 1, &vec![c, b], &root));
}
