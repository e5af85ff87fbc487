use anchor_lang::solana_program::hash::hash;
use mica_eur::merkle_info::{
    calculate_merkle_root, create_reserve_leaf, hash_node, verify_merkle_proof,
};

fn leaf(n: u8) -> [u8; 32] {
    [n; 32]
}

fn from_hex(s: &str) -> [u8; 32] {
    let mut out = [0u8; 32];
    for i in 0..32 {
        out[i] = u8::from_str_radix(&s[2 * i..2 * i + 2], 16).unwrap();
    }
    out
}

#[test]
fn hash_node_of_zero_children_is_sha256_of_64_zero_bytes() {
    let h = hash_node(&[0u8; 32], &[0u8; 32]);
    assert_eq!(
        h,
        from_hex("f5a5fd42d16a20302798ef6ed309979b43003d2320d9f0e8ea9831a92759fb4b")
    );
}

#[test]
fn hash_node_hashes_left_then_right() {
    let (a, b) = (leaf(1), leaf(2));
    let mut combined = Vec::new();
    combined.extend_from_slice(&a);
    combined.extend_from_slice(&b);
    assert_eq!(hash_node(&a, &b), hash(&combined).to_bytes());
    assert_ne!(hash_node(&a, &b), hash_node(&b, &a));
}

#[test]
fn root_of_no_leaf_is_zero() {
    assert_eq!(calculate_merkle_root(&[]), [0u8; 32]);
}

#[test]
fn root_of_one_leaf_is_that_leaf() {
    assert_eq!(calculate_merkle_root(&[leaf(7)]), leaf(7));
}

#[test]
fn root_of_two_leaves_is_their_node() {
    let (a, b) = (leaf(1), leaf(2));
    assert_eq!(calculate_merkle_root(&[a, b]), hash_node(&a, &b));
}

#[test]
fn root_of_three_leaves_promotes_the_odd_leaf() {
    let (a, b, c) = (leaf(0xA), leaf(0xB), leaf(0xC));
    let expected = hash_node(&hash_node(&a, &b), &c);
    assert_eq!(calculate_merkle_root(&[a, b, c]), expected);
    // the odd leaf is carried up, not paired with itself
    assert_ne!(
        calculate_merkle_root(&[a, b, c]),
        hash_node(&hash_node(&a, &b), &hash_node(&c, &c))
    );
}

#[test]
fn root_of_five_leaves() {
    let l: Vec<[u8; 32]> = (1..=5).map(leaf).collect();
    let ab = hash_node(&l[0], &l[1]);
    let cd = hash_node(&l[2], &l[3]);
    let expected = hash_node(&hash_node(&ab, &cd), &l[4]);
    assert_eq!(calculate_merkle_root(&l), expected);
}

#[test]
fn root_is_deterministic() {
    let l = [leaf(3), leaf(1), leaf(4), leaf(1)];
    assert_eq!(calculate_merkle_root(&l), calculate_merkle_root(&l));
}

#[test]
fn root_is_order_sensitive() {
    let l = [leaf(1), leaf(2), leaf(3)];
    let p = [leaf(2), leaf(1), leaf(3)];
    let q = [leaf(1), leaf(3), leaf(2)];
    assert_ne!(calculate_merkle_root(&l), calculate_merkle_root(&p));
    assert_ne!(calculate_merkle_root(&l), calculate_merkle_root(&q));
}

#[test]
fn proofs_of_three_leaves_round_trip() {
    let (a, b, c) = (leaf(0xA), leaf(0xB), leaf(0xC));
    let root = calculate_merkle_root(&[a, b, c]);
    let ab = hash_node(&a, &b);
    assert!(verify_merkle_proof(&[b, c], &root, &a, &[0, 0]));
    assert!(verify_merkle_proof(&[a, c], &root, &b, &[1, 0]));
    assert!(verify_merkle_proof(&[ab], &root, &c, &[1]));
}

#[test]
fn proof_of_single_leaf_is_empty() {
    let a = leaf(9);
    let root = calculate_merkle_root(&[a]);
    assert!(verify_merkle_proof(&[], &root, &a, &[]));
}

#[test]
fn proof_with_mismatched_lengths_fails() {
    let (a, b) = (leaf(1), leaf(2));
    let root = calculate_merkle_root(&[a, b]);
    assert!(verify_merkle_proof(&[b], &root, &a, &[0]));
    assert!(!verify_merkle_proof(&[b], &root, &a, &[0, 0]));
    assert!(!verify_merkle_proof(&[b], &root, &a, &[]));
}

#[test]
fn proof_with_wrong_side_or_leaf_fails() {
    let (a, b) = (leaf(1), leaf(2));
    let root = calculate_merkle_root(&[a, b]);
    assert!(!verify_merkle_proof(&[b], &root, &a, &[1]));
    assert!(!verify_merkle_proof(&[b], &root, &leaf(3), &[0]));
}

#[test]
fn any_nonzero_side_puts_the_sibling_on_the_left() {
    let (a, b) = (leaf(1), leaf(2));
    let root = calculate_merkle_root(&[a, b]);
    assert!(verify_merkle_proof(&[a], &root, &b, &[7]));
}

#[test]
fn reserve_leaf_hashes_id_amount_and_timestamp_little_endian() {
    let mut data = Vec::new();
    data.extend_from_slice(b"DEP-1");
    data.extend_from_slice(&500u64.to_le_bytes());
    data.extend_from_slice(&(-7i64).to_le_bytes());
    assert_eq!(create_reserve_leaf("DEP-1", 500, -7), hash(&data).to_bytes());
}

#[test]
fn reserve_leaf_depends_on_each_field() {
    let base = create_reserve_leaf("DEP-1", 500, 1_700_000_000);
    assert_ne!(base, create_reserve_leaf("DEP-2", 500, 1_700_000_000));
    assert_ne!(base, create_reserve_leaf("DEP-1", 501, 1_700_000_000));
    assert_ne!(base, create_reserve_leaf("DEP-1", 500, 1_700_000_001));
}
