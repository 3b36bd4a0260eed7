use project_token::error::Error;
use project_token::merkle::{
    ensure_root_matches, hash_input, same_hash, HashOutput, MerkleProof, MerkleSide,
};
use project_token::token::TransferPolicy;
use sp_core::hashing::blake2_256;

fn join(a: &HashOutput, b: &HashOutput) -> HashOutput {
    let mut bytes = Vec::new();
    bytes.extend_from_slice(a);
    bytes.extend_from_slice(b);
    blake2_256(&bytes)
}

/// A tree of four leaves: the root, and the path of the third leaf.
fn tree() -> (HashOutput, MerkleProof) {
    let leaves: Vec<HashOutput> = (1u8..=4).map(|i| blake2_256(&[i])).collect();
    let left = join(&leaves[0], &leaves[1]);
    let right = join(&leaves[2], &leaves[3]);
    let root = join(&left, &right);
    (root, MerkleProof(vec![(leaves[3], MerkleSide::Right), (left, MerkleSide::Left)]))
}

#[test]
fn empty_path_gives_the_hash_of_the_leaf() {
    let expected: HashOutput = [
        0x0e, 0x57, 0x51, 0xc0, 0x26, 0xe5, 0x43, 0xb2, 0xe8, 0xab, 0x2e, 0xb0, 0x60, 0x99, 0xda,
        0xa1, 0xd1, 0xe5, 0xdf, 0x47, 0x77, 0x8f, 0x77, 0x87, 0xfa, 0xab, 0x45, 0xcd, 0xf1, 0x2f,
        0xe3, 0xa8,
    ];
    assert_eq!(MerkleProof(vec![]).root(&[]), expected);
    assert_eq!(MerkleProof(vec![]).verify(&[], expected), Ok(()));
    assert_eq!(MerkleProof(vec![]).root(&[1, 2, 3]), blake2_256(&[1, 2, 3]));
    assert_ne!(MerkleProof(vec![]).root(&[1, 2, 3]), MerkleProof(vec![]).root(&[1, 2, 4]));
}

#[test]
fn valid_path_verifies() {
    let (root, path) = tree();
    assert_eq!(path.root(&[3]), root);
    assert_eq!(path.verify(&[3], root), Ok(()));
}

#[test]
fn other_leaf_or_commitment_fails() {
    let (root, path) = tree();
    assert_eq!(path.verify(&[4], root), Err(Error::MerkleProofVerificationFailure));
    let mut other = root;
    other[31] ^= 1;
    assert_eq!(path.verify(&[3], other), Err(Error::MerkleProofVerificationFailure));
    assert_eq!(MerkleProof(vec![]).verify(&[3], root), Err(Error::MerkleProofVerificationFailure));
}

#[test]
fn flipping_a_side_fails() {
    let (root, path) = tree();
    for i in 0..path.0.len() {
        let mut flipped = path.clone();
        flipped.0[i].1 = match flipped.0[i].1 {
            MerkleSide::Left => MerkleSide::Right,
            MerkleSide::Right => MerkleSide::Left,
        };
        assert_eq!(flipped.verify(&[3], root), Err(Error::MerkleProofVerificationFailure));
    }
}

#[test]
fn changing_a_sibling_fails() {
    let (root, path) = tree();
    for i in 0..path.0.len() {
        let mut changed = path.clone();
        changed.0[i].0[0] ^= 0x80;
        assert_eq!(changed.verify(&[3], root), Err(Error::MerkleProofVerificationFailure));
    }
}

#[test]
fn hash_input_puts_a_left_sibling_first() {
    let acc = [1u8; 32];
    let sibling = [2u8; 32];
    let mut left = vec![2u8; 32];
    left.extend_from_slice(&[1u8; 32]);
    let mut right = vec![1u8; 32];
    right.extend_from_slice(&[2u8; 32]);
    assert_eq!(hash_input(&acc, &sibling, MerkleSide::Left), left);
    assert_eq!(hash_input(&acc, &sibling, MerkleSide::Right), right);
    assert_eq!(MerkleSide::default(), MerkleSide::Right);
}

#[test]
fn digests_are_compared_byte_by_byte() {
    let a = [9u8; 32];
    let mut b = a;
    assert!(same_hash(&a, &b));
    assert_eq!(ensure_root_matches(&a, &b), Ok(()));
    b[31] = 8;
    assert!(!same_hash(&a, &b));
    assert_eq!(ensure_root_matches(&a, &b), Err(Error::MerkleProofVerificationFailure));
    b = a;
    b[0] = 8;
    assert!(!same_hash(&a, &b));
}

#[test]
fn permissioned_policy_wants_a_path() {
    let (root, path) = tree();
    let permissioned = TransferPolicy::Permissioned(root);
    assert_eq!(permissioned.ensure_permitted(Some(&path), &[3]), Ok(()));
    assert_eq!(permissioned.ensure_permitted(None, &[3]), Err(Error::MerkleProofNotProvided));
    assert_eq!(
        permissioned.ensure_permitted(Some(&path), &[2]),
        Err(Error::MerkleProofVerificationFailure)
    );
    let permissionless: TransferPolicy<HashOutput> = TransferPolicy::Permissionless;
    assert_eq!(permissionless.ensure_permitted(None, &[3]), Ok(()));
    assert_eq!(permissionless.ensure_permitted(Some(&path), &[2]), Ok(()));
}
