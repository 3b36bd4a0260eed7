//! Whitelists by commitment: an account proves its place on a whitelist with
//! a path of sibling hashes that folds up to the stored root.

use vstd::prelude::*;
use crate::error::Error;
use crate::token::TransferPolicy;

verus! {

/// A Blake2b digest of 256 bits.
pub type HashOutput = [u8; 32];

/// Utility enum used in merkle proof verification
#[derive(Clone, Copy, Debug, PartialEq, Eq, Structural)]
pub enum MerkleSide {
    /// This element appended to the right of the subtree hash
    Right,
    /// This element appended to the left of the subtree hash
    Left,
}

/// Default trait for Merkle Side
impl Default for MerkleSide {
    fn default() -> (r: Self)
        ensures
            r is Right,
    {
        MerkleSide::Right
    }
}

/// Wrapper around a merkle proof path
#[derive(Clone, Debug, PartialEq, Eq)]
pub struct MerkleProof(pub Vec<(HashOutput, MerkleSide)>);

/// The 256-bit Blake2b digest of `data`.
pub uninterp spec fn blake2_256(data: Seq<u8>) -> Seq<u8>;

/// `Hash::hash` of `sp_runtime` for `BlakeTwo256`: the digest of a byte
/// slice, which depends on the bytes alone. Taken on trust.
#[verifier::external_body]
fn blake2_256_hash(data: &[u8]) -> (digest: HashOutput)
    ensures
        digest@ == blake2_256(data@),
{
    <sp_runtime::traits::BlakeTwo256 as sp_runtime::traits::Hash>::hash(data).0
}

/// What is hashed at one step of a path: the sibling and the hash so far,
/// the sibling first where it stands on the left.
pub open spec fn step_input(acc: Seq<u8>, sibling: Seq<u8>, side: MerkleSide) -> Seq<u8> {
    match side {
        MerkleSide::Left => sibling + acc,
        MerkleSide::Right => acc + sibling,
    }
}

/// The hash that a path leads to when it is folded over `init`, first step
/// first.
pub open spec fn fold_path(init: Seq<u8>, path: Seq<(HashOutput, MerkleSide)>) -> Seq<u8>
    decreases path.len(),
{
    if path.len() == 0 {
        init
    } else {
        blake2_256(
            step_input(fold_path(init, path.drop_last()), path.last().0@, path.last().1),
        )
    }
}

/// The root that `path` gives for the leaf `data`.
pub open spec fn merkle_root(data: Seq<u8>, path: Seq<(HashOutput, MerkleSide)>) -> Seq<u8> {
    fold_path(blake2_256(data), path)
}

/// The bytes that one step of a path hashes.
pub fn hash_input(acc: &HashOutput, sibling: &HashOutput, side: MerkleSide) -> (input: Vec<u8>)
    ensures
        input@ == step_input(acc@, sibling@, side),
{
    let (first, second) = match side {
        MerkleSide::Left => (sibling, acc),
        MerkleSide::Right => (acc, sibling),
    };
    let mut input: Vec<u8> = Vec::new();
    let mut i: usize = 0;
    while i < 32
        invariant
            i <= 32,
            input@ == first@.take(i as int),
        decreases 32 - i,
    {
        input.push(first[i]);
        i += 1;
        assert(input@ == first@.take(i as int));
    }
    let mut j: usize = 0;
    while j < 32
        invariant
            j <= 32,
            input@ == first@ + second@.take(j as int),
        decreases 32 - j,
    {
        input.push(second[j]);
        j += 1;
        assert(input@ == first@ + second@.take(j as int));
    }
    assert(first@.take(32) == first@);
    assert(second@.take(32) == second@);
    input
}

/// Whether two digests are the same, byte for byte.
pub fn same_hash(a: &HashOutput, b: &HashOutput) -> (r: bool)
    ensures
        r == (a@ == b@),
{
    let mut i: usize = 0;
    while i < 32
        invariant
            i <= 32,
            forall|k: int| 0 <= k < i ==> a@[k] == b@[k],
        decreases 32 - i,
    {
        if a[i] != b[i] {
            return false;
        }
        i += 1;
    }
    assert(a@ =~= b@);
    true
}

/// Holds a computed root against the commitment: the last step of a
/// verification.
pub fn ensure_root_matches(root: &HashOutput, commit: &HashOutput) -> (r: Result<(), Error>)
    ensures
        r == (if root@ == commit@ {
            Ok::<(), Error>(())
        } else {
            Err(Error::MerkleProofVerificationFailure)
        }),
{
    if same_hash(root, commit) {
        Ok(())
    } else {
        Err(Error::MerkleProofVerificationFailure)
    }
}

impl MerkleProof {
    /// The root that this path gives for the leaf `data`.
    pub fn root(&self, data: &[u8]) -> (root: HashOutput)
        ensures
            root@ == merkle_root(data@, self.0@),
    {
        let mut acc = blake2_256_hash(data);
        let mut i: usize = 0;
        while i < self.0.len()
            invariant
                i <= self.0.len(),
                acc@ == fold_path(blake2_256(data@), self.0@.take(i as int)),
            decreases self.0.len() - i,
        {
            let (sibling, side) = self.0[i];
            let input = hash_input(&acc, &sibling, side);
            acc = blake2_256_hash(input.as_slice());
            i += 1;
            proof {
                let prefix = self.0@.take(i as int);
                assert(prefix.drop_last() == self.0@.take(i - 1));
                assert(prefix.last() == self.0@[i - 1]);
            }
        }
        assert(self.0@.take(i as int) == self.0@);
        acc
    }

    /// Succeeds where the path leads from the leaf `data` to `commit`, and
    /// fails with `MerkleProofVerificationFailure` where it leads elsewhere.
    pub fn verify(&self, data: &[u8], commit: HashOutput) -> (r: Result<(), Error>)
        ensures
            r == (if merkle_root(data@, self.0@) == commit@ {
                Ok::<(), Error>(())
            } else {
                Err(Error::MerkleProofVerificationFailure)
            }),
    {
        let proof_result = self.root(data);
        ensure_root_matches(&proof_result, &commit)
    }
}

impl TransferPolicy<HashOutput> {
    /// Whether the policy admits the account whose encoding is `data`: a
    /// permissionless policy admits every account; a permissioned one wants a
    /// path from the account to its commitment.
    pub fn ensure_permitted(&self, path: Option<&MerkleProof>, data: &[u8]) -> (r: Result<
        (),
        Error,
    >)
        ensures
            r == (match (*self, path) {
                (TransferPolicy::Permissionless, _) => Ok::<(), Error>(()),
                (TransferPolicy::Permissioned(_), None) => Err(Error::MerkleProofNotProvided),
                (TransferPolicy::Permissioned(commit), Some(steps)) => if merkle_root(
                    data@,
                    steps.0@,
                ) == commit@ {
                    Ok(())
                } else {
                    Err(Error::MerkleProofVerificationFailure)
                },
            }),
    {
        match self {
            TransferPolicy::Permissionless => Ok(()),
            TransferPolicy::Permissioned(commit) => match path {
                None => Err(Error::MerkleProofNotProvided),
                Some(steps) => steps.verify(data, *commit),
            },
        }
    }
}

/// A path without steps leads to the hash of the leaf itself.
pub proof fn lemma_empty_path(data: Seq<u8>)
    ensures
        merkle_root(data, Seq::<(HashOutput, MerkleSide)>::empty()) == blake2_256(data),
{
}

/// One more step at the end of a path hashes the root so far with the new
/// sibling.
pub proof fn lemma_path_push(data: Seq<u8>, path: Seq<(HashOutput, MerkleSide)>, step: (
    HashOutput,
    MerkleSide,
))
    ensures
        merkle_root(data, path.push(step)) == blake2_256(
            step_input(merkle_root(data, path), step.0@, step.1),
        ),
{
    assert(path.push(step).drop_last() == path);
}

} // verus!
