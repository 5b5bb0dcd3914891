//! The parts of `rs_merkle` this library relies on, with their contracts.
use vstd::prelude::*;
use rs_merkle::algorithms::Sha256;
use rs_merkle::{MerkleProof, MerkleTree};
use crate::leaves::chunks_of;

verus! {

/// A SHA-256 Merkle tree of `rs_merkle`, held opaquely: Verus cannot declare
/// `MerkleTree<T: Hasher>` itself.
#[verifier::external_body]
pub struct Tree {
    inner: MerkleTree<Sha256>,
}

/// A SHA-256 inclusion proof of `rs_merkle`, held opaquely for the same reason.
#[verifier::external_body]
pub struct Proof {
    inner: MerkleProof<Sha256>,
}

#[verifier::external_type_specification]
#[verifier::external_body]
pub struct ExMerkleError(rs_merkle::Error);

/// The leaves, in order, that a tree was built from.
pub uninterp spec fn tree_leaves(t: Tree) -> Seq<[u8; 32]>;

/// The sibling hashes that a proof carries, bottom to top.
pub uninterp spec fn proof_hashes_of(p: Proof) -> Seq<[u8; 32]>;

/// The SHA-256 Merkle root of a leaf sequence.
pub uninterp spec fn root_of(leaves: Seq<[u8; 32]>) -> Option<[u8; 32]>;

/// The sibling hashes of the inclusion proof for the leaf at `index`.
pub uninterp spec fn path_of(leaves: Seq<[u8; 32]>, index: int) -> Seq<[u8; 32]>;

/// Whether the root recomputed from `leaf` at `index`, with the sibling hashes
/// `hashes`, in a tree of `total` leaves, equals `root`.
pub uninterp spec fn proof_accepts(
    hashes: Seq<[u8; 32]>,
    root: [u8; 32],
    index: int,
    leaf: Seq<u8>,
    total: int,
) -> bool;

/// Relies on `MerkleTree::from_leaves`: the tree holds a copy of the leaves.
#[verifier::external_body]
pub(crate) fn build_tree(leaves: &Vec<[u8; 32]>) -> (t: Tree)
    ensures
        tree_leaves(t) == leaves@,
{
    Tree { inner: MerkleTree::<Sha256>::from_leaves(leaves) }
}

/// Relies on `MerkleTree::root`: the root of the leaves, absent exactly when
/// there are none.
#[verifier::external_body]
pub(crate) fn tree_root(t: &Tree) -> (r: Option<[u8; 32]>)
    ensures
        r == root_of(tree_leaves(*t)),
        r is Some <==> tree_leaves(*t).len() > 0,
{
    t.inner.root()
}

/// Relies on `MerkleTree::proof`, asked for the single index `index`.
#[verifier::external_body]
pub(crate) fn tree_proof(t: &Tree, index: usize) -> (p: Proof)
    ensures
        proof_hashes_of(p) == path_of(tree_leaves(*t), index as int),
{
    Proof { inner: t.inner.proof(&[index]) }
}

/// Relies on `MerkleProof::to_bytes`: the proof hashes concatenated in order.
#[verifier::external_body]
pub(crate) fn proof_to_bytes(p: &Proof) -> (r: Vec<u8>)
    ensures
        chunks_of(r@, proof_hashes_of(*p)),
{
    p.inner.to_bytes()
}

/// Relies on `MerkleProof::try_from(Vec<u8>)`: it fails exactly when the length
/// is not a multiple of 32, and otherwise reads the bytes as hashes in order.
#[verifier::external_body]
pub(crate) fn proof_from_bytes(bytes: Vec<u8>) -> (r: Result<Proof, rs_merkle::Error>)
    ensures
        r is Ok <==> bytes@.len() % 32 == 0,
        r matches Ok(p) ==> chunks_of(bytes@, proof_hashes_of(p)),
{
    match MerkleProof::<Sha256>::try_from(bytes) {
        Ok(inner) => Ok(Proof { inner }),
        Err(e) => Err(e),
    }
}

/// Relies on `MerkleProof::verify` for the single leaf `leaf` at `index`: it
/// recomputes the root, and a proof that the tree over `l` gave for its leaf
/// at `index` is accepted against that tree's root.
#[verifier::external_body]
pub(crate) fn proof_verify(
    p: &Proof,
    root: [u8; 32],
    index: usize,
    leaf: [u8; 32],
    total: usize,
) -> (r: bool)
    ensures
        r == proof_accepts(proof_hashes_of(*p), root, index as int, leaf@, total as int),
        forall|l: Seq<[u8; 32]>|
            #![trigger path_of(l, index as int)]
            proof_hashes_of(*p) == path_of(l, index as int) && root_of(l) == Some(root)
                && index < l.len() && l[index as int] == leaf && total == l.len() ==> r,
{
    p.inner.verify(root, &[index], &[leaf], total)
}

} // verus!
