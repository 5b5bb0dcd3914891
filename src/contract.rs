//! The record of leaves and the membership query over it.
use vstd::prelude::*;
use crate::leaves::{chunks_of, convert_to_array, leaf_at, LeafFormatError, LEAF_SIZE};
use crate::merkle::{
    build_tree, path_of, proof_accepts, proof_from_bytes, proof_hashes_of, proof_to_bytes,
    proof_verify, root_of, tree_leaves, tree_proof, tree_root,
};

verus! {

/// The leaf set stored under the single slot of the record: absent until the
/// first update, then the leaves of the last accepted update, in order.
pub struct SimpleSmartContract {
    tree: Option<Vec<[u8; 32]>>,
}

impl View for SimpleSmartContract {
    type V = Option<Seq<[u8; 32]>>;

    closed spec fn view(&self) -> Option<Seq<[u8; 32]>> {
        match self.tree {
            Some(v) => Some(v@),
            None => None,
        }
    }
}

/// `digest` is one of the stored leaves.
pub open spec fn is_stored_leaf(stored: Option<Seq<[u8; 32]>>, digest: Seq<u8>) -> bool {
    stored matches Some(l) && exists|i: int| 0 <= i < l.len() && #[trigger] l[i]@ == digest
}

/// Some position of a non-empty leaf sequence has an inclusion proof that
/// accepts `digest` against the tree's root.
pub open spec fn proves_member(leaves: Seq<[u8; 32]>, digest: Seq<u8>) -> bool {
    &&& leaves.len() > 0
    &&& exists|i: int|
        0 <= i < leaves.len() && #[trigger] proof_accepts(
            path_of(leaves, i),
            root_of(leaves)->Some_0,
            i,
            digest,
            leaves.len() as int,
        )
}

/// What a membership query answers: a 32-byte digest, a stored leaf set, and
/// a proof for the digest at some position of it.
pub open spec fn verify_result(stored: Option<Seq<[u8; 32]>>, digest: Seq<u8>) -> bool {
    &&& digest.len() == 32
    &&& stored matches Some(l) && proves_member(l, digest)
}

impl SimpleSmartContract {
    /// A record with no leaf set stored yet.
    pub fn new() -> (r: Self)
        ensures
            r@ is None,
    {
        SimpleSmartContract { tree: None }
    }

    /// A record holding `tree` as its stored leaf set, as read from storage.
    pub fn from_stored(tree: Option<Vec<[u8; 32]>>) -> (r: Self)
        ensures
            r@ == (match tree {
                Some(v) => Some(v@),
                None => None,
            }),
    {
        SimpleSmartContract { tree }
    }

    /// The stored leaf set, to be written back to storage.
    pub fn into_stored(self) -> (r: Option<Vec<[u8; 32]>>)
        ensures
            self@ == (match r {
                Some(v) => Some(v@),
                None => None,
            }),
    {
        self.tree
    }

    /// Replaces the stored leaf set with the leaves that `merkle_tree` holds,
    /// 32 bytes each, in order; the empty blob stores the empty set. A blob whose
    /// length is not a multiple of 32 is refused and the record is left as it was.
    pub fn update(&mut self, merkle_tree: Vec<u8>) -> (r: Result<(), LeafFormatError>)
        ensures
            merkle_tree@.len() % 32 == 0 <==> r is Ok,
            r is Err ==> r == Err::<(), LeafFormatError>(
                LeafFormatError::InvalidLeafFormat,
            ),
            r is Err ==> final(self)@ == old(self)@,
            r is Ok ==> (final(self)@ matches Some(l) && chunks_of(merkle_tree@, l)),
    {
        match convert_to_array(merkle_tree) {
            Ok(converted) => {
                self.tree = Some(converted);
                Ok(())
            },
            Err(e) => Err(e),
        }
    }

    /// Whether `digest` is a leaf of the stored tree: it must be 32 bytes long,
    /// and the search tries the inclusion proof of each position in turn.
    pub fn verify(&self, digest: Vec<u8>) -> (r: bool)
        ensures
            r == verify_result(self@, digest@),
            is_stored_leaf(self@, digest@) ==> r,
            digest@.len() != 32 ==> !r,
            self@ is None ==> !r,
    {
        if digest.len() != LEAF_SIZE {
            return false;
        }
        let arr = leaf_at(&digest, 0);
        assert(arr@ =~= digest@);
        match &self.tree {
            Some(v) => {
                let tree = build_tree(v);
                let n: usize = v.len();
                let mut i: usize = 0;
                while i < n
                    invariant
                        n == v@.len(),
                        i <= n,
                        self@ == Some(v@),
                        tree_leaves(tree) == v@,
                        arr@ == digest@,
                        forall|j: int|
                            0 <= j < i ==> !#[trigger] proof_accepts(
                                path_of(v@, j),
                                root_of(v@)->Some_0,
                                j,
                                digest@,
                                n as int,
                            ),
                        forall|j: int| 0 <= j < i ==> #[trigger] v@[j]@ != digest@,
                    decreases n - i,
                {
                    let merkle_proof = tree_proof(&tree, i);
                    let merkle_root = match tree_root(&tree) {
                        Some(r) => r,
                        None => {
                            return false;
                        },
                    };
                    let bytes = proof_to_bytes(&merkle_proof);
                    let proof = match proof_from_bytes(bytes) {
                        Ok(p) => p,
                        Err(_) => {
                            return false;
                        },
                    };
                    proof {
                        crate::leaves::lemma_chunks_unique(
                            bytes@,
                            proof_hashes_of(proof),
                            proof_hashes_of(merkle_proof),
                        );
                    }
                    if proof_verify(&proof, merkle_root, i, arr, n) {
                        assert(proof_accepts(
                            path_of(v@, i as int),
                            root_of(v@)->Some_0,
                            i as int,
                            digest@,
                            n as int,
                        ));
                        return true;
                    }
                    assert(v@[i as int]@ != digest@) by {
                        if v@[i as int]@ == arr@ {
                            assert(v@[i as int] =~= arr);
                        }
                    }
                    i += 1;
                }
                false
            },
            None => false,
        }
    }
}

impl Default for SimpleSmartContract {
    fn default() -> (r: Self)
        ensures
            r@ is None,
    {
        SimpleSmartContract::new()
    }
}

/// Round trip: when a blob made of the leaves `l`, in order, has been accepted
/// by `update` (which stores some `stored` read from it), the stored set is
/// exactly `l`, and each leaf of `l` is a stored leaf, for which `verify`
/// answers `true`.
pub proof fn lemma_round_trip_membership(
    bytes: Seq<u8>,
    l: Seq<[u8; 32]>,
    stored: Seq<[u8; 32]>,
    i: int,
)
    requires
        chunks_of(bytes, l),
        chunks_of(bytes, stored),
        0 <= i < l.len(),
    ensures
        stored == l,
        is_stored_leaf(Some(stored), l[i]@),
{
    crate::leaves::lemma_chunks_unique(bytes, l, stored);
    let o: Option<Seq<[u8; 32]>> = Some(stored);
    assert(o->Some_0[i]@ == l[i]@);
}

/// Before any leaf set is stored, no digest is a member.
pub proof fn lemma_empty_record_rejects(digest: Seq<u8>)
    ensures
        !verify_result(None, digest),
        !is_stored_leaf(None, digest),
{
}

/// A digest that is not 32 bytes long is never a member, whatever is stored.
pub proof fn lemma_digest_length(stored: Option<Seq<[u8; 32]>>, digest: Seq<u8>)
    requires
        digest.len() != 32,
    ensures
        !verify_result(stored, digest),
{
}

/// Repeated queries agree: the answer is fixed by the stored leaf set and the
/// digest alone, and a query leaves the record unchanged.
pub proof fn lemma_verify_repeatable(
    stored: Option<Seq<[u8; 32]>>,
    digest: Seq<u8>,
    first: bool,
    second: bool,
)
    requires
        first == verify_result(stored, digest),
        second == verify_result(stored, digest),
    ensures
        first == second,
{
}

} // verus!
