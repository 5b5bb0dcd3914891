//! Splitting a byte blob into 32-byte leaves.
use vstd::prelude::*;

verus! {

/// Size in bytes of one leaf hash.
pub const LEAF_SIZE: usize = 32;

/// `bytes` is exactly the concatenation of `hashes`, in order.
pub open spec fn chunks_of(bytes: Seq<u8>, hashes: Seq<[u8; 32]>) -> bool {
    &&& bytes.len() == 32 * hashes.len()
    &&& forall|k: int, j: int|
        0 <= k < hashes.len() && 0 <= j < 32 ==> #[trigger] hashes[k]@[j] == bytes[32 * k + j]
}

/// A blob has at most one reading as a sequence of leaves.
pub proof fn lemma_chunks_unique(bytes: Seq<u8>, a: Seq<[u8; 32]>, b: Seq<[u8; 32]>)
    requires
        chunks_of(bytes, a),
        chunks_of(bytes, b),
    ensures
        a == b,
{
    assert forall|k: int| 0 <= k < a.len() implies a[k] == b[k] by {
        assert forall|j: int| 0 <= j < 32 implies a[k]@[j] == b[k]@[j] by {
            assert(a[k]@[j] == bytes[32 * k + j]);
            assert(b[k]@[j] == bytes[32 * k + j]);
        }
        assert(a[k]@ =~= b[k]@);
        assert(a[k] =~= b[k]);
    }
    assert(a =~= b);
}

/// Why a blob was refused as a leaf set.
#[derive(Debug, Clone, Copy, PartialEq, Eq, Structural)]
pub enum LeafFormatError {
    /// The blob's length is not a multiple of 32 bytes.
    InvalidLeafFormat,
}

/// Copies the 32 bytes of `bytes` that begin at `start` into a leaf.
pub fn leaf_at(bytes: &Vec<u8>, start: usize) -> (h: [u8; 32])
    requires
        start + 32 <= bytes@.len(),
    ensures
        h@ == bytes@.subrange(start as int, start + 32),
{
    let n: usize = bytes.len();
    let mut h: [u8; 32] = [0u8; 32];
    let mut j: usize = 0;
    while j < LEAF_SIZE
        invariant
            j <= 32,
            start + 32 <= n,
            n == bytes@.len(),
            h@.len() == 32,
            forall|t: int| 0 <= t < j ==> h@[t] == bytes@[start + t],
        decreases 32 - j,
    {
        h[j] = bytes[start + j];
        j += 1;
    }
    assert(h@ =~= bytes@.subrange(start as int, start + 32));
    h
}

/// Reads a blob as its sequence of 32-byte leaves, in order; refuses a blob
/// whose length is not a multiple of 32. The empty blob gives no leaves.
pub fn convert_to_array(v: Vec<u8>) -> (r: Result<Vec<[u8; 32]>, LeafFormatError>)
    ensures
        v@.len() % 32 == 0 <==> r is Ok,
        r is Err ==> r == Err::<Vec<[u8; 32]>, LeafFormatError>(
            LeafFormatError::InvalidLeafFormat,
        ),
        r matches Ok(l) ==> chunks_of(v@, l@),
{
    if v.len() % LEAF_SIZE != 0 {
        return Err(LeafFormatError::InvalidLeafFormat);
    }
    let n: usize = v.len();
    let count: usize = n / LEAF_SIZE;
    assert(count * 32 == n);
    let mut out: Vec<[u8; 32]> = Vec::with_capacity(count);
    let mut k: usize = 0;
    while k < count
        invariant
            count * 32 == n,
            n == v@.len(),
            k <= count,
            out@.len() == k,
            forall|a: int, j: int|
                0 <= a < k && 0 <= j < 32 ==> #[trigger] out@[a]@[j] == v@[32 * a + j],
        decreases count - k,
    {
        assert(32 * k + 32 <= 32 * count);
        let h = leaf_at(&v, k * 32);
        out.push(h);
        k += 1;
    }
    Ok(out)
}

} // verus!
