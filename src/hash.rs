//! The content hash that binds witness data to the hash committed in a session.
use vstd::prelude::*;

verus! {

/// The 32-byte CKB default hash of `data`: blake2b with the personalization
/// "ckb-default-hash".
pub uninterp spec fn ckb_blake2b(data: Seq<u8>) -> Seq<u8>;

/// Relies on blake2b_ref's `Blake2bBuilder` / `Blake2b::update` / `Blake2b::finalize`:
/// a 32-byte digest of the bytes, which depends on the bytes alone.
#[verifier::external_body]
pub(crate) fn content_hash(data: &[u8]) -> (r: [u8; 32])
    ensures
        r@ == ckb_blake2b(data@),
{
    let mut hasher = blake2b_ref::Blake2bBuilder::new(32).personal(b"ckb-default-hash").build();
    hasher.update(data);
    let mut digest = [0u8; 32];
    hasher.finalize(&mut digest);
    digest
}

/// The little-endian bytes of a `u64`.
pub open spec fn le_bytes(n: u64) -> Seq<u8> {
    Seq::new(8, |k: int| ((n >> (8 * k) as u64) & 0xff) as u8)
}

/// The type id of an output: the content hash of the transaction's first input
/// (serialized) followed by the output's index in little-endian order.
pub fn type_id(first_input: &[u8], index: u64) -> (r: [u8; 32])
    ensures
        r@ == ckb_blake2b(first_input@ + le_bytes(index)),
{
    let mut data: Vec<u8> = Vec::new();
    let mut i: usize = 0;
    while i < first_input.len()
        invariant
            i <= first_input@.len(),
            data@ == first_input@.subrange(0, i as int),
        decreases first_input@.len() - i,
    {
        data.push(first_input[i]);
        i = i + 1;
        assert(data@ =~= first_input@.subrange(0, i as int));
    }
    assert(first_input@.subrange(0, first_input@.len() as int) =~= first_input@);
    let mut k: u64 = 0;
    while k < 8
        invariant
            k <= 8,
            data@ == first_input@ + le_bytes(index).subrange(0, k as int),
        decreases 8 - k,
    {
        data.push(((index >> (8 * k)) & 0xff) as u8);
        k = k + 1;
        assert(data@ =~= first_input@ + le_bytes(index).subrange(0, k as int));
    }
    assert(le_bytes(index).subrange(0, 8) =~= le_bytes(index));
    content_hash(data.as_slice())
}

} // verus!
