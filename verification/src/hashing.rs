//! The fixed 256-bit hash that account derivation feeds its byte sequences
//! through.

use blake2::Digest;
use vstd::prelude::*;

verus! {

/// The 32-byte BLAKE2b digest of a byte sequence, named abstractly: the
/// derivation contracts speak of this name, not of the algorithm itself.
pub uninterp spec fn blake2b256_of(data: Seq<u8>) -> Seq<u8>;

/// Relies on `blake2::Blake2b256`: the digest is a function of the input
/// bytes alone and is always 32 bytes long.
#[verifier::external_body]
pub fn blake2b_256(data: &Vec<u8>) -> (r: Vec<u8>)
    ensures
        r@ == blake2b256_of(data@),
        r@.len() == 32,
{
    let digest = blake2::Blake2b256::digest(data.as_slice());
    digest.to_vec()
}

} // verus!
