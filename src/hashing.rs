//! Hash functions that the work model relies on.
use vstd::prelude::*;

verus! {

/// A double SHA-256 digest, as produced for a block header.
pub type DHash = [u8; 32];

/// The double SHA-256 digest of a byte string.
pub uninterp spec fn sha256d_of(data: Seq<u8>) -> Seq<u8>;

/// The SHA-256 internal state after compressing exactly one 64-byte block.
pub uninterp spec fn sha256_midstate_of(block: Seq<u8>) -> Seq<u8>;

/// Relies on `bitcoin_hashes::sha256d::Hash::hash`: the double SHA-256 digest of `data`,
/// which depends on the bytes alone.
#[verifier::external_body]
pub(crate) fn sha256d(data: &Vec<u8>) -> (r: DHash)
    ensures
        r@ == sha256d_of(data@),
{
    bitcoin_hashes::sha256d::Hash::hash(data.as_slice()).to_byte_array()
}

/// Relies on `bitcoin_hashes::sha256::Midstate::update_64` applied to the SHA-256 initial
/// state: the state after one compression of `block`, which depends on the bytes alone.
#[verifier::external_body]
pub(crate) fn sha256_midstate(block: &Vec<u8>) -> (r: [u8; 32])
    requires
        block@.len() == 64,
    ensures
        r@ == sha256_midstate_of(block@),
{
    let chunk: [u8; 64] = block.as_slice().try_into().unwrap();
    bitcoin_hashes::sha256::Midstate::SHA256_IV.update_64(&chunk).to_parts().0
}

} // verus!
