//! SHA-256 digests, from the two crates that the protocol code uses.

use vstd::prelude::*;
use sha2::Digest;

verus! {

/// The SHA-256 digest of `data` as the `sha2` crate computes it.
pub uninterp spec fn sha2_sha256(data: Seq<u8>) -> Seq<u8>;

/// The SHA-256 digest of `data` as `bitcoin::hashes::sha256` computes it.
pub uninterp spec fn bitcoin_sha256(data: Seq<u8>) -> Seq<u8>;

/// `sha2::Sha256`: the 32-byte digest of `data`.
#[verifier::external_body]
pub(crate) fn sha256_digest(data: &[u8]) -> (r: Vec<u8>)
    ensures
        r@ == sha2_sha256(data@),
        r@.len() == 32,
{
    sha2::Sha256::digest(data).to_vec()
}

/// `bitcoin::hashes::sha256::Hash::hash`: the 32-byte digest of `data`.
#[verifier::external_body]
pub(crate) fn sha256_hash(data: &[u8]) -> (r: Vec<u8>)
    ensures
        r@ == bitcoin_sha256(data@),
        r@.len() == 32,
{
    let h: bitcoin::hashes::sha256::Hash = bitcoin::hashes::Hash::hash(data);
    bitcoin::hashes::Hash::to_byte_array(h).to_vec()
}

} // verus!
