//! SHA-256 digests, through the `sha2` crate.
use vstd::prelude::*;

verus! {

/// The SHA-256 digest of a byte sequence.
pub uninterp spec fn sha256_of(b: Seq<u8>) -> Seq<u8>;

/// Relies on sha2::Sha256::digest: the digest depends on the bytes alone and is
/// 32 bytes long.
#[verifier::external_body]
pub(crate) fn sha256(b: &[u8]) -> (r: Vec<u8>)
    ensures
        r@ == sha256_of(b@),
        r@.len() == 32,
{
    <sha2::Sha256 as sha2::Digest>::digest(b).to_vec()
}

} // verus!
