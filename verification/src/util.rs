//! Digests and random bytes.

use vstd::prelude::*;

verus! {

/// What `sha2::Sha256` makes of a byte string.
pub uninterp spec fn sha256_of(data: Seq<u8>) -> Seq<u8>;

/// `sha2::Sha256::digest`: the SHA-256 digest of `data`, which is 32 bytes
/// and depends on `data` alone.
#[verifier::external_body]
pub(crate) fn sha256(data: &[u8]) -> (digest: [u8; 32])
    ensures
        digest@ == sha256_of(data@),
{
    <sha2::Sha256 as sha2::Digest>::digest(data).into()
}

/// `rand::RngCore::fill_bytes` of the thread's generator: `N` random bytes.
/// Nothing is known of them.
#[verifier::external_body]
pub(crate) fn random_bytes<const N: usize>() -> (b: [u8; N]) {
    let mut b = [0u8; N];
    rand::RngCore::fill_bytes(&mut rand::rng(), &mut b);
    b
}

} // verus!
