//! SHA-256, as the host environment computes it.

use vstd::prelude::*;

verus! {

/// The SHA-256 digest of a byte string. The library does not define the
/// digest; it only relies on it being a function of the bytes hashed.
pub uninterp spec fn sha256(data: Seq<u8>) -> Seq<u8>;

/// Calls `anchor_lang::solana_program::hash::hash` and takes the 32 bytes of
/// the `Hash` it returns with `Hash::to_bytes`. Trusted: the result is the
/// digest of exactly the bytes passed in, and depends on nothing else.
#[verifier::external_body]
pub(crate) fn sha256_digest(data: &[u8]) -> (digest: [u8; 32])
    ensures
        digest@ == sha256(data@),
{
    anchor_lang::solana_program::hash::hash(data).to_bytes()
}

} // verus!
