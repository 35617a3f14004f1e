//! The 256-bit hash.

use crate::primitives::H256;
use vstd::prelude::*;

verus! {

/// The Keccak-256 digest of a byte string.
pub uninterp spec fn keccak_digest(data: Seq<u8>) -> H256;

/// Calls `keccak_hash::keccak`. Believed, not proved: the digest depends on
/// the bytes alone, so it is `keccak_digest` of them.
#[verifier::external_body]
pub(crate) fn keccak(data: &[u8]) -> (digest: H256)
    ensures
        digest == keccak_digest(data@),
{
    H256 { bytes: keccak_hash::keccak(data).0 }
}

} // verus!
