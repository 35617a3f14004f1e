//! Replay protection in the `v` component of a signature.
//!
//! A recovery id (0 or 1) travels as `v`: 27 or 28 where the signature holds
//! on every chain, and `35 + 2 * chain_id` or one more where it is bound to a
//! chain.

use vstd::prelude::*;

verus! {

/// What is added to a recovery id to make `v`.
pub open spec fn replay_protection_offset(chain_id: Option<u64>) -> int {
    match chain_id {
        Some(n) => 35 + n * 2,
        None => 27,
    }
}

/// `v` for a recovery id and a chain.
pub open spec fn network_v(v: u64, chain_id: Option<u64>) -> int {
    v + replay_protection_offset(chain_id)
}

/// The recovery id that `v` carries, or 4 where it carries none.
pub open spec fn standard_v(v: u64) -> u8 {
    if v == 27 {
        0
    } else if v == 28 {
        1
    } else if v > 36 {
        ((v - 1) % 2) as u8
    } else {
        4
    }
}

/// Packs a recovery id and a chain into `v`: 27 is added where there is no
/// chain, and 35 and twice the chain where there is one.
pub fn add_chain_replay_protection(v: u64, chain_id: Option<u64>) -> (r: u64)
    requires
        network_v(v, chain_id) <= u64::MAX,
    ensures
        r == network_v(v, chain_id),
{
    match chain_id {
        Some(n) => v + (35 + n * 2),
        None => v + 27,
    }
}

/// Returns the recovery id in `v`: 0 if `v` is 27, 1 if it is 28, the parity
/// of `v - 1` above 36, and 4 for every other `v`.
pub fn check_replay_protection(v: u64) -> (r: u8)
    ensures
        r == standard_v(v),
        r == 0 || r == 1 || r == 4,
        r == 4 <==> (v != 27 && v != 28 && v <= 36),
{
    if v == 27 {
        0
    } else if v == 28 {
        1
    } else if v > 36 {
        if (v - 1) % 2 == 0 {
            0
        } else {
            1
        }
    } else {
        4
    }
}

/// A recovery id that was packed into `v`, for no chain or for a chain other
/// than chain 0, is the one that is read back from it. (For chain 0, `v` is 35
/// or 36, which carries no recovery id.)
pub proof fn lemma_replay_protection_round_trip(v: u64, chain_id: Option<u64>)
    requires
        v <= 1,
        chain_id != Some(0u64),
        network_v(v, chain_id) <= u64::MAX,
    ensures
        standard_v(network_v(v, chain_id) as u64) == v,
        standard_v(network_v(v, chain_id) as u64) != 4,
{
}

/// For chain 0 nothing is read back: `v` is then 35 or 36.
pub proof fn lemma_chain_zero_is_not_read_back(v: u64)
    requires
        v <= 1,
    ensures
        standard_v(network_v(v, Some(0u64)) as u64) == 4,
{
}

/// `v` tells the chain: two chains never give the same `v`, and a `v` bound
/// to a chain is never one that holds on every chain.
pub proof fn lemma_network_v_tells_chain(v1: u64, c1: Option<u64>, v2: u64, c2: Option<u64>)
    requires
        v1 <= 1,
        v2 <= 1,
        network_v(v1, c1) == network_v(v2, c2),
    ensures
        v1 == v2,
        c1 == c2,
{
}

} // verus!
