//! The plain values that a transaction is made of.

use vstd::prelude::*;

verus! {

/// A 256-bit unsigned integer, held as four 64-bit limbs, least significant
/// limb first.
#[derive(Clone, Copy, Debug, PartialEq, Eq, Hash)]
pub struct U256 {
    pub limbs: [u64; 4],
}

/// A 256-bit digest.
#[derive(Clone, Copy, Debug, PartialEq, Eq, Hash)]
pub struct H256 {
    pub bytes: [u8; 32],
}

/// The 20 bytes that name an account.
#[derive(Clone, Copy, Debug, PartialEq, Eq, Hash)]
pub struct Address {
    pub bytes: [u8; 20],
}

/// What a transaction does: it calls an existing account, or creates one.
#[derive(Clone, Copy, Debug, PartialEq, Eq, Hash)]
pub enum Action {
    /// Create a new account.
    Create,
    /// Call the account at this address.
    Call(Address),
}

/// The weight of one limb: 2^64.
pub open spec fn limb_radix() -> nat {
    0x1_0000_0000_0000_0000
}

/// The shortest big-endian byte string that holds `n`; empty for 0.
pub open spec fn be_minimal(n: nat) -> Seq<u8>
    decreases n,
{
    if n == 0 {
        Seq::empty()
    } else {
        be_minimal(n / 256).push((n % 256) as u8)
    }
}

/// The bytes that stand for an action on the wire: none for `Create`, the
/// address for `Call`.
pub open spec fn action_payload(action: Action) -> Seq<u8> {
    match action {
        Action::Create => Seq::empty(),
        Action::Call(address) => address.bytes@,
    }
}

impl U256 {
    /// The number that the limbs hold.
    pub open spec fn value(self) -> nat {
        self.limbs[0] as nat + limb_radix() * (self.limbs[1] as nat + limb_radix() * (
        self.limbs[2] as nat + limb_radix() * (self.limbs[3] as nat)))
    }

    /// The number 0.
    pub fn zero() -> (r: U256)
        ensures
            r.value() == 0,
            r.limbs@ == seq![0u64, 0u64, 0u64, 0u64],
    {
        U256 { limbs: [0, 0, 0, 0] }
    }

    /// The number `x`.
    pub fn from_u64(x: u64) -> (r: U256)
        ensures
            r.value() == x,
            r.limbs@ == seq![x, 0u64, 0u64, 0u64],
    {
        U256 { limbs: [x, 0, 0, 0] }
    }
}

/// Two numbers with the same shortest byte string are the same number.
pub proof fn lemma_be_minimal_tells_number(n: nat, m: nat)
    requires
        be_minimal(n) == be_minimal(m),
    ensures
        n == m,
    decreases n,
{
    if n == 0 || m == 0 {
        if n != 0 {
            assert(be_minimal(n).len() == be_minimal(n / 256).len() + 1);
        }
        if m != 0 {
            assert(be_minimal(m).len() == be_minimal(m / 256).len() + 1);
        }
    } else {
        let high_n = be_minimal(n / 256);
        let high_m = be_minimal(m / 256);
        let low_n = (n % 256) as u8;
        let low_m = (m % 256) as u8;
        assert(high_n.push(low_n).drop_last() =~= high_n);
        assert(high_m.push(low_m).drop_last() =~= high_m);
        assert(high_n.push(low_n).last() == low_n);
        assert(high_m.push(low_m).last() == low_m);
        lemma_be_minimal_tells_number(n / 256, m / 256);
    }
}

/// Two 256-bit integers with the same value are the same.
pub proof fn lemma_value_tells_limbs(a: U256, b: U256)
    requires
        a.value() == b.value(),
    ensures
        a == b,
{
    assert(a.limbs[0] == b.limbs[0] && a.limbs[1] == b.limbs[1] && a.limbs[2] == b.limbs[2] && a.limbs[3]
        == b.limbs[3]);
    assert(a.limbs =~= b.limbs);
}

/// Two actions that are written as the same bytes are the same.
pub proof fn lemma_payload_tells_action(a: Action, b: Action)
    requires
        action_payload(a) == action_payload(b),
    ensures
        a == b,
{
    match (a, b) {
        (Action::Call(x), Action::Call(y)) => {
            assert(x.bytes =~= y.bytes);
        },
        (Action::Call(x), Action::Create) => {
            assert(x.bytes@.len() == 20);
        },
        (Action::Create, Action::Call(y)) => {
            assert(y.bytes@.len() == 20);
        },
        (Action::Create, Action::Create) => {},
    }
}

} // verus!
