//! Legacy (pre-typed) transactions: their RLP wire form, the digest that is
//! signed, the digest that names a signed transaction, and the replay
//! protection carried in the `v` component of the signature.

pub mod digest;
pub mod eip155_methods;
pub mod error;
pub mod legacy;
pub mod primitives;
pub mod wire;
