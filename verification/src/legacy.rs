//! Legacy transactions: the unsigned transaction that is signed, and the
//! signed transaction as it travels.

use crate::digest::{keccak, keccak_digest};
use crate::eip155_methods::{add_chain_replay_protection, check_replay_protection, network_v, standard_v};
use crate::error::{DecodeError, Error};
use crate::primitives::{
    action_payload, be_minimal, lemma_be_minimal_tells_number, lemma_payload_tells_action, lemma_value_tells_limbs,
    Action, H256, U256,
};
use crate::wire::{
    address_at, append_address, append_bytes, append_u256, append_u64, append_u8, begin_list, bytes_at, item_count,
    new_stream, place_reads_back, reads_back, rlp_address_at, rlp_bytes_at, rlp_item_count, rlp_raw, rlp_u256_at,
    rlp_u64_at, stream_items, stream_raw, stream_start, u256_at, u64_at, Item,
};
use rlp::RlpStream;
use vstd::prelude::*;
use vstd::slice::slice_to_vec;

verus! {

/// An unsigned transaction: a message call or the creation of a contract,
/// as its sender describes it.
#[derive(Debug, Clone, PartialEq, Eq)]
pub struct LegacyTransaction {
    /// Nonce.
    pub nonce: U256,
    /// Gas price.
    pub gas_price: U256,
    /// Gas paid up front for transaction execution.
    pub gas: U256,
    /// Action, can be either call or contract create.
    pub action: Action,
    /// Transferred value.
    pub value: U256,
    /// Transaction data.
    pub data: Vec<u8>,
}

/// What a `LegacyTransaction` holds.
pub struct TransactionView {
    pub nonce: U256,
    pub gas_price: U256,
    pub gas: U256,
    pub action: Action,
    pub value: U256,
    pub data: Seq<u8>,
}

/// A signed transaction whose signature has not been verified.
#[derive(Debug, Clone, Eq, PartialEq)]
pub struct UnverifiedLegacyTransaction {
    /// The transaction that was signed.
    unsigned: LegacyTransaction,
    /// The V field of the signature: the recovery id, packed with the chain
    /// that the signature is bound to. 27 or 28 where it holds on every chain.
    network_v: u64,
    /// The R field of the signature.
    r: U256,
    /// The S field of the signature.
    s: U256,
    /// The hash that names the transaction.
    hash: H256,
}

/// What an `UnverifiedLegacyTransaction` holds.
pub struct SignedView {
    pub unsigned: TransactionView,
    pub network_v: u64,
    pub r: U256,
    pub s: U256,
    pub hash: H256,
}

/// The number of items in the list that is signed: 6, and 3 more where the
/// signature is bound to a chain.
pub open spec fn payload_items(chain_id: Option<u64>) -> nat {
    if chain_id is None {
        6
    } else {
        9
    }
}

/// The six fields of a transaction, as they are written: nonce, gas price,
/// gas, action, value, data.
pub open spec fn unsigned_fields(tx: TransactionView) -> Seq<Item> {
    seq![
        Item::Str(be_minimal(tx.nonce.value())),
        Item::Str(be_minimal(tx.gas_price.value())),
        Item::Str(be_minimal(tx.gas.value())),
        Item::Str(action_payload(tx.action)),
        Item::Str(be_minimal(tx.value.value())),
        Item::Str(tx.data),
    ]
}

/// What follows the six fields in the list that is signed: nothing, or the
/// chain and two zeros, in the places that `v`, `r` and `s` will take.
pub open spec fn chain_fields(chain_id: Option<u64>) -> Seq<Item> {
    match chain_id {
        None => Seq::empty(),
        Some(n) => seq![
            Item::Str(be_minimal(n as nat)),
            Item::Str(be_minimal(0)),
            Item::Str(be_minimal(0)),
        ],
    }
}

/// The list that is signed.
pub open spec fn signing_items(tx: TransactionView, chain_id: Option<u64>) -> Seq<Item> {
    seq![Item::List(payload_items(chain_id))] + unsigned_fields(tx) + chain_fields(chain_id)
}

/// The list that travels: always nine items, the six fields and `v`, `r`, `s`.
pub open spec fn sealed_items(tx: SignedView) -> Seq<Item> {
    seq![Item::List(9)] + unsigned_fields(tx.unsigned) + seq![
        Item::Str(be_minimal(tx.network_v as nat)),
        Item::Str(be_minimal(tx.r.value())),
        Item::Str(be_minimal(tx.s.value())),
    ]
}

/// The digest of the signed transaction as it travels.
pub open spec fn sealed_digest(tx: SignedView) -> H256 {
    keccak_digest(rlp_raw(sealed_items(tx)))
}

/// Whether the hash of a signed transaction is the digest of the
/// transaction as it travels.
pub open spec fn hash_is_canonical(tx: SignedView) -> bool {
    tx.hash == sealed_digest(tx)
}

/// The digest that is signed.
pub open spec fn signing_digest(tx: TransactionView, chain_id: Option<u64>) -> H256 {
    keccak_digest(rlp_raw(signing_items(tx, chain_id)))
}

/// The action at `index` of the list encoded in `raw`: `Create` for an empty
/// byte string, `Call` for an address.
pub open spec fn rlp_action_at(raw: Seq<u8>, index: usize) -> Result<Action, DecodeError> {
    match rlp_bytes_at(raw, index) {
        Err(e) => Err(e),
        Ok(payload) => if payload.len() == 0 {
            Ok(Action::Create)
        } else {
            match rlp_address_at(raw, index) {
                Err(e) => Err(e),
                Ok(address) => Ok(Action::Call(address)),
            }
        },
    }
}

/// The transaction in the first six items of the list encoded in `raw`, or
/// the error of the first item that cannot be read.
pub open spec fn decode_unsigned(raw: Seq<u8>) -> Result<TransactionView, DecodeError> {
    if rlp_u256_at(raw, 0) is Err {
        Err(rlp_u256_at(raw, 0)->Err_0)
    } else if rlp_u256_at(raw, 1) is Err {
        Err(rlp_u256_at(raw, 1)->Err_0)
    } else if rlp_u256_at(raw, 2) is Err {
        Err(rlp_u256_at(raw, 2)->Err_0)
    } else if rlp_action_at(raw, 3) is Err {
        Err(rlp_action_at(raw, 3)->Err_0)
    } else if rlp_u256_at(raw, 4) is Err {
        Err(rlp_u256_at(raw, 4)->Err_0)
    } else if rlp_bytes_at(raw, 5) is Err {
        Err(rlp_bytes_at(raw, 5)->Err_0)
    } else {
        Ok(
            TransactionView {
                nonce: rlp_u256_at(raw, 0)->Ok_0,
                gas_price: rlp_u256_at(raw, 1)->Ok_0,
                gas: rlp_u256_at(raw, 2)->Ok_0,
                action: rlp_action_at(raw, 3)->Ok_0,
                value: rlp_u256_at(raw, 4)->Ok_0,
                data: rlp_bytes_at(raw, 5)->Ok_0,
            },
        )
    }
}

/// The transaction in a list of exactly six items.
pub open spec fn decode_unsigned_alone(raw: Seq<u8>) -> Result<TransactionView, DecodeError> {
    match rlp_item_count(raw) {
        Err(e) => Err(e),
        Ok(n) => if n != 6 {
            Err(DecodeError::RlpIncorrectListLen)
        } else {
            decode_unsigned(raw)
        },
    }
}

/// The signed transaction in `raw`: a list of exactly nine items, the six
/// fields and `v`, `r`, `s`, named by the digest of `raw` itself.
pub open spec fn decode_signed(raw: Seq<u8>) -> Result<SignedView, DecodeError> {
    match rlp_item_count(raw) {
        Err(e) => Err(e),
        Ok(n) => if n != 9 {
            Err(DecodeError::RlpIncorrectListLen)
        } else if decode_unsigned(raw) is Err {
            Err(decode_unsigned(raw)->Err_0)
        } else if rlp_u64_at(raw, 6) is Err {
            Err(rlp_u64_at(raw, 6)->Err_0)
        } else if rlp_u256_at(raw, 7) is Err {
            Err(rlp_u256_at(raw, 7)->Err_0)
        } else if rlp_u256_at(raw, 8) is Err {
            Err(rlp_u256_at(raw, 8)->Err_0)
        } else {
            Ok(
                SignedView {
                    unsigned: decode_unsigned(raw)->Ok_0,
                    network_v: rlp_u64_at(raw, 6)->Ok_0,
                    r: rlp_u256_at(raw, 7)->Ok_0,
                    s: rlp_u256_at(raw, 8)->Ok_0,
                    hash: keccak_digest(raw),
                },
            )
        },
    }
}

/// The view of a decoded transaction.
pub open spec fn unsigned_result_view(res: Result<LegacyTransaction, DecodeError>) -> Result<
    TransactionView,
    DecodeError,
> {
    match res {
        Ok(tx) => Ok(tx@),
        Err(e) => Err(e),
    }
}

/// The view of a decoded signed transaction.
pub open spec fn signed_result_view(res: Result<UnverifiedLegacyTransaction, DecodeError>) -> Result<
    SignedView,
    DecodeError,
> {
    match res {
        Ok(tx) => Ok(tx@),
        Err(e) => Err(e),
    }
}

impl View for LegacyTransaction {
    type V = TransactionView;

    open spec fn view(&self) -> TransactionView {
        TransactionView {
            nonce: self.nonce,
            gas_price: self.gas_price,
            gas: self.gas,
            action: self.action,
            value: self.value,
            data: self.data@,
        }
    }
}

impl View for UnverifiedLegacyTransaction {
    type V = SignedView;

    closed spec fn view(&self) -> SignedView {
        SignedView {
            unsigned: self.unsigned@,
            network_v: self.network_v,
            r: self.r,
            s: self.s,
            hash: self.hash,
        }
    }
}

/// Reads the action at `index` of the list encoded in `raw`.
pub fn action_at(raw: &[u8], index: usize) -> (res: Result<Action, DecodeError>)
    ensures
        res == rlp_action_at(raw@, index),
{
    let payload = bytes_at(raw, index)?;
    if payload.len() == 0 {
        Ok(Action::Create)
    } else {
        let address = address_at(raw, index)?;
        Ok(Action::Call(address))
    }
}

/// Writes an action to a stream: the empty byte string for `Create`, the
/// address for `Call`.
pub fn append_action(s: &mut RlpStream, action: &Action)
    ensures
        stream_items(*final(s)) == stream_items(*old(s)).push(Item::Str(action_payload(*action))),
        stream_start(*final(s)) == stream_start(*old(s)),
{
    match action {
        Action::Create => {
            let nothing: Vec<u8> = Vec::new();
            append_bytes(s, nothing.as_slice());
        },
        Action::Call(address) => {
            append_address(s, address);
        },
    }
}

impl LegacyTransaction {
    /// The number of items in the list that is signed.
    pub fn payload_size(chain_id: Option<u64>) -> (n: usize)
        ensures
            n == payload_items(chain_id),
            chain_id is None ==> n == 6,
            chain_id is Some ==> n == 9,
    {
        if chain_id.is_none() {
            6
        } else {
            9
        }
    }

    /// Writes the list that is signed to a stream: the six fields, and the
    /// chain and two zeros where the signature is bound to a chain.
    pub fn rlp_append_unsigned_transaction(&self, s: &mut RlpStream, chain_id: Option<u64>)
        ensures
            stream_items(*final(s)) == stream_items(*old(s)) + signing_items(self@, chain_id),
        stream_start(*final(s)) == stream_start(*old(s)),
    {
        begin_list(s, Self::payload_size(chain_id));
        self.rlp_append_fields(s);
        if let Some(n) = chain_id {
            append_u64(s, n);
            append_u8(s, 0u8);
            append_u8(s, 0u8);
        }
        assert(stream_items(*s) =~= stream_items(*old(s)) + signing_items(self@, chain_id));
    }

    /// Writes the six fields to a stream, in their order.
    pub fn rlp_append_fields(&self, s: &mut RlpStream)
        ensures
            stream_items(*final(s)) == stream_items(*old(s)) + unsigned_fields(self@),
        stream_start(*final(s)) == stream_start(*old(s)),
    {
        append_u256(s, &self.nonce);
        append_u256(s, &self.gas_price);
        append_u256(s, &self.gas);
        append_action(s, &self.action);
        append_u256(s, &self.value);
        append_bytes(s, self.data.as_slice());
        assert(stream_items(*s) =~= stream_items(*old(s)) + unsigned_fields(self@));
    }

    /// The bytes that are hashed and signed: the list of the six fields, and
    /// of the chain and two zeros where the signature is bound to a chain.
    pub fn unsigned_rlp_bytes(&self, chain_id: Option<u64>) -> (raw: Vec<u8>)
        ensures
            raw@ == rlp_raw(signing_items(self@, chain_id)),
    {
        let mut stream = new_stream();
        self.rlp_append_unsigned_transaction(&mut stream, chain_id);
        assert(stream_items(stream) =~= signing_items(self@, chain_id));
        let raw = stream_raw(&stream);
        assert(raw@ =~= rlp_raw(signing_items(self@, chain_id)));
        slice_to_vec(raw)
    }

    /// The message hash of the transaction.
    pub fn message_hash(&self, chain_id: Option<u64>) -> (digest: H256)
        ensures
            digest == signing_digest(self@, chain_id),
    {
        let mut stream = new_stream();
        self.rlp_append_unsigned_transaction(&mut stream, chain_id);
        assert(stream_items(stream) =~= signing_items(self@, chain_id));
        let raw = stream_raw(&stream);
        assert(raw@ =~= rlp_raw(signing_items(self@, chain_id)));
        keccak(raw)
    }

    /// Reads the six fields from the first six items of the list encoded in
    /// `raw`. The number of items is not looked at.
    pub fn decode(raw: &[u8]) -> (res: Result<LegacyTransaction, DecodeError>)
        ensures
            unsigned_result_view(res) == decode_unsigned(raw@),
    {
        let nonce = u256_at(raw, 0)?;
        let gas_price = u256_at(raw, 1)?;
        let gas = u256_at(raw, 2)?;
        let action = action_at(raw, 3)?;
        let value = u256_at(raw, 4)?;
        let data = bytes_at(raw, 5)?;
        Ok(LegacyTransaction { nonce, gas_price, gas, action, value, data })
    }

    /// Reads a transaction that stands alone: a list of exactly six items.
    pub fn decode_exact(raw: &[u8]) -> (res: Result<LegacyTransaction, DecodeError>)
        ensures
            unsigned_result_view(res) == decode_unsigned_alone(raw@),
    {
        let n = item_count(raw)?;
        if n != 6 {
            return Err(DecodeError::RlpIncorrectListLen);
        }
        Self::decode(raw)
    }

    /// The nonce.
    pub fn nonce(&self) -> (r: U256)
        ensures
            r == self@.nonce,
    {
        self.nonce
    }

    /// What the transaction does.
    pub fn action(&self) -> (r: &Action)
        ensures
            *r == self@.action,
    {
        &self.action
    }

    /// The value transferred.
    pub fn value(&self) -> (r: U256)
        ensures
            r == self@.value,
    {
        self.value
    }

    /// The gas paid up front.
    pub fn gas(&self) -> (r: U256)
        ensures
            r == self@.gas,
    {
        self.gas
    }

    /// The gas price.
    pub fn gas_price(&self) -> (r: U256)
        ensures
            r == self@.gas_price,
    {
        self.gas_price
    }

    /// The data of the transaction.
    pub fn data(&self) -> (r: &Vec<u8>)
        ensures
            r@ == self@.data,
    {
        &self.data
    }
}

impl Default for LegacyTransaction {
    /// The transaction of zeros that creates an account with no data.
    fn default() -> (tx: LegacyTransaction)
        ensures
            tx@.nonce.value() == 0,
            tx@.gas_price.value() == 0,
            tx@.gas.value() == 0,
            tx@.action == Action::Create,
            tx@.value.value() == 0,
            tx@.data == Seq::<u8>::empty(),
    {
        LegacyTransaction {
            nonce: U256::zero(),
            gas_price: U256::zero(),
            gas: U256::zero(),
            action: Action::Create,
            value: U256::zero(),
            data: Vec::new(),
        }
    }
}

impl UnverifiedLegacyTransaction {
    /// Reads a signed transaction from the list encoded in `raw`, which must
    /// have exactly nine items. Its hash is the digest of `raw` as it stands.
    pub fn decode(raw: &[u8]) -> (res: Result<UnverifiedLegacyTransaction, DecodeError>)
        ensures
            signed_result_view(res) == decode_signed(raw@),
            rlp_item_count(raw@) is Ok && rlp_item_count(raw@)->Ok_0 != 9 ==> res == Err::<
                UnverifiedLegacyTransaction,
                DecodeError,
            >(DecodeError::RlpIncorrectListLen),
            res is Ok ==> res->Ok_0@.hash == keccak_digest(raw@),
    {
        let n = item_count(raw)?;
        if n != 9 {
            return Err(DecodeError::RlpIncorrectListLen);
        }
        let hash = keccak(raw);
        let unsigned = LegacyTransaction::decode(raw)?;
        let network_v = u64_at(raw, 6)?;
        let r = u256_at(raw, 7)?;
        let s = u256_at(raw, 8)?;
        Ok(UnverifiedLegacyTransaction { unsigned, network_v, r, s, hash })
    }

    /// Makes a signed transaction from a recovery id, which must be 0 or 1,
    /// and the chain that the signature is bound to, if any.
    pub fn new_with_chain_id(
        unsigned: LegacyTransaction,
        r: U256,
        s: U256,
        v: u64,
        chain_id: Option<u64>,
        hash: H256,
    ) -> (res: Result<UnverifiedLegacyTransaction, Error>)
        requires
            v <= 1 ==> network_v(v, chain_id) <= u64::MAX,
        ensures
            v > 1 ==> res == Err::<UnverifiedLegacyTransaction, Error>(Error::InvalidSignature),
            v <= 1 ==> res is Ok && res->Ok_0@ == (SignedView {
                unsigned: unsigned@,
                network_v: network_v(v, chain_id) as u64,
                r,
                s,
                hash,
            }),
    {
        if !Self::validate_v(v) {
            return Err(Error::InvalidSignature);
        }
        Ok(
            UnverifiedLegacyTransaction {
                unsigned,
                r,
                s,
                network_v: Self::to_network_v(v, chain_id),
                hash,
            },
        )
    }

    /// Whether `v` is a recovery id.
    fn validate_v(v: u64) -> (ok: bool)
        ensures
            ok == (v <= 1),
    {
        v <= 1
    }

    /// Makes a signed transaction from a `v` that is taken as it is.
    pub fn new_with_network_v(unsigned: LegacyTransaction, r: U256, s: U256, network_v: u64, hash: H256) -> (res:
        Result<UnverifiedLegacyTransaction, Error>)
        ensures
            res is Ok,
            res->Ok_0@ == (SignedView { unsigned: unsigned@, network_v, r, s, hash }),
    {
        Ok(UnverifiedLegacyTransaction { unsigned, r, s, network_v, hash })
    }

    /// Writes the list that travels to a stream: the six fields and `v`, `r`,
    /// `s`, nine items whatever the chain.
    pub fn rlp_append_sealed_transaction(&self, s: &mut RlpStream)
        ensures
            stream_items(*final(s)) == stream_items(*old(s)) + sealed_items(self@),
        stream_start(*final(s)) == stream_start(*old(s)),
    {
        begin_list(s, 9);
        self.unsigned.rlp_append_fields(s);
        append_u64(s, self.network_v);
        append_u256(s, &self.r);
        append_u256(s, &self.s);
        assert(stream_items(*s) =~= stream_items(*old(s)) + sealed_items(self@));
    }

    /// The bytes of the signed transaction as it travels: a list of nine
    /// items, whatever the chain.
    pub fn rlp_bytes(&self) -> (raw: Vec<u8>)
        ensures
            raw@ == rlp_raw(sealed_items(self@)),
    {
        let mut stream = new_stream();
        self.rlp_append_sealed_transaction(&mut stream);
        assert(stream_items(stream) =~= sealed_items(self@));
        let raw = stream_raw(&stream);
        assert(raw@ =~= rlp_raw(sealed_items(self@)));
        slice_to_vec(raw)
    }

    /// The digest of the bytes of the signed transaction as it travels.
    pub fn compute_hash(&self) -> (digest: H256)
        ensures
            digest == sealed_digest(self@),
    {
        let mut stream = new_stream();
        self.rlp_append_sealed_transaction(&mut stream);
        assert(stream_items(stream) =~= sealed_items(self@));
        let raw = stream_raw(&stream);
        assert(raw@ =~= rlp_raw(sealed_items(self@)));
        keccak(raw)
    }

    /// The same signed transaction with the digest of the transaction as it
    /// travels for its hash.
    pub fn finalize(self) -> (tx: UnverifiedLegacyTransaction)
        ensures
            tx@ == (SignedView { hash: sealed_digest(self@), ..self@ }),
            hash_is_canonical(tx@),
    {
        let hash = self.compute_hash();
        let tx = UnverifiedLegacyTransaction {
            unsigned: self.unsigned,
            network_v: self.network_v,
            r: self.r,
            s: self.s,
            hash,
        };
        assert(sealed_items(tx@) =~= sealed_items(self@));
        tx
    }

    /// Replaces the hash; nothing else changes.
    pub fn set_hash(&mut self, hash: H256)
        ensures
            final(self)@ == (SignedView { hash, ..old(self)@ }),
    {
        self.hash = hash;
    }

    /// The recovery id in `v`, or 4 where `v` carries none.
    pub fn standard_v(&self) -> (id: u8)
        ensures
            id == standard_v(self@.network_v),
    {
        check_replay_protection(self.network_v)
    }

    /// `v` as it travels, for a recovery id and a chain.
    fn to_network_v(v: u64, chain_id: Option<u64>) -> (r: u64)
        requires
            network_v(v, chain_id) <= u64::MAX,
        ensures
            r == network_v(v, chain_id),
    {
        add_chain_replay_protection(v, chain_id)
    }

    /// The unsigned transaction inside.
    pub fn unsigned(&self) -> (tx: &LegacyTransaction)
        ensures
            tx@ == self@.unsigned,
    {
        &self.unsigned
    }

    /// The R field of the signature.
    pub fn r(&self) -> (r: U256)
        ensures
            r == self@.r,
    {
        self.r
    }

    /// The S field of the signature.
    pub fn s(&self) -> (s: U256)
        ensures
            s == self@.s,
    {
        self.s
    }

    /// The V field of the signature, as it travels.
    pub fn v(&self) -> (v: u64)
        ensures
            v == self@.network_v,
    {
        self.network_v
    }

    /// The hash that names the transaction.
    pub fn hash(&self) -> (h: H256)
        ensures
            h == self@.hash,
    {
        self.hash
    }
}

/// The digest that is signed depends on the six fields and the chain, and on
/// nothing of the signature: two signed transactions with the same fields
/// have the same digest to sign, whatever their `v`, `r`, `s` and hash.
pub proof fn lemma_signing_digest_ignores_signature(a: SignedView, b: SignedView, chain_id: Option<u64>)
    requires
        a.unsigned == b.unsigned,
    ensures
        signing_items(a.unsigned, chain_id) == signing_items(b.unsigned, chain_id),
        signing_digest(a.unsigned, chain_id) == signing_digest(b.unsigned, chain_id),
{
}

/// The list that travels has nine items and does not tell whether the
/// signature is bound to a chain; the list that is signed has six or nine,
/// and both start with the same six fields.
pub proof fn lemma_lists_share_fields(tx: SignedView, chain_id: Option<u64>)
    ensures
        sealed_items(tx).len() == 10,
        sealed_items(tx)[0] == Item::List(9),
        signing_items(tx.unsigned, chain_id).len() == 1 + payload_items(chain_id),
        signing_items(tx.unsigned, chain_id)[0] == Item::List(payload_items(chain_id)),
        forall|i: int| 1 <= i <= 6 ==> sealed_items(tx)[i] == #[trigger] signing_items(tx.unsigned, chain_id)[i],
{
}

/// Where the bytes of a signed transaction as it travels are read back, the
/// hash of what is read is the digest of those bytes.
pub proof fn lemma_decoded_hash_is_digest_of_encoding(tx: SignedView)
    requires
        decode_signed(rlp_raw(sealed_items(tx))) is Ok,
    ensures
        decode_signed(rlp_raw(sealed_items(tx)))->Ok_0.hash == sealed_digest(tx),
{
}

/// If the readers give back what was written to the list that is signed,
/// then the transaction that is read from its bytes is the one that was
/// written; where no chain was written, it is also read as a transaction that
/// stands alone.
pub proof fn lemma_unsigned_round_trip_if_items_read_back(tx: TransactionView, chain_id: Option<u64>)
    requires
        reads_back(signing_items(tx, chain_id)),
    ensures
        decode_unsigned(rlp_raw(signing_items(tx, chain_id))) == Ok::<TransactionView, DecodeError>(tx),
        chain_id is None ==> decode_unsigned_alone(rlp_raw(signing_items(tx, chain_id))) == Ok::<
            TransactionView,
            DecodeError,
        >(tx),
        chain_id is Some ==> decode_unsigned_alone(rlp_raw(signing_items(tx, chain_id))) == Err::<
            TransactionView,
            DecodeError,
        >(DecodeError::RlpIncorrectListLen),
{
    let items = signing_items(tx, chain_id);
    assert(place_reads_back(items, 0));
    assert(place_reads_back(items, 1));
    assert(place_reads_back(items, 2));
    assert(place_reads_back(items, 3));
    assert(place_reads_back(items, 4));
    assert(place_reads_back(items, 5));
    lemma_action_is_read_back(items, 3, tx.action);
}

/// If the readers give back what was written to the list that travels, then
/// the signed transaction that is read from its bytes has the fields, `v`,
/// `r` and `s` that were written, and the digest of those bytes as its hash.
pub proof fn lemma_signed_round_trip_if_items_read_back(tx: SignedView)
    requires
        reads_back(sealed_items(tx)),
    ensures
        decode_signed(rlp_raw(sealed_items(tx))) == Ok::<SignedView, DecodeError>(
            SignedView { hash: sealed_digest(tx), ..tx },
        ),
        hash_is_canonical(decode_signed(rlp_raw(sealed_items(tx)))->Ok_0),
{
    let items = sealed_items(tx);
    assert(place_reads_back(items, 0));
    assert(place_reads_back(items, 1));
    assert(place_reads_back(items, 2));
    assert(place_reads_back(items, 3));
    assert(place_reads_back(items, 4));
    assert(place_reads_back(items, 5));
    assert(place_reads_back(items, 6));
    assert(place_reads_back(items, 7));
    assert(place_reads_back(items, 8));
    lemma_action_is_read_back(items, 3, tx.unsigned.action);
    lemma_digest_ignores_hash(tx, sealed_digest(tx));
}

/// The digest of a signed transaction as it travels does not depend on the
/// hash that the transaction holds.
pub proof fn lemma_digest_ignores_hash(tx: SignedView, hash: H256)
    ensures
        sealed_items(SignedView { hash, ..tx }) == sealed_items(tx),
        sealed_digest(SignedView { hash, ..tx }) == sealed_digest(tx),
{
    assert(sealed_items(SignedView { hash, ..tx }) =~= sealed_items(tx));
}

/// An action that is read back as a byte string and as an address is read
/// back as an action.
proof fn lemma_action_is_read_back(items: Seq<Item>, index: usize, action: Action)
    requires
        index + 1 < items.len(),
        items[index + 1] == Item::Str(action_payload(action)),
        place_reads_back(items, index),
    ensures
        rlp_action_at(rlp_raw(items), index) == Ok::<Action, DecodeError>(action),
{
    match action {
        Action::Create => {},
        Action::Call(address) => {
            assert(address.bytes@.len() == 20);
        },
    }
}

/// The six fields are written without ambiguity: two transactions that are
/// written as the same items are the same.
pub proof fn lemma_fields_tell_transaction(a: TransactionView, b: TransactionView)
    requires
        unsigned_fields(a) == unsigned_fields(b),
    ensures
        a == b,
{
    let x = unsigned_fields(a);
    let y = unsigned_fields(b);
    assert(x[0] == y[0] && x[1] == y[1] && x[2] == y[2] && x[3] == y[3] && x[4] == y[4] && x[5] == y[5]);
    lemma_be_minimal_tells_number(a.nonce.value(), b.nonce.value());
    lemma_be_minimal_tells_number(a.gas_price.value(), b.gas_price.value());
    lemma_be_minimal_tells_number(a.gas.value(), b.gas.value());
    lemma_be_minimal_tells_number(a.value.value(), b.value.value());
    lemma_value_tells_limbs(a.nonce, b.nonce);
    lemma_value_tells_limbs(a.gas_price, b.gas_price);
    lemma_value_tells_limbs(a.gas, b.gas);
    lemma_value_tells_limbs(a.value, b.value);
    lemma_payload_tells_action(a.action, b.action);
}

/// The list that is signed tells the transaction and the chain: a signature
/// over it holds for no other transaction and on no other chain.
pub proof fn lemma_signing_items_tell_transaction_and_chain(
    a: TransactionView,
    chain_a: Option<u64>,
    b: TransactionView,
    chain_b: Option<u64>,
)
    requires
        signing_items(a, chain_a) == signing_items(b, chain_b),
    ensures
        a == b,
        chain_a == chain_b,
{
    let x = signing_items(a, chain_a);
    let y = signing_items(b, chain_b);
    assert(x[0] == y[0]);
    assert(x.subrange(1, 7) =~= unsigned_fields(a));
    assert(y.subrange(1, 7) =~= unsigned_fields(b));
    lemma_fields_tell_transaction(a, b);
    if chain_a is Some {
        assert(x[7] == y[7]);
        lemma_be_minimal_tells_number(chain_a->Some_0 as nat, chain_b->Some_0 as nat);
    }
}

/// The list that travels tells the signed transaction, but for its hash.
pub proof fn lemma_sealed_items_tell_transaction(a: SignedView, b: SignedView)
    requires
        sealed_items(a) == sealed_items(b),
    ensures
        a == (SignedView { hash: a.hash, ..b }),
{
    let x = sealed_items(a);
    let y = sealed_items(b);
    assert(x.subrange(1, 7) =~= unsigned_fields(a.unsigned));
    assert(y.subrange(1, 7) =~= unsigned_fields(b.unsigned));
    lemma_fields_tell_transaction(a.unsigned, b.unsigned);
    assert(x[7] == y[7] && x[8] == y[8] && x[9] == y[9]);
    lemma_be_minimal_tells_number(a.network_v as nat, b.network_v as nat);
    lemma_be_minimal_tells_number(a.r.value(), b.r.value());
    lemma_be_minimal_tells_number(a.s.value(), b.s.value());
    lemma_value_tells_limbs(a.r, b.r);
    lemma_value_tells_limbs(a.s, b.s);
}

/// A list is read as a signed transaction only if it has exactly nine items.
pub proof fn lemma_signed_needs_nine_items(raw: Seq<u8>)
    ensures
        decode_signed(raw) is Ok ==> rlp_item_count(raw) == Ok::<usize, DecodeError>(9),
        rlp_item_count(raw) is Ok && rlp_item_count(raw)->Ok_0 != 9 ==> decode_signed(raw) == Err::<
            SignedView,
            DecodeError,
        >(DecodeError::RlpIncorrectListLen),
        rlp_item_count(raw) == Ok::<usize, DecodeError>(9) ==> (decode_signed(raw) is Ok <==> (decode_unsigned(raw) is Ok
            && rlp_u64_at(raw, 6) is Ok && rlp_u256_at(raw, 7) is Ok && rlp_u256_at(raw, 8) is Ok)),
{
}

} // verus!
