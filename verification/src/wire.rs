//! The RLP container, as far as a transaction needs it: a stream that items
//! are appended to, and readers of the items of an encoded list.
//!
//! The encoding itself is the work of the `rlp` crate. This module gives its
//! calls contracts, which are believed and not proved.

use crate::error::DecodeError;
use crate::primitives::{be_minimal, Address, U256};
use rlp::{DecoderError, Rlp, RlpStream};
use vstd::prelude::*;

verus! {

/// One thing written to a stream: the opening of a list of so many items, or
/// a byte string.
pub enum Item {
    List(nat),
    Str(Seq<u8>),
}

/// `rlp::RlpStream`, the stream that items are appended to. Nothing inside it
/// is seen here.
#[verifier::external_type_specification]
#[verifier::external_body]
pub struct ExRlpStream(RlpStream);

/// What was written to a stream since it was made, in order.
pub uninterp spec fn stream_items(s: RlpStream) -> Seq<Item>;

/// The bytes that a stream was made with, before anything was written to it.
pub uninterp spec fn stream_start(s: RlpStream) -> Seq<u8>;

/// The bytes that these items come to, written in this order to a stream
/// that was made empty.
pub uninterp spec fn rlp_raw(items: Seq<Item>) -> Seq<u8>;

/// The number of items of the list encoded in `raw`.
pub uninterp spec fn rlp_item_count(raw: Seq<u8>) -> Result<usize, DecodeError>;

/// The 256-bit integer at `index` of the list encoded in `raw`.
pub uninterp spec fn rlp_u256_at(raw: Seq<u8>, index: usize) -> Result<U256, DecodeError>;

/// The 64-bit integer at `index` of the list encoded in `raw`.
pub uninterp spec fn rlp_u64_at(raw: Seq<u8>, index: usize) -> Result<u64, DecodeError>;

/// The byte string at `index` of the list encoded in `raw`.
pub uninterp spec fn rlp_bytes_at(raw: Seq<u8>, index: usize) -> Result<Seq<u8>, DecodeError>;

/// The address at `index` of the list encoded in `raw`.
pub uninterp spec fn rlp_address_at(raw: Seq<u8>, index: usize) -> Result<Address, DecodeError>;

/// Whether the readers give back what was written in place `index` of a list:
/// the byte string itself, and the integer or the address that it was written
/// for.
pub open spec fn place_reads_back(items: Seq<Item>, index: usize) -> bool {
    let raw = rlp_raw(items);
    match items[index + 1] {
        Item::List(_) => true,
        Item::Str(payload) => {
            &&& rlp_bytes_at(raw, index) == Ok::<Seq<u8>, DecodeError>(payload)
            &&& forall|x: U256| be_minimal(#[trigger] x.value()) == payload ==> rlp_u256_at(raw, index) == Ok::<U256, DecodeError>(x)
            &&& forall|x: u64| #[trigger] be_minimal(x as nat) == payload ==> rlp_u64_at(raw, index) == Ok::<u64, DecodeError>(x)
            &&& forall|a: Address| #[trigger] a.bytes@ == payload ==> rlp_address_at(raw, index) == Ok::<Address, DecodeError>(a)
        },
    }
}

/// Whether the readers give back what was written, where `items` is the
/// opening of a list followed by its items: the number of items, and each of
/// them in its place.
pub open spec fn reads_back(items: Seq<Item>) -> bool {
    &&& items.len() >= 1
    &&& rlp_item_count(rlp_raw(items)) == Ok::<usize, DecodeError>((items.len() - 1) as usize)
    &&& forall|index: usize| 0 <= index < items.len() - 1 ==> #[trigger] place_reads_back(items, index)
}

/// Calls `RlpStream::new`: a stream that is made empty, to which nothing was
/// written.
#[verifier::external_body]
pub(crate) fn new_stream() -> (s: RlpStream)
    ensures
        stream_items(s) == Seq::<Item>::empty(),
        stream_start(s) == Seq::<u8>::empty(),
{
    RlpStream::new()
}

/// Calls `RlpStream::begin_list`: the opening of a list of `len` items is
/// written. Like every call that writes, it leaves alone the bytes that the
/// stream was made with.
#[verifier::external_body]
pub(crate) fn begin_list(s: &mut RlpStream, len: usize)
    ensures
        stream_items(*final(s)) == stream_items(*old(s)).push(Item::List(len as nat)),
        stream_start(*final(s)) == stream_start(*old(s)),
{
    s.begin_list(len);
}

/// Calls `RlpStream::append` on a 256-bit integer: it is written as the
/// byte string of its big-endian digits without leading zeros.
#[verifier::external_body]
pub(crate) fn append_u256(s: &mut RlpStream, x: &U256)
    ensures
        stream_items(*final(s)) == stream_items(*old(s)).push(Item::Str(be_minimal(x.value()))),
        stream_start(*final(s)) == stream_start(*old(s)),
{
    s.append(&ethereum_types::U256(x.limbs));
}

/// Calls `RlpStream::append` on a `u64`: it is written as the byte string of
/// its big-endian digits without leading zeros.
#[verifier::external_body]
pub(crate) fn append_u64(s: &mut RlpStream, x: u64)
    ensures
        stream_items(*final(s)) == stream_items(*old(s)).push(Item::Str(be_minimal(x as nat))),
        stream_start(*final(s)) == stream_start(*old(s)),
{
    s.append(&x);
}

/// Calls `RlpStream::append` on a `u8`: it is written as the empty byte
/// string where it is 0, and as the string of that one byte where it is not.
#[verifier::external_body]
pub(crate) fn append_u8(s: &mut RlpStream, x: u8)
    ensures
        stream_items(*final(s)) == stream_items(*old(s)).push(Item::Str(be_minimal(x as nat))),
        stream_start(*final(s)) == stream_start(*old(s)),
{
    s.append(&x);
}

/// Calls `RlpStream::append` on a byte string: the string is written.
#[verifier::external_body]
pub(crate) fn append_bytes(s: &mut RlpStream, bytes: &[u8])
    ensures
        stream_items(*final(s)) == stream_items(*old(s)).push(Item::Str(bytes@)),
        stream_start(*final(s)) == stream_start(*old(s)),
{
    s.append(&bytes);
}

/// Calls `RlpStream::append` on an address: its 20 bytes are written as a
/// byte string.
#[verifier::external_body]
pub(crate) fn append_address(s: &mut RlpStream, address: &Address)
    ensures
        stream_items(*final(s)) == stream_items(*old(s)).push(Item::Str(address.bytes@)),
        stream_start(*final(s)) == stream_start(*old(s)),
{
    s.append(&ethereum_types::H160(address.bytes));
}

/// Calls `RlpStream::as_raw`: the bytes that the stream holds. They are the
/// bytes that it was made with, followed by bytes that depend on nothing but
/// what was written to it.
#[verifier::external_body]
pub(crate) fn stream_raw(s: &RlpStream) -> (raw: &[u8])
    ensures
        raw@ == stream_start(*s) + rlp_raw(stream_items(*s)),
{
    s.as_raw()
}

/// Calls `Rlp::item_count` on a reader made for `raw`. The count, or the
/// decoder's error, depends on the bytes alone.
#[verifier::external_body]
pub(crate) fn item_count(raw: &[u8]) -> (res: Result<usize, DecodeError>)
    ensures
        res == rlp_item_count(raw@),
{
    Rlp::new(raw).item_count().map_err(|e| match e {
        DecoderError::RlpIsTooBig => DecodeError::RlpIsTooBig,
        DecoderError::RlpIsTooShort => DecodeError::RlpIsTooShort,
        DecoderError::RlpExpectedToBeList => DecodeError::RlpExpectedToBeList,
        DecoderError::RlpExpectedToBeData => DecodeError::RlpExpectedToBeData,
        DecoderError::RlpIncorrectListLen => DecodeError::RlpIncorrectListLen,
        DecoderError::RlpDataLenWithZeroPrefix => DecodeError::RlpDataLenWithZeroPrefix,
        DecoderError::RlpListLenWithZeroPrefix => DecodeError::RlpListLenWithZeroPrefix,
        DecoderError::RlpInvalidIndirection => DecodeError::RlpInvalidIndirection,
        DecoderError::RlpInconsistentLengthAndData => DecodeError::RlpInconsistentLengthAndData,
        DecoderError::RlpInvalidLength => DecodeError::RlpInvalidLength,
        DecoderError::Custom(text) => DecodeError::Custom(text),
    })
}

/// Calls `Rlp::val_at` for a 256-bit integer, on a reader made for `raw`.
/// The integer, or the decoder's error, depends on the bytes and the index
/// alone.
#[verifier::external_body]
pub(crate) fn u256_at(raw: &[u8], index: usize) -> (res: Result<U256, DecodeError>)
    ensures
        res == rlp_u256_at(raw@, index),
{
    Rlp::new(raw).val_at::<ethereum_types::U256>(index).map(|x| U256 { limbs: x.0 }).map_err(|e| match e {
        DecoderError::RlpIsTooBig => DecodeError::RlpIsTooBig,
        DecoderError::RlpIsTooShort => DecodeError::RlpIsTooShort,
        DecoderError::RlpExpectedToBeList => DecodeError::RlpExpectedToBeList,
        DecoderError::RlpExpectedToBeData => DecodeError::RlpExpectedToBeData,
        DecoderError::RlpIncorrectListLen => DecodeError::RlpIncorrectListLen,
        DecoderError::RlpDataLenWithZeroPrefix => DecodeError::RlpDataLenWithZeroPrefix,
        DecoderError::RlpListLenWithZeroPrefix => DecodeError::RlpListLenWithZeroPrefix,
        DecoderError::RlpInvalidIndirection => DecodeError::RlpInvalidIndirection,
        DecoderError::RlpInconsistentLengthAndData => DecodeError::RlpInconsistentLengthAndData,
        DecoderError::RlpInvalidLength => DecodeError::RlpInvalidLength,
        DecoderError::Custom(text) => DecodeError::Custom(text),
    })
}

/// Calls `Rlp::val_at` for a `u64`, on a reader made for `raw`. The integer,
/// or the decoder's error, depends on the bytes and the index alone.
#[verifier::external_body]
pub(crate) fn u64_at(raw: &[u8], index: usize) -> (res: Result<u64, DecodeError>)
    ensures
        res == rlp_u64_at(raw@, index),
{
    Rlp::new(raw).val_at::<u64>(index).map_err(|e| match e {
        DecoderError::RlpIsTooBig => DecodeError::RlpIsTooBig,
        DecoderError::RlpIsTooShort => DecodeError::RlpIsTooShort,
        DecoderError::RlpExpectedToBeList => DecodeError::RlpExpectedToBeList,
        DecoderError::RlpExpectedToBeData => DecodeError::RlpExpectedToBeData,
        DecoderError::RlpIncorrectListLen => DecodeError::RlpIncorrectListLen,
        DecoderError::RlpDataLenWithZeroPrefix => DecodeError::RlpDataLenWithZeroPrefix,
        DecoderError::RlpListLenWithZeroPrefix => DecodeError::RlpListLenWithZeroPrefix,
        DecoderError::RlpInvalidIndirection => DecodeError::RlpInvalidIndirection,
        DecoderError::RlpInconsistentLengthAndData => DecodeError::RlpInconsistentLengthAndData,
        DecoderError::RlpInvalidLength => DecodeError::RlpInvalidLength,
        DecoderError::Custom(text) => DecodeError::Custom(text),
    })
}

/// The view of a decoded byte string.
pub open spec fn bytes_result_view(res: Result<Vec<u8>, DecodeError>) -> Result<Seq<u8>, DecodeError> {
    match res {
        Ok(bytes) => Ok(bytes@),
        Err(e) => Err(e),
    }
}

/// Calls `Rlp::val_at` for a byte string, on a reader made for `raw`. The
/// string, or the decoder's error, depends on the bytes and the index alone.
#[verifier::external_body]
pub(crate) fn bytes_at(raw: &[u8], index: usize) -> (res: Result<Vec<u8>, DecodeError>)
    ensures
        bytes_result_view(res) == rlp_bytes_at(raw@, index),
{
    Rlp::new(raw).val_at::<Vec<u8>>(index).map_err(|e| match e {
        DecoderError::RlpIsTooBig => DecodeError::RlpIsTooBig,
        DecoderError::RlpIsTooShort => DecodeError::RlpIsTooShort,
        DecoderError::RlpExpectedToBeList => DecodeError::RlpExpectedToBeList,
        DecoderError::RlpExpectedToBeData => DecodeError::RlpExpectedToBeData,
        DecoderError::RlpIncorrectListLen => DecodeError::RlpIncorrectListLen,
        DecoderError::RlpDataLenWithZeroPrefix => DecodeError::RlpDataLenWithZeroPrefix,
        DecoderError::RlpListLenWithZeroPrefix => DecodeError::RlpListLenWithZeroPrefix,
        DecoderError::RlpInvalidIndirection => DecodeError::RlpInvalidIndirection,
        DecoderError::RlpInconsistentLengthAndData => DecodeError::RlpInconsistentLengthAndData,
        DecoderError::RlpInvalidLength => DecodeError::RlpInvalidLength,
        DecoderError::Custom(text) => DecodeError::Custom(text),
    })
}

/// Calls `Rlp::val_at` for a 20-byte hash, on a reader made for `raw`. The
/// address, or the decoder's error, depends on the bytes and the index alone.
#[verifier::external_body]
pub(crate) fn address_at(raw: &[u8], index: usize) -> (res: Result<Address, DecodeError>)
    ensures
        res == rlp_address_at(raw@, index),
{
    Rlp::new(raw).val_at::<ethereum_types::H160>(index).map(|x| Address { bytes: x.0 }).map_err(|e| match e {
        DecoderError::RlpIsTooBig => DecodeError::RlpIsTooBig,
        DecoderError::RlpIsTooShort => DecodeError::RlpIsTooShort,
        DecoderError::RlpExpectedToBeList => DecodeError::RlpExpectedToBeList,
        DecoderError::RlpExpectedToBeData => DecodeError::RlpExpectedToBeData,
        DecoderError::RlpIncorrectListLen => DecodeError::RlpIncorrectListLen,
        DecoderError::RlpDataLenWithZeroPrefix => DecodeError::RlpDataLenWithZeroPrefix,
        DecoderError::RlpListLenWithZeroPrefix => DecodeError::RlpListLenWithZeroPrefix,
        DecoderError::RlpInvalidIndirection => DecodeError::RlpInvalidIndirection,
        DecoderError::RlpInconsistentLengthAndData => DecodeError::RlpInconsistentLengthAndData,
        DecoderError::RlpInvalidLength => DecodeError::RlpInvalidLength,
        DecoderError::Custom(text) => DecodeError::Custom(text),
    })
}

} // verus!
