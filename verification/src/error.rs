//! The errors that the library returns.

use vstd::prelude::*;

verus! {

/// Why a transaction could not be built from its parts.
#[derive(Clone, Copy, Debug, PartialEq, Eq)]
pub enum Error {
    /// The recovery id of the signature is neither 0 nor 1.
    InvalidSignature,
}

/// Why bytes could not be read as an RLP container of the expected shape.
/// The variants are those of the RLP decoder, one for one.
#[derive(Clone, Copy, Debug, PartialEq, Eq)]
pub enum DecodeError {
    /// Data has additional bytes at the end of the valid RLP fragment.
    RlpIsTooBig,
    /// Data has too few bytes for valid RLP.
    RlpIsTooShort,
    /// A list was expected and something else was found.
    RlpExpectedToBeList,
    /// Data was expected and something else was found.
    RlpExpectedToBeData,
    /// The list does not have the expected number of items.
    RlpIncorrectListLen,
    /// The length of the data starts with a zero byte.
    RlpDataLenWithZeroPrefix,
    /// The length of the list starts with a zero byte.
    RlpListLenWithZeroPrefix,
    /// A representation longer than necessary was used.
    RlpInvalidIndirection,
    /// The declared length does not agree with the data that follows.
    RlpInconsistentLengthAndData,
    /// The declared length overflows.
    RlpInvalidLength,
    /// Another decoding error, with the decoder's words.
    Custom(&'static str),
}

impl Error {
    /// A short description of the error.
    pub fn message(&self) -> (text: String)
        ensures
            text@ == "invalid sig v"@,
    {
        match self {
            Error::InvalidSignature => "invalid sig v".to_string(),
        }
    }
}

} // verus!
