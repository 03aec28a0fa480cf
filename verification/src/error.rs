//! The library's error values.

use vstd::prelude::*;

use crate::hex::HexError;

verus! {

/// An error that carries only a message.
#[derive(Debug)]
pub enum VcError {
    Message(String),
}

impl VcError {
    /// An error with the given message.
    pub fn custom(msg: String) -> (e: VcError)
        ensures
            e == VcError::Message(msg),
    {
        VcError::Message(msg)
    }

    /// The message of the error, as it is displayed.
    pub fn to_string(&self) -> (s: String)
        ensures
            s@ == match self {
                VcError::Message(m) => m@,
            },
    {
        match self {
            VcError::Message(m) => m.clone(),
        }
    }
}

/// The view of a result that holds bytes.
pub open spec fn result_bytes<E>(r: Result<Vec<u8>, E>) -> Result<Seq<u8>, E> {
    match r {
        Ok(v) => Ok(v@),
        Err(e) => Err(e),
    }
}

/// Bytes as a successful result.
pub open spec fn ok_bytes<E>(b: Seq<u8>) -> Result<Seq<u8>, E> {
    Ok(b)
}

/// Why bytes could not be read as an arkworks value (the variants of
/// `ark_serialize::SerializationError`).
#[derive(Clone, Copy, Debug, PartialEq, Eq, Structural)]
pub enum SerializationFailure {
    /// The last byte has no room for the flag bits.
    NotEnoughSpace,
    /// The bytes do not encode a valid value.
    InvalidData,
    /// Flags were set where none were expected.
    UnexpectedFlags,
    /// Reading failed; from bytes in memory, this means they ran out.
    Io,
}

/// Why a text could not be read as an integer (the two kinds of
/// `num_bigint::ParseBigIntError`).
#[derive(Clone, Copy, Debug, PartialEq, Eq, Structural)]
pub enum BigIntParseFailure {
    /// Nothing is left once the sign is removed.
    Empty,
    /// A character is not a digit of the radix.
    InvalidDigit,
}

/// Why a text is not base64 (the variants of `base64::DecodeError`).
#[derive(Clone, Copy, Debug, PartialEq, Eq, Structural)]
pub enum Base64Failure {
    /// A byte outside the alphabet, or padding in the wrong place.
    InvalidByte { index: usize, byte: u8 },
    /// The length leaves six bits over.
    InvalidLength,
    /// The last symbol carries bits that would be dropped.
    InvalidLastSymbol { index: usize, byte: u8 },
    /// The padding is not canonical.
    InvalidPadding,
}

/// Why a text could not be read back as one of the library's values.
#[derive(Clone, Copy, Debug, PartialEq, Eq, Structural)]
pub enum DecodeError {
    /// The text is not valid hex.
    Hex(HexError),
    /// The decoded bytes are not a compressed encoding of the expected value.
    Serialization(SerializationFailure),
    /// The text is not a hexadecimal integer.
    Number(BigIntParseFailure),
    /// The text is not valid base64.
    Base64(Base64Failure),
}

} // verus!
