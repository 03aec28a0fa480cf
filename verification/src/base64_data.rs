//! Raw bytes written on the wire as standard base64 with padding.

use vstd::prelude::*;

use crate::error::{ok_bytes, result_bytes, Base64Failure, DecodeError};

verus! {

/// What `base64::decode` (the standard alphabet, canonical padding required,
/// no trailing bits) makes of the text `s`, or the error it refuses it with.
pub uninterp spec fn base64_decode_standard(s: Seq<char>) -> Result<Seq<u8>, Base64Failure>;

/// The character of a 6-bit value in the standard base64 alphabet.
pub open spec fn base64_char(v: int) -> char {
    if v < 26 {
        ('A' as int + v) as char
    } else if v < 52 {
        ('a' as int + v - 26) as char
    } else if v < 62 {
        ('0' as int + v - 52) as char
    } else if v == 62 {
        '+'
    } else {
        '/'
    }
}

/// The byte at `i`, or zero past the end.
pub open spec fn byte_or_zero(b: Seq<u8>, i: int) -> int {
    if i < b.len() {
        b[i] as int
    } else {
        0
    }
}

/// Standard base64 with padding: every three bytes (zero-filled at the end)
/// make four 6-bit values, most significant first; the characters that stand
/// only for filler bytes are `=`.
pub open spec fn base64_encode_spec(b: Seq<u8>) -> Seq<char> {
    Seq::new(
        4 * ((b.len() + 2) / 3) as nat,
        |j: int|
            {
                let g = j / 4;
                let p = j % 4;
                let word = byte_or_zero(b, 3 * g) * 65536 + byte_or_zero(b, 3 * g + 1) * 256
                    + byte_or_zero(b, 3 * g + 2);
                let shift = if p == 0 {
                    262144
                } else if p == 1 {
                    4096
                } else if p == 2 {
                    64
                } else {
                    1
                };
                if 3 * g + p > b.len() {
                    '='
                } else {
                    base64_char((word / shift) % 64)
                }
            },
    )
}

/// Whether `s` is the standard base64 encoding of some bytes.
pub open spec fn is_base64_encoding(s: Seq<char>) -> bool {
    exists|b: Seq<u8>| #[trigger] base64_encode_spec(b) == s
}

/// Calls `base64::encode` (the standard engine: standard alphabet, padding);
/// as its documentation states, decoding the result gives the input back.
#[verifier::external_body]
fn base64_encode(bytes: &[u8]) -> (r: String)
    ensures
        r@ == base64_encode_spec(bytes@),
        base64_decode_standard(r@) == ok_bytes::<Base64Failure>(bytes@),
{
    #[allow(deprecated)]
    base64::encode(bytes)
}

/// Calls `base64::decode` (the standard engine). With canonical padding
/// required and trailing bits refused, its source accepts exactly the texts
/// that the standard encoding writes, and gives back the bytes they encode;
/// which error it reports otherwise is left to the name.
#[verifier::external_body]
fn base64_decode(s: &str) -> (r: Result<Vec<u8>, Base64Failure>)
    ensures
        result_bytes(r) == base64_decode_standard(s@),
        r is Ok <==> is_base64_encoding(s@),
        r matches Ok(v) ==> base64_encode_spec(v@) == s@,
{
    #[allow(deprecated)]
    match base64::decode(s) {
        Ok(v) => Ok(v),
        Err(base64::DecodeError::InvalidByte(index, byte)) => Err(
            Base64Failure::InvalidByte { index, byte },
        ),
        Err(base64::DecodeError::InvalidLength) => Err(Base64Failure::InvalidLength),
        Err(base64::DecodeError::InvalidLastSymbol(index, byte)) => Err(
            Base64Failure::InvalidLastSymbol { index, byte },
        ),
        Err(base64::DecodeError::InvalidPadding) => Err(Base64Failure::InvalidPadding),
    }
}

/// Raw bytes carried as base64 text.
#[derive(Debug, PartialEq, Eq)]
pub struct Data {
    pub bytes: Vec<u8>,
}

impl Data {
    /// What the wire format expects.
    pub fn expecting() -> (s: &'static str)
        ensures
            s@ == "a base64 encoded string"@,
    {
        "a base64 encoded string"
    }

    /// The wire form: standard base64 of the bytes; reading it back gives
    /// the same bytes.
    pub fn serialize(&self) -> (s: String)
        ensures
            s@ == base64_encode_spec(self.bytes@),
            base64_decode_standard(s@) == Ok::<Seq<u8>, Base64Failure>(self.bytes@),
    {
        base64_encode(self.bytes.as_slice())
    }

    /// Reads the bytes from standard base64 text: exactly the texts that
    /// `serialize` writes are accepted, as the bytes they encode.
    pub fn deserialize(value: &str) -> (r: Result<Data, DecodeError>)
        ensures
            match r {
                Ok(d) => base64_decode_standard(value@) == Ok::<Seq<u8>, Base64Failure>(d.bytes@)
                    && base64_encode_spec(d.bytes@) == value@,
                Err(e) => base64_decode_standard(value@) matches Err(k) && e == DecodeError::Base64(
                    k,
                ),
            },
            r is Ok <==> is_base64_encoding(value@),
    {
        match base64_decode(value) {
            Ok(bytes) => Ok(Data { bytes }),
            Err(k) => Err(DecodeError::Base64(k)),
        }
    }
}

} // verus!
