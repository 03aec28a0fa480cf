//! An element of the BN254 scalar field, held as its canonical 32-byte
//! little-endian encoding and written on the wire as lowercase hex.

use vstd::prelude::*;
use vstd::string::StringSliceAdditionalSpecFns;

use ark_bn254::Fr;
use ark_serialize::{CanonicalDeserialize, CanonicalSerialize, SerializationError};

use crate::error::{result_bytes, DecodeError, SerializationFailure};
use crate::hex::{hex_decode, hex_decode_spec, hex_encode, hex_encode_spec};

verus! {

/// The order `r` of the BN254 scalar field.
pub open spec fn fr_modulus() -> nat {
    21888242871839275222246405745257275088548364400416034343698204186575808495617nat
}

/// The little-endian value of a byte sequence.
pub open spec fn le_value(s: Seq<u8>) -> nat
    decreases s.len(),
{
    if s.len() == 0 {
        0
    } else {
        (s[0] as nat) + 256 * le_value(s.drop_first())
    }
}

/// What `Fr::deserialize_compressed` makes of `bytes`, written back with
/// `serialize_compressed`: fewer than 32 bytes fail to read; otherwise the
/// first 32 are a little-endian integer, refused as invalid data unless it
/// is below the modulus; the encoding of an element is those same 32 bytes.
pub open spec fn fr_compressed_canonical(bytes: Seq<u8>) -> Result<Seq<u8>, SerializationFailure> {
    if bytes.len() < 32 {
        Err(SerializationFailure::Io)
    } else if le_value(bytes.take(32)) < fr_modulus() {
        Ok(bytes.take(32))
    } else {
        Err(SerializationFailure::InvalidData)
    }
}

/// Calls `Fr::deserialize_compressed` on `input` and writes the element back
/// with `serialize_compressed`. In its source (ark-ff `Fp`), reading takes
/// the first 32 bytes as a little-endian integer, refuses it unless it is
/// below the modulus, and ignores the rest; writing gives the same 32 bytes.
#[verifier::external_body]
fn fr_canonical(input: &[u8]) -> (r: Result<Vec<u8>, SerializationFailure>)
    ensures
        result_bytes(r) == fr_compressed_canonical(input@),
{
    let mut out = Vec::new();
    match Fr::deserialize_compressed(bytes::Buf::reader(input)) {
        Ok(f) => {
            let _ = f.serialize_compressed(&mut out);
            Ok(out)
        },
        Err(SerializationError::NotEnoughSpace) => Err(SerializationFailure::NotEnoughSpace),
        Err(SerializationError::InvalidData) => Err(SerializationFailure::InvalidData),
        Err(SerializationError::UnexpectedFlags) => Err(SerializationFailure::UnexpectedFlags),
        Err(SerializationError::IoError(_)) => Err(SerializationFailure::Io),
    }
}

/// Calls `Fr::default` and `serialize_compressed`: the default element is
/// zero, written as 32 zero bytes.
#[verifier::external_body]
fn fr_default_compressed() -> (r: Vec<u8>)
    ensures
        r@ == Seq::new(32, |i: int| 0u8),
{
    let mut out = Vec::new();
    let _ = Fr::default().serialize_compressed(&mut out);
    out
}

/// Whether `bytes` is the canonical encoding of a scalar field element.
pub open spec fn is_canonical_fr(bytes: Seq<u8>) -> bool {
    bytes.len() == 32 && le_value(bytes) < fr_modulus()
}

/// What reading the hex text with UTF-8 bytes `text` as a field element
/// gives.
pub open spec fn fr_from_hex(text: Seq<u8>) -> Result<Seq<u8>, DecodeError> {
    match hex_decode_spec(text) {
        Err(e) => Err(DecodeError::Hex(e)),
        Ok(raw) => match fr_compressed_canonical(raw) {
            Ok(c) => Ok(c),
            Err(f) => Err(DecodeError::Serialization(f)),
        },
    }
}

/// An element of the BN254 scalar field, held as its canonical compressed
/// encoding.
#[derive(Debug)]
pub struct VcFr {
    compressed: Vec<u8>,
}

impl View for VcFr {
    type V = Seq<u8>;

    /// The element's 32-byte little-endian encoding.
    closed spec fn view(&self) -> Seq<u8> {
        self.compressed@
    }
}

impl VcFr {
    #[verifier::type_invariant]
    spec fn inv(self) -> bool {
        is_canonical_fr(self.compressed@)
    }

    /// The element as an integer.
    pub open spec fn value(&self) -> nat {
        le_value(self@)
    }

    /// The element's encoding (32 bytes, little-endian, below the modulus).
    pub fn compressed(&self) -> (r: &[u8])
        ensures
            r@ == self@,
            is_canonical_fr(self@),
    {
        proof {
            use_type_invariant(self);
        }
        self.compressed.as_slice()
    }

    /// What the wire format expects.
    pub fn expecting() -> (s: &'static str)
        ensures
            s@ == "a hex encoded string"@,
    {
        "a hex encoded string"
    }

    /// The wire form of the element: its 32-byte encoding in lowercase hex,
    /// 64 digits.
    pub fn serialize(&self) -> (s: String)
        ensures
            s@ == hex_encode_spec(self@),
            s@.len() == 64,
            is_canonical_fr(self@),
    {
        proof {
            use_type_invariant(self);
        }
        hex_encode(self.compressed.as_slice())
    }

    /// The element whose little-endian encoding starts `bytes` (extra bytes
    /// after the first 32 are ignored): too few bytes fail to read, and a
    /// value at or above the modulus is invalid data.
    pub fn from_compressed(bytes: &[u8]) -> (r: Result<VcFr, DecodeError>)
        ensures
            match r {
                Ok(f) => fr_compressed_canonical(bytes@) == Ok::<Seq<u8>, SerializationFailure>(f@)
                    && is_canonical_fr(f@),
                Err(e) => fr_compressed_canonical(bytes@) matches Err(k) && e
                    == DecodeError::Serialization(k),
            },
    {
        match fr_canonical(bytes) {
            Ok(c) => {
                proof {
                    assert(bytes@.take(32) == c@);
                }
                Ok(VcFr { compressed: c })
            },
            Err(k) => Err(DecodeError::Serialization(k)),
        }
    }

    /// Reads an element from its wire form: hex (optionally `0x`-prefixed)
    /// whose first 32 bytes are a little-endian integer below the modulus.
    pub fn deserialize(value: &str) -> (r: Result<VcFr, DecodeError>)
        ensures
            match r {
                Ok(f) => fr_from_hex(value.spec_bytes()) == Ok::<Seq<u8>, DecodeError>(f@)
                    && is_canonical_fr(f@),
                Err(e) => fr_from_hex(value.spec_bytes()) == Err::<Seq<u8>, DecodeError>(e),
            },
            hex_decode_spec(value.spec_bytes()) matches Err(h) ==> r == Err::<VcFr, DecodeError>(
                DecodeError::Hex(h),
            ),
            hex_decode_spec(value.spec_bytes()) matches Ok(raw) ==> match fr_compressed_canonical(raw) {
                Ok(c) => r matches Ok(f) && f@ == c,
                Err(k) => r == Err::<VcFr, DecodeError>(DecodeError::Serialization(k)),
            },
            hex_decode_spec(value.spec_bytes()) matches Ok(raw) ==> (r is Ok <==> (raw.len() >= 32
                && le_value(raw.take(32)) < fr_modulus())),
            hex_decode_spec(value.spec_bytes()) matches Ok(raw) ==> (r matches Ok(f) ==> f@ == raw.take(
                32,
            )),
    {
        match hex_decode(value.as_bytes()) {
            Err(e) => Err(DecodeError::Hex(e)),
            Ok(raw) => VcFr::from_compressed(raw.as_slice()),
        }
    }
}

impl Clone for VcFr {
    /// The same element.
    fn clone(&self) -> (f: VcFr)
        ensures
            f@ == self@,
    {
        proof {
            use_type_invariant(self);
        }
        VcFr { compressed: self.compressed.clone() }
    }
}

/// The little-endian value of zero bytes is zero.
proof fn lemma_le_value_zeros(s: Seq<u8>)
    requires
        forall|i: int| 0 <= i < s.len() ==> s[i] == 0,
    ensures
        le_value(s) == 0,
    decreases s.len(),
{
    if s.len() > 0 {
        let t = s.drop_first();
        assert forall|i: int| 0 <= i < t.len() implies t[i] == 0 by {
            assert(t[i] == s[i + 1]);
        }
        lemma_le_value_zeros(t);
    }
}

impl Default for VcFr {
    /// The zero element.
    fn default() -> (f: VcFr)
        ensures
            f@ == Seq::new(32, |i: int| 0u8),
            f.value() == 0,
            is_canonical_fr(f@),
    {
        let c = fr_default_compressed();
        proof {
            lemma_le_value_zeros(c@);
        }
        VcFr { compressed: c }
    }
}

/// Writing a field element to the wire and reading it back gives the same
/// element.
pub proof fn lemma_fr_round_trip(compressed: Seq<u8>)
    requires
        is_canonical_fr(compressed),
    ensures
        fr_from_hex(vstd::utf8::encode_utf8(hex_encode_spec(compressed))) == Ok::<
            Seq<u8>,
            DecodeError,
        >(compressed),
{
    crate::hex::lemma_hex_text_bytes(compressed);
    crate::hex::lemma_hex_round_trip(compressed);
    assert(compressed.take(32) =~= compressed);
}

} // verus!
