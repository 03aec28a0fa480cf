//! A Groth16 proof over BN254, held as its canonical compressed encoding and
//! written on the wire as a lowercase hex string.

use vstd::prelude::*;
use vstd::string::StringSliceAdditionalSpecFns;

use ark_bn254::Bn254;
use ark_groth16::Proof;
use ark_serialize::{CanonicalDeserialize, CanonicalSerialize, SerializationError};

use crate::error::{ok_bytes, result_bytes, DecodeError, SerializationFailure};
use crate::hex::{hex_decode, hex_decode_spec, hex_encode, hex_encode_spec, HexError};

verus! {

/// What `Proof::<Bn254>::deserialize_compressed` makes of `bytes`, written
/// back with `serialize_compressed`, or the kind of error it refuses them
/// with.
pub uninterp spec fn proof_compressed_canonical(bytes: Seq<u8>) -> Result<
    Seq<u8>,
    SerializationFailure,
>;

/// The compressed encoding of the point at infinity of G1: the zero `x`
/// coordinate with the infinity flag (bit 6) set in its last byte.
pub open spec fn g1_identity_compressed() -> Seq<u8> {
    Seq::new(32, |i: int| if i == 31 { 64u8 } else { 0u8 })
}

/// The compressed encoding of the point at infinity of G2.
pub open spec fn g2_identity_compressed() -> Seq<u8> {
    Seq::new(64, |i: int| if i == 63 { 64u8 } else { 0u8 })
}

/// The compressed encoding of the default proof, whose three points are all
/// the point at infinity.
pub open spec fn default_proof_compressed() -> Seq<u8> {
    g1_identity_compressed() + g2_identity_compressed() + g1_identity_compressed()
}

/// Calls `Proof::<Bn254>::deserialize_compressed` on `input` (with
/// validation) and writes the proof back with `serialize_compressed`.
/// Its source reads exactly 128 bytes (32 for `a`, 64 for `b`, 32 for `c`)
/// and ignores the rest, and deserializing what it serializes gives the same
/// proof back; which byte strings it accepts (curve and subgroup membership)
/// is left to the name.
#[verifier::external_body]
fn proof_canonical(input: &[u8]) -> (r: Result<Vec<u8>, SerializationFailure>)
    ensures
        result_bytes(r) == proof_compressed_canonical(input@),
        r matches Ok(c) ==> c@.len() == 128 && input@.len() >= 128
            && proof_compressed_canonical(c@) == ok_bytes::<SerializationFailure>(c@),
{
    let mut out = Vec::new();
    match Proof::<Bn254>::deserialize_compressed(bytes::Buf::reader(input)) {
        Ok(p) => {
            let _ = p.serialize_compressed(&mut out);
            Ok(out)
        },
        Err(SerializationError::NotEnoughSpace) => Err(SerializationFailure::NotEnoughSpace),
        Err(SerializationError::InvalidData) => Err(SerializationFailure::InvalidData),
        Err(SerializationError::UnexpectedFlags) => Err(SerializationFailure::UnexpectedFlags),
        Err(SerializationError::IoError(_)) => Err(SerializationFailure::Io),
    }
}

/// Calls `Proof::<Bn254>::default` and `serialize_compressed`: the default
/// proof has the point at infinity in all three places, written as a zero
/// coordinate with the infinity flag; reading it back gives it again.
#[verifier::external_body]
fn proof_default_compressed() -> (r: Vec<u8>)
    ensures
        r@ == default_proof_compressed(),
        proof_compressed_canonical(r@) == ok_bytes::<SerializationFailure>(r@),
{
    let mut out = Vec::new();
    let _ = Proof::<Bn254>::default().serialize_compressed(&mut out);
    out
}

/// Whether `bytes` is the canonical compressed encoding of a proof.
pub open spec fn is_canonical_proof(bytes: Seq<u8>) -> bool {
    proof_compressed_canonical(bytes) == Ok::<Seq<u8>, SerializationFailure>(bytes) && bytes.len()
        == 128
}

/// What reading the hex text with UTF-8 bytes `text` as a proof gives: the
/// hex error, the serialization error where the bytes are no proof, else the proof's
/// canonical encoding.
pub open spec fn proof_from_hex(text: Seq<u8>) -> Result<Seq<u8>, DecodeError> {
    match hex_decode_spec(text) {
        Err(e) => Err(DecodeError::Hex(e)),
        Ok(raw) => match proof_compressed_canonical(raw) {
            Ok(c) => Ok(c),
            Err(f) => Err(DecodeError::Serialization(f)),
        },
    }
}

/// A BN254 Groth16 proof, held as its canonical compressed encoding.
#[derive(Debug)]
pub struct VcProof {
    compressed: Vec<u8>,
}

impl View for VcProof {
    type V = Seq<u8>;

    /// The proof's canonical compressed encoding.
    closed spec fn view(&self) -> Seq<u8> {
        self.compressed@
    }
}

impl VcProof {
    #[verifier::type_invariant]
    spec fn inv(self) -> bool {
        is_canonical_proof(self.compressed@)
    }

    /// The proof's compressed encoding (128 bytes, canonical).
    pub fn compressed(&self) -> (r: &[u8])
        ensures
            r@ == self@,
            is_canonical_proof(self@),
    {
        proof {
            use_type_invariant(self);
        }
        self.compressed.as_slice()
    }

    /// The proof that `bytes` encode in compressed form (extra bytes after
    /// the first 128 are ignored), or the reason they encode none.
    pub fn from_compressed(bytes: &[u8]) -> (r: Result<VcProof, DecodeError>)
        ensures
            match r {
                Ok(p) => proof_compressed_canonical(bytes@) == Ok::<Seq<u8>, SerializationFailure>(
                    p@,
                ) && is_canonical_proof(p@),
                Err(e) => proof_compressed_canonical(bytes@) matches Err(f) && e
                    == DecodeError::Serialization(f),
            },
            bytes@.len() < 128 ==> r matches Err(DecodeError::Serialization(_)),
    {
        match proof_canonical(bytes) {
            Ok(c) => Ok(VcProof { compressed: c }),
            Err(f) => Err(DecodeError::Serialization(f)),
        }
    }

    /// What the wire format expects.
    pub fn expecting() -> (s: &'static str)
        ensures
            s@ == "a hex encoded string"@,
    {
        "a hex encoded string"
    }

    /// The wire form of the proof: its compressed encoding in lowercase hex,
    /// 256 digits.
    pub fn serialize(&self) -> (s: String)
        ensures
            s@ == hex_encode_spec(self@),
            s@.len() == 256,
            is_canonical_proof(self@),
    {
        proof {
            use_type_invariant(self);
        }
        hex_encode(self.compressed.as_slice())
    }

    /// Reads a proof from its wire form: hex (optionally `0x`-prefixed)
    /// of a compressed encoding; fewer than 128 decoded bytes are refused.
    pub fn deserialize(value: &str) -> (r: Result<VcProof, DecodeError>)
        ensures
            match r {
                Ok(p) => proof_from_hex(value.spec_bytes()) == Ok::<Seq<u8>, DecodeError>(p@)
                    && is_canonical_proof(p@),
                Err(e) => proof_from_hex(value.spec_bytes()) == Err::<Seq<u8>, DecodeError>(e),
            },
            (hex_decode_spec(value.spec_bytes()) matches Ok(raw) && raw.len() < 128) ==> (r matches Err(
                DecodeError::Serialization(_),
            )),
            hex_decode_spec(value.spec_bytes()) matches Err(h) ==> r == Err::<VcProof, DecodeError>(
                DecodeError::Hex(h),
            ),
            hex_decode_spec(value.spec_bytes()) matches Ok(raw) ==> match proof_compressed_canonical(
                raw,
            ) {
                Ok(c) => r matches Ok(p) && p@ == c,
                Err(f) => r == Err::<VcProof, DecodeError>(DecodeError::Serialization(f)),
            },
    {
        match hex_decode(value.as_bytes()) {
            Err(e) => Err(DecodeError::Hex(e)),
            Ok(raw) => VcProof::from_compressed(raw.as_slice()),
        }
    }
}

impl Clone for VcProof {
    /// The same proof.
    fn clone(&self) -> (p: VcProof)
        ensures
            p@ == self@,
    {
        proof {
            use_type_invariant(self);
        }
        VcProof { compressed: self.compressed.clone() }
    }
}

impl Default for VcProof {
    /// The proof with the point at infinity in all three places.
    fn default() -> (p: VcProof)
        ensures
            p@ == default_proof_compressed(),
            is_canonical_proof(p@),
    {
        VcProof { compressed: proof_default_compressed() }
    }
}

/// Writing a proof to the wire and reading it back gives the same proof.
pub proof fn lemma_proof_round_trip(compressed: Seq<u8>)
    requires
        is_canonical_proof(compressed),
    ensures
        proof_from_hex(vstd::utf8::encode_utf8(hex_encode_spec(compressed))) == Ok::<
            Seq<u8>,
            DecodeError,
        >(compressed),
{
    crate::hex::lemma_hex_text_bytes(compressed);
    crate::hex::lemma_hex_round_trip(compressed);
}

} // verus!
