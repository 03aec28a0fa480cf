//! A Groth16 proving key over BN254, held as its canonical compressed
//! encoding and written on the wire as lowercase hex.

use vstd::prelude::*;
use vstd::string::StringSliceAdditionalSpecFns;

use ark_bn254::Bn254;
use ark_groth16::{ProvingKey, VerifyingKey};
use ark_serialize::{CanonicalDeserialize, CanonicalSerialize, SerializationError};

use crate::error::{ok_bytes, result_bytes, DecodeError, SerializationFailure};
use crate::hex::{hex_decode, hex_decode_spec, hex_encode, hex_encode_spec};
use crate::vc_proof::{g1_identity_compressed, g2_identity_compressed};

verus! {

/// What `ProvingKey::<Bn254>::deserialize_compressed` makes of `bytes`,
/// written back with `serialize_compressed`, or the kind of error it refuses
/// them with.
pub uninterp spec fn proving_key_compressed_canonical(bytes: Seq<u8>) -> Result<
    Seq<u8>,
    SerializationFailure,
>;

/// The compressed encoding of an empty vector: its length as eight zero
/// bytes.
pub open spec fn empty_vec_compressed() -> Seq<u8> {
    Seq::new(8, |i: int| 0u8)
}

/// The compressed encoding of the default verifying key: the point at
/// infinity for `alpha_g1`, `beta_g2`, `gamma_g2` and `delta_g2`, and no
/// `gamma_abc_g1` points.
pub open spec fn default_verifying_key_compressed() -> Seq<u8> {
    g1_identity_compressed() + g2_identity_compressed() + g2_identity_compressed()
        + g2_identity_compressed() + empty_vec_compressed()
}

/// The compressed encoding of the default proving key: the default verifying
/// key, the point at infinity for `beta_g1` and `delta_g1`, and five empty
/// query vectors.
pub open spec fn default_proving_key_compressed() -> Seq<u8> {
    default_verifying_key_compressed() + g1_identity_compressed() + g1_identity_compressed()
        + empty_vec_compressed() + empty_vec_compressed() + empty_vec_compressed()
        + empty_vec_compressed() + empty_vec_compressed()
}

/// Calls `ProvingKey::<Bn254>::deserialize_compressed` on `input` (with
/// validation) and writes the key back with `serialize_compressed`; reading
/// back what it writes gives the same key. The smallest key it reads has
/// empty vectors: four G2 and four G1 points and six lengths, 336 bytes.
/// Which byte strings it accepts is left to the name.
#[verifier::external_body]
fn proving_key_canonical(input: &[u8]) -> (r: Result<Vec<u8>, SerializationFailure>)
    ensures
        result_bytes(r) == proving_key_compressed_canonical(input@),
        r matches Ok(c) ==> input@.len() >= 336 && c@.len() >= 336
            && proving_key_compressed_canonical(c@) == ok_bytes::<SerializationFailure>(c@),
{
    let mut out = Vec::new();
    match ProvingKey::<Bn254>::deserialize_compressed(bytes::Buf::reader(input)) {
        Ok(k) => {
            let _ = k.serialize_compressed(&mut out);
            Ok(out)
        },
        Err(SerializationError::NotEnoughSpace) => Err(SerializationFailure::NotEnoughSpace),
        Err(SerializationError::InvalidData) => Err(SerializationFailure::InvalidData),
        Err(SerializationError::UnexpectedFlags) => Err(SerializationFailure::UnexpectedFlags),
        Err(SerializationError::IoError(_)) => Err(SerializationFailure::Io),
    }
}

/// Builds the default proving key (`VerifyingKey::<Bn254>::default`, default
/// points, empty vectors) and calls `serialize_compressed`: points at
/// infinity are written as a zero coordinate with the infinity flag, vectors
/// as their length in eight bytes then their points; reading it back gives
/// it again.
#[verifier::external_body]
fn proving_key_default_compressed() -> (r: Vec<u8>)
    ensures
        r@ == default_proving_key_compressed(),
        proving_key_compressed_canonical(r@) == ok_bytes::<SerializationFailure>(r@),
{
    let pk: ProvingKey<Bn254> = ProvingKey {
        vk: VerifyingKey::<Bn254>::default(),
        beta_g1: Default::default(),
        delta_g1: Default::default(),
        a_query: Vec::new(),
        b_g1_query: Vec::new(),
        b_g2_query: Vec::new(),
        h_query: Vec::new(),
        l_query: Vec::new(),
    };
    let mut out = Vec::new();
    let _ = pk.serialize_compressed(&mut out);
    out
}

/// Whether `bytes` is the canonical compressed encoding of a proving key.
pub open spec fn is_canonical_proving_key(bytes: Seq<u8>) -> bool {
    proving_key_compressed_canonical(bytes) == Ok::<Seq<u8>, SerializationFailure>(bytes)
}

/// What reading the hex text with UTF-8 bytes `text` as a proving key gives.
pub open spec fn proving_key_from_hex(text: Seq<u8>) -> Result<Seq<u8>, DecodeError> {
    match hex_decode_spec(text) {
        Err(e) => Err(DecodeError::Hex(e)),
        Ok(raw) => match proving_key_compressed_canonical(raw) {
            Ok(c) => Ok(c),
            Err(f) => Err(DecodeError::Serialization(f)),
        },
    }
}

/// A BN254 Groth16 proving key, held as its canonical compressed encoding.
#[derive(Debug)]
pub struct VcProvingKey {
    compressed: Vec<u8>,
}

impl View for VcProvingKey {
    type V = Seq<u8>;

    /// The key's canonical compressed encoding.
    closed spec fn view(&self) -> Seq<u8> {
        self.compressed@
    }
}

impl VcProvingKey {
    #[verifier::type_invariant]
    spec fn inv(self) -> bool {
        is_canonical_proving_key(self.compressed@)
    }

    /// The key's compressed encoding (canonical).
    pub fn compressed(&self) -> (r: &[u8])
        ensures
            r@ == self@,
            is_canonical_proving_key(self@),
    {
        proof {
            use_type_invariant(self);
        }
        self.compressed.as_slice()
    }

    /// What the wire format expects.
    pub fn expecting() -> (s: &'static str)
        ensures
            s@ == "a base64 encoded string"@,
    {
        "a base64 encoded string"
    }

    /// The wire form of the key: its compressed encoding in lowercase hex.
    pub fn serialize(&self) -> (s: String)
        ensures
            s@ == hex_encode_spec(self@),
            is_canonical_proving_key(self@),
    {
        proof {
            use_type_invariant(self);
        }
        hex_encode(self.compressed.as_slice())
    }

    /// The key that `bytes` encode in compressed form, or the reason they
    /// encode none; fewer than 336 bytes are refused.
    pub fn from_compressed(bytes: &[u8]) -> (r: Result<VcProvingKey, DecodeError>)
        ensures
            match r {
                Ok(k) => proving_key_compressed_canonical(bytes@) == Ok::<
                    Seq<u8>,
                    SerializationFailure,
                >(k@) && is_canonical_proving_key(k@),
                Err(e) => proving_key_compressed_canonical(bytes@) matches Err(f) && e
                    == DecodeError::Serialization(f),
            },
            bytes@.len() < 336 ==> r matches Err(DecodeError::Serialization(_)),
    {
        match proving_key_canonical(bytes) {
            Ok(c) => Ok(VcProvingKey { compressed: c }),
            Err(f) => Err(DecodeError::Serialization(f)),
        }
    }

    /// Reads a key from its wire form: hex (optionally `0x`-prefixed) of a
    /// compressed encoding; fewer than 336 decoded bytes are refused.
    pub fn deserialize(value: &str) -> (r: Result<VcProvingKey, DecodeError>)
        ensures
            match r {
                Ok(k) => proving_key_from_hex(value.spec_bytes()) == Ok::<Seq<u8>, DecodeError>(
                    k@,
                ) && is_canonical_proving_key(k@),
                Err(e) => proving_key_from_hex(value.spec_bytes()) == Err::<Seq<u8>, DecodeError>(
                    e,
                ),
            },
            (hex_decode_spec(value.spec_bytes()) matches Ok(raw) && raw.len() < 336) ==> (r matches Err(
                DecodeError::Serialization(_),
            )),
            hex_decode_spec(value.spec_bytes()) matches Err(h) ==> r == Err::<
                VcProvingKey,
                DecodeError,
            >(DecodeError::Hex(h)),
            hex_decode_spec(value.spec_bytes()) matches Ok(raw) ==> match proving_key_compressed_canonical(
                raw,
            ) {
                Ok(c) => r matches Ok(k) && k@ == c,
                Err(f) => r == Err::<VcProvingKey, DecodeError>(DecodeError::Serialization(f)),
            },
    {
        match hex_decode(value.as_bytes()) {
            Err(e) => Err(DecodeError::Hex(e)),
            Ok(raw) => VcProvingKey::from_compressed(raw.as_slice()),
        }
    }
}

impl Clone for VcProvingKey {
    /// The same key.
    fn clone(&self) -> (k: VcProvingKey)
        ensures
            k@ == self@,
    {
        proof {
            use_type_invariant(self);
        }
        VcProvingKey { compressed: self.compressed.clone() }
    }
}

impl Default for VcProvingKey {
    /// The proving key made of the default verifying key, points at infinity
    /// and empty query vectors.
    fn default() -> (k: VcProvingKey)
        ensures
            k@ == default_proving_key_compressed(),
            is_canonical_proving_key(k@),
    {
        VcProvingKey { compressed: proving_key_default_compressed() }
    }
}

/// Writing a proving key to the wire and reading it back gives the same key.
pub proof fn lemma_proving_key_round_trip(compressed: Seq<u8>)
    requires
        is_canonical_proving_key(compressed),
    ensures
        proving_key_from_hex(vstd::utf8::encode_utf8(hex_encode_spec(compressed))) == Ok::<
            Seq<u8>,
            DecodeError,
        >(compressed),
{
    crate::hex::lemma_hex_text_bytes(compressed);
    crate::hex::lemma_hex_round_trip(compressed);
}

} // verus!
