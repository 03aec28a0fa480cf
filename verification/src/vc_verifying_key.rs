//! The prepared verifying key that proofs are checked against, held as its
//! canonical uncompressed encoding (the format of the key file).

use vstd::prelude::*;

use ark_bn254::Bn254;
use ark_groth16::PreparedVerifyingKey;
use ark_serialize::{CanonicalDeserialize, CanonicalSerialize, SerializationError};

use crate::error::{result_bytes, DecodeError, SerializationFailure};

verus! {

/// What `PreparedVerifyingKey::<Bn254>::deserialize_uncompressed` makes of
/// `bytes`, written back with `serialize_uncompressed`, or the kind of error
/// it refuses them with.
pub uninterp spec fn prepared_vk_uncompressed_canonical(bytes: Seq<u8>) -> Result<
    Seq<u8>,
    SerializationFailure,
>;

/// Calls `PreparedVerifyingKey::<Bn254>::deserialize_uncompressed` on
/// `input` (with validation) and writes the key back with
/// `serialize_uncompressed`. Which byte strings it accepts is left to the
/// name.
#[verifier::external_body]
fn prepared_vk_canonical(input: &[u8]) -> (r: Result<Vec<u8>, SerializationFailure>)
    ensures
        result_bytes(r) == prepared_vk_uncompressed_canonical(input@),
{
    let mut out = Vec::new();
    match PreparedVerifyingKey::<Bn254>::deserialize_uncompressed(input) {
        Ok(k) => {
            let _ = k.serialize_uncompressed(&mut out);
            Ok(out)
        },
        Err(SerializationError::NotEnoughSpace) => Err(SerializationFailure::NotEnoughSpace),
        Err(SerializationError::InvalidData) => Err(SerializationFailure::InvalidData),
        Err(SerializationError::UnexpectedFlags) => Err(SerializationFailure::UnexpectedFlags),
        Err(SerializationError::IoError(_)) => Err(SerializationFailure::Io),
    }
}

/// Whether `bytes` is what reading some key file gives.
pub open spec fn is_read_prepared_vk(bytes: Seq<u8>) -> bool {
    exists|input: Seq<u8>|
        #[trigger] prepared_vk_uncompressed_canonical(input) == Ok::<
            Seq<u8>,
            SerializationFailure,
        >(bytes)
}

/// A BN254 Groth16 prepared verifying key, held as its canonical
/// uncompressed encoding.
#[derive(Debug)]
pub struct VcPreparedVerifyingKey {
    uncompressed: Vec<u8>,
}

impl View for VcPreparedVerifyingKey {
    type V = Seq<u8>;

    /// The key's canonical uncompressed encoding.
    closed spec fn view(&self) -> Seq<u8> {
        self.uncompressed@
    }
}

impl VcPreparedVerifyingKey {
    #[verifier::type_invariant]
    spec fn inv(self) -> bool {
        is_read_prepared_vk(self.uncompressed@)
    }

    /// Reads a prepared verifying key from the contents of a key file (its
    /// uncompressed encoding), or the reason they encode none.
    pub fn from_bytes(bytes: &[u8]) -> (r: Result<VcPreparedVerifyingKey, DecodeError>)
        ensures
            match r {
                Ok(k) => prepared_vk_uncompressed_canonical(bytes@) == Ok::<
                    Seq<u8>,
                    SerializationFailure,
                >(k@),
                Err(e) => prepared_vk_uncompressed_canonical(bytes@) matches Err(f) && e
                    == DecodeError::Serialization(f),
            },
    {
        match prepared_vk_canonical(bytes) {
            Ok(uncompressed) => Ok(VcPreparedVerifyingKey { uncompressed }),
            Err(f) => Err(DecodeError::Serialization(f)),
        }
    }

    /// The key's uncompressed encoding, as read from some key file.
    pub fn uncompressed(&self) -> (r: &[u8])
        ensures
            r@ == self@,
            is_read_prepared_vk(self@),
    {
        proof {
            use_type_invariant(self);
        }
        self.uncompressed.as_slice()
    }
}

} // verus!
