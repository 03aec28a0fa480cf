//! Wire formats of the zero-knowledge proof RPC service: hex, base64 and
//! hexadecimal big-integer encodings of proofs, field elements, proving keys
//! and numbers, together with the JSON-RPC error and reply values.

pub mod hex;
pub mod error;
pub mod vc_proof;
pub mod vc_fr;
pub mod vc_proving_key;
pub mod vc_bigint;
pub mod base64_data;
pub mod rpc;
pub mod proof_with_meta;
pub mod vc_verifying_key;
