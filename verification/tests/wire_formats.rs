use ark_bn254::Bn254;
use ark_groth16::PreparedVerifyingKey;
use ark_serialize::CanonicalSerialize;
use zg_vc_rpc::vc_verifying_key::VcPreparedVerifyingKey;
use num_bigint::{BigInt, Sign};
use std::str::FromStr;

use zg_vc_rpc::base64_data::Data;
use zg_vc_rpc::error::{
    Base64Failure, BigIntParseFailure, DecodeError, SerializationFailure, VcError,
};
use zg_vc_rpc::hex::HexError;
use zg_vc_rpc::proof_with_meta::ProofWithMeta;
use zg_vc_rpc::rpc::{
    echo, generate_proof_request_log, generate_proof_result_log, jsonrpc_message_error,
    map_message_error, verify_proof_request_log, verify_proof_result_log,
};
use zg_vc_rpc::vc_bigint::VcBigInt;
use zg_vc_rpc::vc_fr::VcFr;
use zg_vc_rpc::vc_proof::VcProof;
use zg_vc_rpc::vc_proving_key::VcProvingKey;

const DEFAULT_PROOF: &str = "\"0000000000000000000000000000000000000000000000000000000000000040000000000000000000000000000000000000000000000000000000000000000000000000000000000000000000000000000000000000000000000000000000400000000000000000000000000000000000000000000000000000000000000040\"";

fn vc_bigint_from(b: &BigInt) -> VcBigInt {
    let (sign, digits) = b.to_u32_digits();
    VcBigInt::new(sign == Sign::Minus, digits)
}

fn assert_bigint_eq(v: &VcBigInt, b: &BigInt) {
    let (sign, digits) = b.to_u32_digits();
    assert_eq!(v.is_negative(), sign == Sign::Minus);
    assert_eq!(v.magnitude(), digits);
}

#[test]
fn vc_bigint_test_serialize() {
    let a = vc_bigint_from(&BigInt::from(64));
    let b = serde_json::to_string(&a.serialize()).unwrap();
    assert_eq!(b, "\"0x40\"");
}

#[test]
fn vc_bigint_test_deserialize() {
    let text: String = serde_json::from_str("\"40\"").unwrap();
    let deserialized = VcBigInt::deserialize(&text).unwrap();
    assert_bigint_eq(&deserialized, &BigInt::from(64));
}

#[test]
fn test_deserialize_hash() {
    let text: String = serde_json::from_str(
        "\"ece429ff29888bd867beadcb972cb55aea45ed0ec18a1499e6ae01cb71305cf7\"",
    )
    .unwrap();
    let deserialized = VcBigInt::deserialize(&text).unwrap();
    assert_bigint_eq(
        &deserialized,
        &BigInt::from_str(
            "107148963247180933655923634663779172825803093478263157203244777036570195680503",
        )
        .unwrap(),
    );
}

#[test]
fn vc_proof_test_serialize() {
    let a = VcProof::default();
    let b = serde_json::to_string(&a.serialize()).unwrap();
    assert_eq!(b, DEFAULT_PROOF);
}

#[test]
fn vc_proof_test_deserialize() {
    let text: String = serde_json::from_str(DEFAULT_PROOF).unwrap();
    let deserialized = VcProof::deserialize(&text).unwrap();
    println!("deserialized = {:?}", deserialized);
}

const FR_MODULUS_LE: &str = "010000f093f5e1439170b97948e833285d588181b64550b829a031e1724e6430";
const FR_MODULUS_MINUS_ONE_LE: &str =
    "000000f093f5e1439170b97948e833285d588181b64550b829a031e1724e6430";

#[test]
fn proof_round_trip_default() {
    let p = VcProof::default();
    let text = p.serialize();
    let q = VcProof::deserialize(&text).unwrap();
    assert_eq!(q.compressed(), p.compressed());
    assert_eq!(q.compressed().len(), 128);
}

#[test]
fn proof_accepts_hex_prefix_and_upper_case() {
    let p = VcProof::default();
    let text = format!("0X{}", p.serialize().to_uppercase());
    let q = VcProof::deserialize(&text).unwrap();
    assert_eq!(q.compressed(), p.compressed());
}

#[test]
fn proof_ignores_trailing_bytes() {
    let p = VcProof::default();
    let text = format!("{}abcd", p.serialize());
    let q = VcProof::deserialize(&text).unwrap();
    assert_eq!(q.compressed(), p.compressed());
}

#[test]
fn proof_odd_length_is_refused() {
    let r = VcProof::deserialize("abc");
    assert_eq!(r.unwrap_err(), DecodeError::Hex(HexError::OddLength));
}

#[test]
fn proof_invalid_character_is_refused() {
    let r = VcProof::deserialize("00g0");
    assert_eq!(
        r.unwrap_err(),
        DecodeError::Hex(HexError::InvalidHexCharacter { c: 'g', index: 2 })
    );
    let r = VcProof::deserialize("0x00zz");
    assert_eq!(
        r.unwrap_err(),
        DecodeError::Hex(HexError::InvalidHexCharacter { c: 'z', index: 2 })
    );
}

#[test]
fn proof_too_short_is_malformed() {
    assert_eq!(VcProof::deserialize("0040").unwrap_err(), DecodeError::Serialization(SerializationFailure::Io));
    assert_eq!(VcProof::deserialize("").unwrap_err(), DecodeError::Serialization(SerializationFailure::Io));
}

#[test]
fn proof_not_on_curve_is_malformed() {
    // For x = 4 the right-hand side 4^3 + 3 = 67 is not a square modulo the
    // base prime, so no point of G1 has that x coordinate.
    let mut bytes = vec![0u8; 128];
    bytes[0] = 4;
    bytes[32 + 63] = 0x40;
    bytes[96 + 31] = 0x40;
    let text = const_hex_free_encode(&bytes);
    assert_eq!(VcProof::deserialize(&text).unwrap_err(), DecodeError::Serialization(SerializationFailure::InvalidData));
}

fn const_hex_free_encode(bytes: &[u8]) -> String {
    bytes.iter().map(|b| format!("{:02x}", b)).collect()
}

#[test]
fn fr_default_is_zero() {
    let f = VcFr::default();
    assert_eq!(f.compressed(), &[0u8; 32][..]);
    assert_eq!(f.serialize(), "0".repeat(64));
}

#[test]
fn fr_round_trip_and_modulus_bound() {
    let f = VcFr::deserialize(FR_MODULUS_MINUS_ONE_LE).unwrap();
    assert_eq!(f.serialize(), FR_MODULUS_MINUS_ONE_LE);
    let g = VcFr::deserialize(&f.serialize()).unwrap();
    assert_eq!(g.compressed(), f.compressed());
    assert_eq!(VcFr::deserialize(FR_MODULUS_LE).unwrap_err(), DecodeError::Serialization(SerializationFailure::InvalidData));
}

#[test]
fn fr_reads_first_32_bytes() {
    let text = format!("{}ffff", FR_MODULUS_MINUS_ONE_LE);
    let f = VcFr::deserialize(&text).unwrap();
    assert_eq!(f.serialize(), FR_MODULUS_MINUS_ONE_LE);
    assert_eq!(VcFr::deserialize("00").unwrap_err(), DecodeError::Serialization(SerializationFailure::Io));
}

#[test]
fn proving_key_default_encoding() {
    let k = VcProvingKey::default();
    let g1 = format!("{}40", "00".repeat(31));
    let g2 = format!("{}40", "00".repeat(63));
    let empty = "00".repeat(8);
    let expected = format!(
        "{g1}{g2}{g2}{g2}{empty}{g1}{g1}{empty}{empty}{empty}{empty}{empty}"
    );
    assert_eq!(k.serialize(), expected);
    assert_eq!(k.compressed().len(), 336);
}

#[test]
fn proving_key_round_trip_default() {
    let k = VcProvingKey::default();
    let back = VcProvingKey::deserialize(&k.serialize()).unwrap();
    assert_eq!(back.compressed(), k.compressed());
    assert_eq!(VcProvingKey::deserialize("0").unwrap_err(), DecodeError::Hex(HexError::OddLength));
    assert_eq!(VcProvingKey::deserialize("00").unwrap_err(), DecodeError::Serialization(SerializationFailure::Io));
}

#[test]
fn bigint_serialize_signs() {
    assert_eq!(vc_bigint_from(&BigInt::from(-64)).serialize(), "-0x40");
    assert_eq!(vc_bigint_from(&BigInt::from(0)).serialize(), "0x0");
    assert_eq!(VcBigInt::default().serialize(), "0x0");
    let big = BigInt::from_str("107148963247180933655923634663779172825803093478263157203244777036570195680503").unwrap();
    assert_eq!(
        vc_bigint_from(&big).serialize(),
        "0xece429ff29888bd867beadcb972cb55aea45ed0ec18a1499e6ae01cb71305cf7"
    );
}

#[test]
fn bigint_deserialize_forms() {
    assert_bigint_eq(&VcBigInt::deserialize("-40").unwrap(), &BigInt::from(-64));
    assert_bigint_eq(&VcBigInt::deserialize("+4_0").unwrap(), &BigInt::from(64));
    assert_bigint_eq(&VcBigInt::deserialize("FF").unwrap(), &BigInt::from(255));
    assert_bigint_eq(&VcBigInt::deserialize("-0").unwrap(), &BigInt::from(0));
    for empty in ["", "-", "+", "-+"] {
        let expected = if empty == "-+" {
            BigIntParseFailure::InvalidDigit
        } else {
            BigIntParseFailure::Empty
        };
        assert_eq!(VcBigInt::deserialize(empty).unwrap_err(), DecodeError::Number(expected), "{empty}");
    }
    for bad in ["_40", "-+40", "++40", "0x40", "4g", "é", "-_1"] {
        assert_eq!(
            VcBigInt::deserialize(bad).unwrap_err(),
            DecodeError::Number(BigIntParseFailure::InvalidDigit),
            "{bad}"
        );
    }
}

#[test]
fn bigint_wire_digits_read_back() {
    for v in [-300i64, -1, 0, 1, 64, 1 << 40] {
        let b = vc_bigint_from(&BigInt::from(v));
        let text = b.serialize();
        let digits = text.replacen("0x", "", 1);
        assert_bigint_eq(&VcBigInt::deserialize(&digits).unwrap(), &BigInt::from(v));
    }
}

#[test]
fn bigint_new_normalises() {
    let b = VcBigInt::new(true, vec![0, 0]);
    assert!(!b.is_negative());
    assert_eq!(b.magnitude(), Vec::<u32>::new());
    let c = VcBigInt::new(false, vec![7, 1, 0]);
    assert_eq!(c.magnitude(), vec![7, 1]);
    assert_eq!(c.serialize(), "0x100000007");
}

#[test]
fn data_hello_round_trip() {
    let data = Data { bytes: vec![104, 101, 108, 108, 111] };
    let serialized = serde_json::to_string(&data.serialize()).unwrap();
    assert_eq!(serialized, "\"aGVsbG8=\"");
    let text: String = serde_json::from_str(&serialized).unwrap();
    let deserialized = Data::deserialize(&text).unwrap();
    assert_eq!(data, deserialized);
}

#[test]
fn data_encodings_and_errors() {
    assert_eq!(Data { bytes: vec![] }.serialize(), "");
    assert_eq!(Data { bytes: vec![0xff] }.serialize(), "/w==");
    assert_eq!(Data { bytes: vec![0xfb, 0xef] }.serialize(), "++8=");
    assert_eq!(
        Data::deserialize("aGVsbG8").unwrap_err(),
        DecodeError::Base64(Base64Failure::InvalidPadding)
    );
    assert_eq!(
        Data::deserialize("a$==").unwrap_err(),
        DecodeError::Base64(Base64Failure::InvalidByte { index: 1, byte: b'$' })
    );
    assert_eq!(
        Data::deserialize("!!!!").unwrap_err(),
        DecodeError::Base64(Base64Failure::InvalidByte { index: 0, byte: b'!' })
    );
    assert_eq!(
        Data::deserialize("QR==").unwrap_err(),
        DecodeError::Base64(Base64Failure::InvalidLastSymbol { index: 1, byte: b'R' })
    );
    assert_eq!(
        Data::deserialize("Q").unwrap_err(),
        DecodeError::Base64(Base64Failure::InvalidLength)
    );
}

#[test]
fn vc_error_message() {
    let e = VcError::custom("bad input".to_string());
    assert_eq!(e.to_string(), "bad input");
    match e {
        VcError::Message(m) => assert_eq!(m, "bad input"),
    }
}

#[test]
fn rpc_errors_and_replies() {
    let e = jsonrpc_message_error("channel closed".to_string());
    assert_eq!(e.code, -32603);
    assert_eq!(e.message, "channel closed");
    assert_eq!(e.data.as_deref(), Some(""));
    let ok: Result<u32, String> = Ok(3);
    assert_eq!(map_message_error(ok).unwrap(), 3);
    let err: Result<u32, String> = Err("boom".to_string());
    let mapped = map_message_error(err).unwrap_err();
    assert_eq!(mapped.code, -32603);
    assert_eq!(mapped.message, "boom");
    assert_eq!(echo("ping"), "Your input is: ping");
}

#[test]
fn rpc_log_lines() {
    let p = VcProof::default();
    assert_eq!(generate_proof_request_log("{\"a\":1}"), "generate_proof: {\"a\":1}\n");
    assert_eq!(
        generate_proof_result_log(&p),
        format!("generate_proof result: {}\n", DEFAULT_PROOF)
    );
    assert_eq!(
        verify_proof_request_log(&p, "[\"00\"]"),
        format!("verify_proof: proof {} public_inputs [\"00\"]\n", DEFAULT_PROOF)
    );
    assert_eq!(verify_proof_result_log(true), "verify_proof result: true\n");
    assert_eq!(verify_proof_result_log(false), "verify_proof result: false\n");
}

#[test]
fn proof_with_meta_holds_values() {
    let m = ProofWithMeta { proof: VcProof::default(), public_inputs: vec![VcFr::default()] };
    assert_eq!(m.proof.compressed().len(), 128);
    assert_eq!(m.public_inputs.len(), 1);
}

#[test]
fn proof_reading_gives_canonical_encoding() {
    // A point at infinity with a non-zero x coordinate is read as the point
    // at infinity, which is written back with a zero coordinate.
    let mut bytes = VcProof::default().compressed().to_vec();
    bytes[0] = 5;
    let q = VcProof::deserialize(&const_hex_free_encode(&bytes)).unwrap();
    assert_eq!(q.compressed(), VcProof::default().compressed());
}

#[test]
fn proving_key_reading_gives_canonical_encoding() {
    let k = VcProvingKey::default();
    let mut bytes = k.compressed().to_vec();
    bytes[0] = 7;
    bytes.extend_from_slice(&[1, 2, 3]);
    let back = VcProvingKey::deserialize(&const_hex_free_encode(&bytes)).unwrap();
    assert_eq!(back.compressed(), k.compressed());
}

#[test]
fn proof_short_bytes_are_malformed() {
    let default_text = VcProof::default().serialize();
    let short = &default_text[..default_text.len() - 2];
    assert_eq!(VcProof::deserialize(short).unwrap_err(), DecodeError::Serialization(SerializationFailure::Io));
    assert_eq!(VcProof::deserialize("zz").unwrap_err(),
        DecodeError::Hex(HexError::InvalidHexCharacter { c: 'z', index: 0 }));
    assert!(matches!(
        VcProof::from_compressed(&[0u8; 127]).unwrap_err(),
        DecodeError::Serialization(_)
    ));
}

#[test]
fn proof_from_compressed_canonicalises() {
    let mut bytes = VcProof::default().compressed().to_vec();
    bytes[40] = 9;
    bytes.push(1);
    let p = VcProof::from_compressed(&bytes).unwrap();
    assert_eq!(p.compressed(), VcProof::default().compressed());
}

#[test]
fn prepared_verifying_key_default_reads_back() {
    let mut bytes = Vec::new();
    PreparedVerifyingKey::<Bn254>::default().serialize_uncompressed(&mut bytes).unwrap();
    let k = VcPreparedVerifyingKey::from_bytes(&bytes).unwrap();
    assert_eq!(k.uncompressed(), &bytes[..]);
    bytes.push(0);
    let with_trailing = VcPreparedVerifyingKey::from_bytes(&bytes).unwrap();
    assert_eq!(with_trailing.uncompressed(), k.uncompressed());
    assert_eq!(
        VcPreparedVerifyingKey::from_bytes(&bytes[..10]).unwrap_err(),
        DecodeError::Serialization(SerializationFailure::Io)
    );
}

#[test]
fn fr_and_proving_key_from_compressed() {
    let mut bytes = vec![0u8; 33];
    bytes[0] = 5;
    let f = VcFr::from_compressed(&bytes).unwrap();
    assert_eq!(f.compressed(), &bytes[..32]);
    assert_eq!(VcFr::from_compressed(&bytes[..31]).unwrap_err(), DecodeError::Serialization(SerializationFailure::Io));
    let k = VcProvingKey::default();
    let again = VcProvingKey::from_compressed(k.compressed()).unwrap();
    assert_eq!(again.compressed(), k.compressed());
    assert!(matches!(
        VcProvingKey::from_compressed(&k.compressed()[..335]).unwrap_err(),
        DecodeError::Serialization(_)
    ));
}
