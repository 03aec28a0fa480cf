//! The values that the JSON-RPC methods of the proof service answer and log.

use vstd::prelude::*;

use crate::hex::hex_encode_spec;
use crate::vc_proof::VcProof;

verus! {

/// A JSON-RPC error object: code, message and optional data (held as the
/// text of a JSON string).
#[derive(Debug)]
pub struct ErrorObject {
    pub code: i32,
    pub message: String,
    pub data: Option<String>,
}

/// Reads `jsonrpsee::types::error::INTERNAL_ERROR_CODE`, the JSON-RPC
/// "internal error" code, which its source defines as -32603.
#[verifier::external_body]
fn internal_error_code() -> (c: i32)
    ensures
        c == -32603,
{
    jsonrpsee::types::error::INTERNAL_ERROR_CODE
}

/// The internal-error object that carries `msg`, with empty data.
pub fn jsonrpc_message_error(msg: String) -> (e: ErrorObject)
    ensures
        e.code == -32603,
        e.message == msg,
        e.data matches Some(d) && d@ == Seq::<char>::empty(),
{
    ErrorObject { code: internal_error_code(), message: msg, data: Some(String::new()) }
}

/// A failed step of a method, answered as an internal error with its
/// message; a success is passed on.
pub fn map_message_error<T>(r: Result<T, String>) -> (out: Result<T, ErrorObject>)
    ensures
        match r {
            Ok(v) => out == Ok::<T, ErrorObject>(v),
            Err(m) => match out {
                Err(e) => e.code == -32603 && e.message == m && (e.data matches Some(d) && d@
                    == Seq::<char>::empty()),
                Ok(_) => false,
            },
        },
{
    match r {
        Ok(v) => Ok(v),
        Err(m) => Err(jsonrpc_message_error(m)),
    }
}

/// The answer of the echo method.
pub fn echo(input: &str) -> (s: String)
    ensures
        s@ == "Your input is: "@ + input@,
{
    let mut s = String::new();
    s.append("Your input is: ");
    s.append(input);
    s
}

/// The JSON text of a proof: its hex form as a JSON string.
pub open spec fn proof_json(p: &VcProof) -> Seq<char> {
    seq!['"'] + hex_encode_spec(p@) + seq!['"']
}

/// The log line written when a proof is requested, given the request as
/// JSON text.
pub fn generate_proof_request_log(input_json: &str) -> (s: String)
    ensures
        s@ == "generate_proof: "@ + input_json@ + seq!['\n'],
{
    let mut s = String::new();
    s.append("generate_proof: ");
    s.append(input_json);
    s.append("\n");
    proof {
        reveal_strlit("\n");
    }
    s
}

/// The log line written when a proof was generated.
pub fn generate_proof_result_log(p: &VcProof) -> (s: String)
    ensures
        s@ == "generate_proof result: "@ + proof_json(p) + seq!['\n'],
{
    let hex = p.serialize();
    let mut s = String::new();
    s.append("generate_proof result: \"");
    s.append(hex.as_str());
    s.append("\"\n");
    proof {
        reveal_strlit("generate_proof result: \"");
        reveal_strlit("generate_proof result: ");
        reveal_strlit("\"\n");
        assert(s@ =~= "generate_proof result: "@ + proof_json(p) + seq!['\n']);
    }
    s
}

/// The log line written when a proof is to be verified, given the public
/// inputs as JSON text.
pub fn verify_proof_request_log(p: &VcProof, public_inputs_json: &str) -> (s: String)
    ensures
        s@ == "verify_proof: proof "@ + proof_json(p) + " public_inputs "@ + public_inputs_json@
            + seq!['\n'],
{
    let hex = p.serialize();
    let mut s = String::new();
    s.append("verify_proof: proof \"");
    s.append(hex.as_str());
    s.append("\" public_inputs ");
    s.append(public_inputs_json);
    s.append("\n");
    proof {
        reveal_strlit("verify_proof: proof \"");
        reveal_strlit("verify_proof: proof ");
        reveal_strlit("\" public_inputs ");
        reveal_strlit(" public_inputs ");
        reveal_strlit("\n");
        assert(s@ =~= "verify_proof: proof "@ + proof_json(p) + " public_inputs "@
            + public_inputs_json@ + seq!['\n']);
    }
    s
}

/// The log line written with the outcome of a verification.
pub fn verify_proof_result_log(result: bool) -> (s: String)
    ensures
        s@ == "verify_proof result: "@ + (if result {
            "true"@
        } else {
            "false"@
        }) + seq!['\n'],
{
    let mut s = String::new();
    s.append("verify_proof result: ");
    if result {
        s.append("true");
    } else {
        s.append("false");
    }
    s.append("\n");
    proof {
        reveal_strlit("\n");
    }
    s
}

} // verus!
