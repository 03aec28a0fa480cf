# zg_vc_rpc

The wire formats and reply values of a JSON-RPC service that generates and
verifies Groth16 proofs over BN254, verified with Verus.

- `src/hex.rs`: lowercase hex encoding and `0x`-tolerant decoding (through
  `const_hex`), with the round-trip lemma.
- `src/vc_proof.rs`, `src/vc_fr.rs`, `src/vc_proving_key.rs`: proofs, scalar
  field elements and proving keys, held as their canonical compressed
  encodings (read and written through `ark-serialize`), written as hex.
- `src/vc_verifying_key.rs`: the prepared verifying key read from the key
  file's bytes (through `ark-serialize`).
- `src/vc_bigint.rs`: signed integers read with `num-bigint` from hex text and
  written as sign, `0x` and lowercase digits.
- `src/base64_data.rs`: raw bytes as standard base64 (through `base64`).
- `src/rpc.rs`: the JSON-RPC internal-error object, the echo answer and the
  log lines of the proof methods.
- `app/`: the service itself (serde forms, the jsonrpsee server, the prover
  thread, log files).
