//! Lowercase hex encoding and hex decoding (with an optional `0x` prefix),
//! as done by the `const_hex` crate.

use vstd::prelude::*;

verus! {

/// Why a hex string could not be decoded.
#[derive(Clone, Copy, Debug, PartialEq, Eq, Structural)]
pub enum HexError {
    /// A byte that is not `0-9`, `a-f` or `A-F`, at this index of the input
    /// after its prefix; `c` is that byte read as a Latin-1 character.
    InvalidHexCharacter { c: char, index: usize },
    /// The input has an odd number of bytes.
    OddLength,
    /// The decoded length does not fit the container (never happens when
    /// decoding into a vector).
    InvalidStringLength,
}

/// The lowercase ASCII hex digit of `n` (`0 <= n < 16`).
pub open spec fn hex_digit_byte(n: int) -> u8 {
    if n < 10 {
        (48 + n) as u8
    } else {
        (87 + n) as u8
    }
}

/// The lowercase hex encoding of `bytes`, as ASCII bytes: two digits per
/// byte, high nibble first.
pub open spec fn hex_encode_ascii(bytes: Seq<u8>) -> Seq<u8> {
    Seq::new(
        2 * bytes.len(),
        |i: int|
            if i % 2 == 0 {
                hex_digit_byte((bytes[i / 2] / 16) as int)
            } else {
                hex_digit_byte((bytes[i / 2] % 16) as int)
            },
    )
}

/// ASCII bytes read as characters.
pub open spec fn ascii_chars(bytes: Seq<u8>) -> Seq<char> {
    Seq::new(bytes.len(), |i: int| bytes[i] as char)
}

/// The lowercase hex encoding of `bytes`, as characters.
pub open spec fn hex_encode_spec(bytes: Seq<u8>) -> Seq<char> {
    ascii_chars(hex_encode_ascii(bytes))
}

/// The value of one hex digit byte, in either case.
pub open spec fn hex_nibble(b: u8) -> Option<u8> {
    if 48 <= b <= 57 {
        Some((b - 48) as u8)
    } else if 97 <= b <= 102 {
        Some((b - 87) as u8)
    } else if 65 <= b <= 70 {
        Some((b - 55) as u8)
    } else {
        None
    }
}

/// The input without a leading `0x` or `0X`.
pub open spec fn strip_hex_prefix(s: Seq<u8>) -> Seq<u8> {
    if s.len() >= 2 && s[0] == 48 && (s[1] == 120 || s[1] == 88) {
        s.skip(2)
    } else {
        s
    }
}

/// The index of the first byte of `s` that is not a hex digit, or `s.len()`.
pub open spec fn first_non_hex(s: Seq<u8>) -> int
    decreases s.len(),
{
    if s.len() == 0 {
        0
    } else if hex_nibble(s[0]) is None {
        0
    } else {
        1 + first_non_hex(s.drop_first())
    }
}

/// What decoding the hex text `input` gives: an odd number of bytes is
/// refused first; then an optional `0x`/`0X` prefix is dropped and the first
/// non-digit, if any, is reported; otherwise each pair of digits is a byte.
pub open spec fn hex_decode_spec(input: Seq<u8>) -> Result<Seq<u8>, HexError> {
    if input.len() % 2 != 0 {
        Err(HexError::OddLength)
    } else {
        let body = strip_hex_prefix(input);
        let k = first_non_hex(body);
        if k < body.len() {
            Err(HexError::InvalidHexCharacter { c: body[k] as char, index: k as usize })
        } else {
            Ok(
                Seq::new(
                    body.len() / 2,
                    |i: int|
                        (hex_nibble(body[2 * i]).unwrap() * 16 + hex_nibble(
                            body[2 * i + 1],
                        ).unwrap()) as u8,
                ),
            )
        }
    }
}


/// Every digit that `hex_encode_ascii` writes decodes back to its value.
proof fn lemma_hex_digit_nibble(n: int)
    requires
        0 <= n < 16,
    ensures
        hex_nibble(hex_digit_byte(n)) == Some(n as u8),
        hex_digit_byte(n) != 120 && hex_digit_byte(n) != 88,
        hex_digit_byte(n) < 128,
{
}

/// A sequence made only of hex digits has no first non-digit.
proof fn lemma_first_non_hex_all_digits(s: Seq<u8>)
    requires
        forall|i: int| 0 <= i < s.len() ==> #[trigger] hex_nibble(s[i]) is Some,
    ensures
        first_non_hex(s) == s.len(),
    decreases s.len(),
{
    if s.len() > 0 {
        let t = s.drop_first();
        assert forall|i: int| 0 <= i < t.len() implies #[trigger] hex_nibble(t[i]) is Some by {
            assert(t[i] == s[i + 1]);
        }
        lemma_first_non_hex_all_digits(t);
    }
}

/// The hex text of any bytes is ASCII, and its UTF-8 bytes are the digits.
pub proof fn lemma_hex_text_bytes(bytes: Seq<u8>)
    ensures
        vstd::utf8::is_ascii_chars(hex_encode_spec(bytes)),
        vstd::utf8::encode_utf8(hex_encode_spec(bytes)) == hex_encode_ascii(bytes),
{
    let a = hex_encode_ascii(bytes);
    let c = hex_encode_spec(bytes);
    assert forall|i: int| 0 <= i < a.len() implies #[trigger] a[i] < 128 by {
        lemma_hex_digit_nibble((bytes[i / 2] / 16) as int);
        lemma_hex_digit_nibble((bytes[i / 2] % 16) as int);
    }
    assert(vstd::utf8::is_ascii_chars(c));
    vstd::utf8::is_ascii_chars_encode_utf8(c);
    assert(vstd::utf8::encode_utf8(c) =~= a);
}

/// Decoding the hex encoding of any bytes gives those bytes back.
pub proof fn lemma_hex_round_trip(bytes: Seq<u8>)
    ensures
        hex_decode_spec(hex_encode_ascii(bytes)) == Ok::<Seq<u8>, HexError>(bytes),
{
    let a = hex_encode_ascii(bytes);
    assert forall|i: int| 0 <= i < a.len() implies #[trigger] hex_nibble(a[i]) is Some by {
        lemma_hex_digit_nibble((bytes[i / 2] / 16) as int);
        lemma_hex_digit_nibble((bytes[i / 2] % 16) as int);
    }
    if a.len() >= 2 {
        lemma_hex_digit_nibble((bytes[0] % 16) as int);
        assert(a[1] != 120 && a[1] != 88);
    }
    assert(strip_hex_prefix(a) == a);
    lemma_first_non_hex_all_digits(a);
    let d = Seq::new(
        a.len() / 2,
        |i: int| (hex_nibble(a[2 * i]).unwrap() * 16 + hex_nibble(a[2 * i + 1]).unwrap()) as u8,
    );
    assert forall|i: int| 0 <= i < bytes.len() implies #[trigger] d[i] == bytes[i] by {
        lemma_hex_digit_nibble((bytes[i] / 16) as int);
        lemma_hex_digit_nibble((bytes[i] % 16) as int);
        assert(a[2 * i] == hex_digit_byte((bytes[i] / 16) as int));
        assert(a[2 * i + 1] == hex_digit_byte((bytes[i] % 16) as int));
    }
    assert(d =~= bytes);
}

/// A `0x` or `0X` prefix does not change what an even-length hex text
/// decodes to, nor which character and index an error reports: decoding the
/// prefixed text gives exactly what decoding the text alone gives (for a
/// text that does not itself start with such a prefix).
pub proof fn lemma_hex_prefix_ignored(t: Seq<u8>)
    requires
        t.len() % 2 == 0,
        strip_hex_prefix(t) == t,
    ensures
        hex_decode_spec(seq![48u8, 120u8] + t) == hex_decode_spec(t),
        hex_decode_spec(seq![48u8, 88u8] + t) == hex_decode_spec(t),
{
    assert((seq![48u8, 120u8] + t).skip(2) =~= t);
    assert((seq![48u8, 88u8] + t).skip(2) =~= t);
}

/// Decoding fails exactly when the text has odd length or, after an
/// optional prefix, holds a byte that is no hex digit; on success each
/// output byte is the pair of digits at its place, so the output has half
/// the length of the text after its prefix.
pub proof fn lemma_hex_decode_shape(input: Seq<u8>)
    ensures
        hex_decode_spec(input) is Ok <==> (input.len() % 2 == 0 && first_non_hex(
            strip_hex_prefix(input),
        ) >= strip_hex_prefix(input).len()),
        hex_decode_spec(input) matches Ok(out) ==> out.len() * 2 == strip_hex_prefix(input).len()
            && forall|i: int|
            0 <= i < out.len() ==> #[trigger] out[i] == (hex_nibble(strip_hex_prefix(input)[2 * i]).unwrap()
                * 16 + hex_nibble(strip_hex_prefix(input)[2 * i + 1]).unwrap()) as u8,
{
    let body = strip_hex_prefix(input);
    if input.len() % 2 == 0 {
        if input.len() >= 2 && input[0] == 48 && (input[1] == 120 || input[1] == 88) {
            assert(body.len() == input.len() - 2);
        }
        assert(body.len() % 2 == 0);
    }
}

/// Calls `const_hex::encode`, which writes each byte as two lowercase hex
/// digits, high nibble first (as its documentation states).
#[verifier::external_body]
pub(crate) fn hex_encode(bytes: &[u8]) -> (r: String)
    ensures
        r@ == hex_encode_spec(bytes@),
{
    const_hex::encode(bytes)
}

/// Calls `const_hex::decode`; its source refuses an odd length first, then
/// drops a `0x`/`0X` prefix and reports the first non-digit byte by its index
/// in the rest, else pairs up the digits.
#[verifier::external_body]
pub(crate) fn hex_decode(input: &[u8]) -> (r: Result<Vec<u8>, HexError>)
    ensures
        match r {
            Ok(v) => hex_decode_spec(input@) == Ok::<Seq<u8>, HexError>(v@),
            Err(e) => hex_decode_spec(input@) == Err::<Seq<u8>, HexError>(e),
        },
{
    match const_hex::decode(input) {
        Ok(v) => Ok(v),
        Err(const_hex::FromHexError::InvalidHexCharacter { c, index }) => Err(
            HexError::InvalidHexCharacter { c, index },
        ),
        Err(const_hex::FromHexError::OddLength) => Err(HexError::OddLength),
        Err(const_hex::FromHexError::InvalidStringLength) => Err(HexError::InvalidStringLength),
    }
}

} // verus!
