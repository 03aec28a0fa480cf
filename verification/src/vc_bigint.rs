//! A signed integer of any size, written on the wire in hexadecimal.

use vstd::prelude::*;

use num_bigint::{BigInt, BigUint, Sign};
use num_traits::Num;

use crate::error::{BigIntParseFailure, DecodeError};

verus! {

/// The value of little-endian base-2^32 digits.
pub open spec fn limbs_value(l: Seq<u32>) -> nat
    decreases l.len(),
{
    if l.len() == 0 {
        0
    } else {
        (l[0] as nat) + 0x1_0000_0000nat * limbs_value(l.drop_first())
    }
}

/// Whether a sign and digits are in normal form: no zero most significant
/// digit, and zero is not negative.
pub open spec fn is_normal(negative: bool, magnitude: Seq<u32>) -> bool {
    &&& (magnitude.len() == 0 || magnitude.last() != 0)
    &&& (negative ==> magnitude.len() > 0)
}

/// The integer with the given sign and magnitude.
pub open spec fn signed_value(negative: bool, magnitude: nat) -> int {
    if negative {
        -magnitude
    } else {
        magnitude as int
    }
}

/// The value of a hex digit in either case (radix 16).
pub open spec fn hex_char_value(c: char) -> Option<nat> {
    if '0' <= c <= '9' {
        Some((c as nat - '0' as nat) as nat)
    } else if 'a' <= c <= 'f' {
        Some((c as nat - 'a' as nat + 10) as nat)
    } else if 'A' <= c <= 'F' {
        Some((c as nat - 'A' as nat + 10) as nat)
    } else {
        None
    }
}

/// The value of hex digits, most significant first, skipping underscores.
pub open spec fn digits_value(s: Seq<char>) -> nat
    decreases s.len(),
{
    if s.len() == 0 {
        0
    } else if s.last() == '_' {
        digits_value(s.drop_last())
    } else {
        digits_value(s.drop_last()) * 16 + hex_char_value(s.last()).unwrap()
    }
}

/// Whether every character is a hex digit or an underscore.
pub open spec fn hex_digits_or_underscores(s: Seq<char>) -> bool {
    forall|i: int| 0 <= i < s.len() ==> #[trigger] s[i] == '_' || hex_char_value(s[i]) is Some
}

/// The text without a leading `-`, unless a `+` follows that `-`.
pub open spec fn after_minus(s: Seq<char>) -> Seq<char> {
    if s.len() >= 1 && s[0] == '-' && !(s.len() >= 2 && s[1] == '+') {
        s.drop_first()
    } else {
        s
    }
}

/// The text without a leading `+`, unless another `+` follows it.
pub open spec fn after_plus(s: Seq<char>) -> Seq<char> {
    if s.len() >= 1 && s[0] == '+' && !(s.len() >= 2 && s[1] == '+') {
        s.drop_first()
    } else {
        s
    }
}

/// What `BigInt::from_str_radix(s, 16)` gives: a leading `-` makes the
/// number negative and is dropped (unless `+` follows it), then one `+` is
/// dropped (unless another follows); an empty rest is `Empty`; a rest that
/// starts with `_` or holds anything but hex digits and underscores is
/// `InvalidDigit`; else the digits, underscores skipped, are the magnitude.
pub open spec fn bigint_from_hex(s: Seq<char>) -> Result<int, BigIntParseFailure> {
    let negative = s.len() >= 1 && s[0] == '-';
    let body = after_plus(after_minus(s));
    if body.len() == 0 {
        Err(BigIntParseFailure::Empty)
    } else if body[0] == '_' || !hex_digits_or_underscores(body) {
        Err(BigIntParseFailure::InvalidDigit)
    } else {
        Ok(
            if negative {
                -digits_value(body)
            } else {
                digits_value(body) as int
            },
        )
    }
}

/// The lowercase hex digit of `n` (`0 <= n < 16`).
pub open spec fn lower_hex_char(n: nat) -> char {
    if n < 10 {
        ('0' as nat + n) as char
    } else {
        ('a' as nat + n - 10) as char
    }
}

/// The lowercase hex digits of `n`, most significant first, with no leading
/// zero (zero is `0`).
pub open spec fn nat_to_hex(n: nat) -> Seq<char>
    decreases n,
{
    if n < 16 {
        seq![lower_hex_char(n)]
    } else {
        nat_to_hex(n / 16) + seq![lower_hex_char(n % 16)]
    }
}

/// The sign that is written before a number.
pub open spec fn sign_text(v: int) -> Seq<char> {
    if v < 0 {
        seq!['-']
    } else {
        seq![]
    }
}

/// The wire form of an integer: its sign, `0x`, then its magnitude in
/// lowercase hex.
pub open spec fn bigint_wire_text(v: int) -> Seq<char> {
    sign_text(v) + seq!['0', 'x'] + nat_to_hex((if v < 0 {
        -v
    } else {
        v
    }) as nat)
}


/// Each lowercase digit reads back as its value.
proof fn lemma_lower_hex_char(n: nat)
    requires
        n < 16,
    ensures
        hex_char_value(lower_hex_char(n)) == Some(n),
        lower_hex_char(n) != '_' && lower_hex_char(n) != '+' && lower_hex_char(n) != '-',
{
}

/// The hex digits of `n` are digits only, and read back as `n`.
proof fn lemma_nat_to_hex(n: nat)
    ensures
        nat_to_hex(n).len() >= 1,
        hex_digits_or_underscores(nat_to_hex(n)),
        forall|i: int|
            0 <= i < nat_to_hex(n).len() ==> #[trigger] nat_to_hex(n)[i] != '_'
                && nat_to_hex(n)[i] != '+' && nat_to_hex(n)[i] != '-',
        digits_value(nat_to_hex(n)) == n,
    decreases n,
{
    if n < 16 {
        lemma_lower_hex_char(n);
        assert(nat_to_hex(n).drop_last().len() == 0);
        assert(digits_value(nat_to_hex(n).drop_last()) == 0);
        assert(nat_to_hex(n).last() == lower_hex_char(n));
    } else {
        lemma_nat_to_hex(n / 16);
        lemma_lower_hex_char(n % 16);
        let a = nat_to_hex(n / 16);
        let s = nat_to_hex(n);
        assert(s.drop_last() =~= a);
        assert(s.last() == lower_hex_char(n % 16));
        assert(digits_value(s) == digits_value(a) * 16 + n % 16);
        assert((n / 16) * 16 + n % 16 == n);
        assert forall|i: int| 0 <= i < s.len() implies #[trigger] s[i] != '_' && s[i] != '+'
            && s[i] != '-' && hex_char_value(s[i]) is Some by {
            if i < a.len() {
                assert(s[i] == a[i]);
            }
        }
    }
}

/// The sign and the hex digits that `serialize` writes after `0x` read back,
/// with `deserialize`, as the same integer.
pub proof fn lemma_bigint_wire_digits_read_back(v: int)
    ensures
        bigint_from_hex(
            sign_text(v) + nat_to_hex(
                (if v < 0 {
                    -v
                } else {
                    v
                }) as nat,
            ),
        ) == Ok::<int, BigIntParseFailure>(v),
{
    let n = (if v < 0 {
        -v
    } else {
        v
    }) as nat;
    let d = nat_to_hex(n);
    lemma_nat_to_hex(n);
    let t = sign_text(v) + d;
    if v < 0 {
        assert(t.drop_first() =~= d);
        assert(t[0] == '-');
        assert(t[1] == d[0]);
        assert(d[0] != '+');
        assert(after_minus(t) =~= d);
    } else {
        assert(t =~= d);
        assert(d[0] != '-' && d[0] != '+');
        assert(after_minus(t) =~= d);
    }
    assert(after_plus(d) =~= d);
}

/// Calls `BigInt::from_str_radix(s, 16)` and gives the result as its sign and
/// its digits from `to_u32_digits`, or the kind of its error; the source
/// strips a leading `-` (unless `+` follows) and a single `+`, refuses an
/// empty rest as empty and one that starts with `_` as an invalid digit,
/// skips other underscores and refuses any other non-digit as an invalid
/// digit. The digits come out with no zero most significant digit, and zero
/// has no sign. The two kinds of `ParseBigIntError` are told apart by their
/// display text, the only public view of the kind.
#[verifier::external_body]
fn bigint_parse_hex(s: &str) -> (r: Result<(bool, Vec<u32>), BigIntParseFailure>)
    ensures
        match r {
            Ok((negative, magnitude)) => bigint_from_hex(s@) == Ok::<int, BigIntParseFailure>(
                signed_value(negative, limbs_value(magnitude@)),
            ) && is_normal(negative, magnitude@),
            Err(k) => bigint_from_hex(s@) == Err::<int, BigIntParseFailure>(k),
        },
{
    match BigInt::from_str_radix(s, 16) {
        Ok(b) => match b.to_u32_digits() {
            (Sign::Minus, digits) => Ok((true, digits)),
            (_, digits) => Ok((false, digits)),
        },
        Err(e) => match e.to_string().as_str() {
            "cannot parse integer from empty string" => Err(BigIntParseFailure::Empty),
            _ => Err(BigIntParseFailure::InvalidDigit),
        },
    }
}

/// Formats `BigUint::from_slice(magnitude)` with `{:x}`: lowercase hex digits
/// with no leading zero and no prefix (`to_str_radix(16)`).
#[verifier::external_body]
fn biguint_lower_hex(magnitude: &[u32]) -> (r: String)
    ensures
        r@ == nat_to_hex(limbs_value(magnitude@)),
{
    format!("{:x}", BigUint::from_slice(magnitude))
}

/// A signed integer of any size, held as its sign and its base-2^32 digits,
/// least significant first.
#[derive(Debug)]
pub struct VcBigInt {
    negative: bool,
    magnitude: Vec<u32>,
}

/// Dropping a zero most significant digit keeps the value.
proof fn lemma_limbs_drop_zero_last(l: Seq<u32>)
    requires
        l.len() > 0,
        l.last() == 0,
    ensures
        limbs_value(l) == limbs_value(l.drop_last()),
    decreases l.len(),
{
    if l.len() > 1 {
        let t = l.drop_first();
        lemma_limbs_drop_zero_last(t);
        assert(l.drop_last().drop_first() =~= t.drop_last());
        assert(l.drop_last()[0] == l[0]);
    } else {
        assert(l.drop_first().len() == 0);
        assert(limbs_value(l.drop_first()) == 0);
        assert(l.drop_last().len() == 0);
    }
}

/// No digits, no value; a normal magnitude with digits is not zero.
proof fn lemma_limbs_zero(l: Seq<u32>)
    requires
        l.len() == 0 || l.last() != 0,
    ensures
        (limbs_value(l) == 0) == (l.len() == 0),
    decreases l.len(),
{
    if l.len() > 1 {
        lemma_limbs_zero(l.drop_first());
    }
}

impl VcBigInt {
    #[verifier::type_invariant]
    spec fn inv(self) -> bool {
        is_normal(self.negative, self.magnitude@)
    }

    /// The integer.
    pub closed spec fn value(&self) -> int {
        signed_value(self.negative, limbs_value(self.magnitude@))
    }

    /// The integer with the given sign and base-2^32 digits (least
    /// significant first); a negative zero is zero.
    pub fn new(negative: bool, magnitude: Vec<u32>) -> (r: VcBigInt)
        ensures
            r.value() == signed_value(negative, limbs_value(magnitude@)),
    {
        let mut m = magnitude;
        while m.len() > 0 && m[m.len() - 1] == 0
            invariant
                limbs_value(m@) == limbs_value(magnitude@),
            decreases m.len(),
        {
            proof {
                lemma_limbs_drop_zero_last(m@);
            }
            m.pop();
        }
        proof {
            lemma_limbs_zero(m@);
        }
        let neg = negative && m.len() > 0;
        VcBigInt { negative: neg, magnitude: m }
    }

    /// Whether the integer is below zero.
    pub fn is_negative(&self) -> (b: bool)
        ensures
            b == (self.value() < 0),
    {
        proof {
            use_type_invariant(self);
            lemma_limbs_zero(self.magnitude@);
        }
        self.negative
    }

    /// The base-2^32 digits of the absolute value, least significant first,
    /// with no zero most significant digit.
    pub fn magnitude(&self) -> (m: Vec<u32>)
        ensures
            limbs_value(m@) == if self.value() < 0 {
                -self.value()
            } else {
                self.value()
            },
            m@.len() == 0 || m@.last() != 0,
    {
        proof {
            use_type_invariant(self);
        }
        self.magnitude.clone()
    }

    /// What the wire format expects.
    pub fn expecting() -> (s: &'static str)
        ensures
            s@ == "a base64 encoded string"@,
    {
        "a base64 encoded string"
    }

    /// The wire form of the integer: its sign, `0x`, then lowercase hex.
    pub fn serialize(&self) -> (s: String)
        ensures
            s@ == bigint_wire_text(self.value()),
            s@.len() >= 3,
            (s@[0] == '-') == (self.value() < 0),
            self.value() < 0 ==> s@.take(3) == seq!['-', '0', 'x'] && bigint_from_hex(
                seq!['-'] + s@.skip(3),
            ) == Ok::<int, BigIntParseFailure>(self.value()),
            self.value() >= 0 ==> s@.take(2) == seq!['0', 'x'] && bigint_from_hex(s@.skip(2))
                == Ok::<int, BigIntParseFailure>(self.value()),
    {
        proof {
            use_type_invariant(self);
            lemma_limbs_zero(self.magnitude@);
        }
        let digits = biguint_lower_hex(self.magnitude.as_slice());
        let mut s = String::new();
        if self.negative {
            s.append("-");
        }
        s.append("0x");
        s.append(digits.as_str());
        proof {
            reveal_strlit("-");
            reveal_strlit("0x");
            assert(s@ =~= bigint_wire_text(self.value()));
            let v = self.value();
            let d = nat_to_hex(
                (if v < 0 {
                    -v
                } else {
                    v
                }) as nat,
            );
            lemma_nat_to_hex((if v < 0 {
                -v
            } else {
                v
            }) as nat);
            lemma_bigint_wire_digits_read_back(v);
            if v < 0 {
                assert(s@.take(3) =~= seq!['-', '0', 'x']);
                assert(s@.skip(3) =~= d);
                assert(seq!['-'] + s@.skip(3) =~= sign_text(v) + d);
            } else {
                assert(s@.take(2) =~= seq!['0', 'x']);
                assert(s@.skip(2) =~= d);
                assert(sign_text(v) + d =~= d);
            }
        }
        s
    }

    /// Reads an integer from hexadecimal text (an optional sign, then hex
    /// digits in either case, underscores allowed after the first digit).
    pub fn deserialize(value: &str) -> (r: Result<VcBigInt, DecodeError>)
        ensures
            match r {
                Ok(b) => bigint_from_hex(value@) == Ok::<int, BigIntParseFailure>(b.value()),
                Err(e) => bigint_from_hex(value@) matches Err(k) && e == DecodeError::Number(k),
            },
    {
        match bigint_parse_hex(value) {
            Ok((negative, magnitude)) => Ok(VcBigInt { negative, magnitude }),
            Err(k) => Err(DecodeError::Number(k)),
        }
    }
}

impl Clone for VcBigInt {
    /// The same integer.
    fn clone(&self) -> (b: VcBigInt)
        ensures
            b.value() == self.value(),
    {
        proof {
            use_type_invariant(self);
        }
        VcBigInt { negative: self.negative, magnitude: self.magnitude.clone() }
    }
}

impl Default for VcBigInt {
    /// Zero.
    fn default() -> (b: VcBigInt)
        ensures
            b.value() == 0,
    {
        VcBigInt { negative: false, magnitude: Vec::new() }
    }
}

} // verus!
