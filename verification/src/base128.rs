//! Base-128 text for bytes.
//!
//! The bits of the bytes, highest bit first, are cut into digits of seven
//! bits; the last digit is padded with zero bits. Each digit is one
//! character of the text, so the text is ASCII. No bytes at all are written
//! as the single digit zero.

use vstd::prelude::*;
use vstd::utf8::*;
use vstd::string::*;
use crate::codec::parse_text;

verus! {

/// Why a text is not the base-128 form of any bytes.
#[derive(Debug, Clone, Copy, PartialEq, Eq, Structural)]
pub enum DecodeError {
    EmptyInput,
    InvalidDigit(u8),
    Overflow,
    NonZeroPadding,
}

/// Two to the power of `k`.
pub open spec fn pow2(k: nat) -> nat
    decreases k,
{
    if k == 0 {
        1
    } else {
        2 * pow2((k - 1) as nat)
    }
}

/// The number that digits of the base `base` stand for, highest digit
/// first.
pub open spec fn be_value(s: Seq<u8>, base: nat) -> nat
    decreases s.len(),
{
    if s.len() == 0 {
        0
    } else {
        be_value(s.drop_last(), base) * base + s.last() as nat
    }
}

/// The `len` lowest digits of a number in the base `base`, highest digit
/// first.
pub open spec fn be_seq(v: nat, len: nat, base: nat) -> Seq<u8>
    decreases len,
{
    if len == 0 {
        Seq::empty()
    } else {
        be_seq(v / base, (len - 1) as nat, base).push((v % base) as u8)
    }
}

/// Whether every digit is below the base.
pub open spec fn digits_below(s: Seq<u8>, base: nat) -> bool {
    forall|i: int| 0 <= i < s.len() ==> (#[trigger] s[i] as nat) < base
}

/// How many digits the base-128 form of `n` bytes has.
pub open spec fn spec_digit_count(n: nat) -> nat {
    if n == 0 {
        1
    } else {
        (8 * n + 6) / 7
    }
}

/// The digits of the base-128 form of bytes.
pub open spec fn spec_encode_bytes(bytes: Seq<u8>) -> Seq<u8> {
    if bytes.len() == 0 {
        seq![0u8]
    } else {
        let m = spec_digit_count(bytes.len());
        let pad = (7 * m - 8 * bytes.len()) as nat;
        be_seq(be_value(bytes, 256) * pow2(pad), m, 128)
    }
}

/// The text whose characters are the given ASCII digits.
pub open spec fn ascii_text(digits: Seq<u8>) -> Seq<char> {
    Seq::new(digits.len(), |i: int| digits[i] as char)
}

/// The place of the first digit above 127, or the number of digits where
/// there is none.
pub open spec fn first_invalid(digits: Seq<u8>) -> int
    decreases digits.len(),
{
    if digits.len() == 0 {
        0
    } else if digits[0] > 0x7f {
        0
    } else {
        1 + first_invalid(digits.drop_first())
    }
}

/// The bytes whose base-128 form the digits are, or why there are none.
pub open spec fn spec_decode_bytes(digits: Seq<u8>) -> Result<Seq<u8>, DecodeError> {
    let m = digits.len();
    if m == 0 {
        Err(DecodeError::EmptyInput)
    } else if first_invalid(digits) < m {
        Err(DecodeError::InvalidDigit(digits[first_invalid(digits)]))
    } else {
        let pad = (7 * m) % 8;
        let n = (7 * m) / 8;
        if be_value(digits, 128) % pow2(pad) != 0 {
            Err(DecodeError::NonZeroPadding)
        } else {
            Ok(be_seq(be_value(digits, 128) / pow2(pad), n, 256))
        }
    }
}

/// Appending a digit multiplies the number by the base and adds the digit.
pub proof fn lemma_be_value_push(s: Seq<u8>, d: u8, base: nat)
    ensures
        be_value(s.push(d), base) == be_value(s, base) * base + d as nat,
{
    assert(s.push(d).drop_last() == s);
}

/// Digits below the base stand for a number below the base to the power of
/// their count, and they come back from that number.
pub proof fn lemma_be_seq_of_value(s: Seq<u8>, base: nat)
    requires
        0 < base <= 256,
        digits_below(s, base),
    ensures
        be_seq(be_value(s, base), s.len(), base) == s,
    decreases s.len(),
{
    if s.len() > 0 {
        let front = s.drop_last();
        assert forall|i: int| 0 <= i < front.len() implies (#[trigger] front[i] as nat) < base by {
            assert(front[i] == s[i]);
        }
        lemma_be_seq_of_value(front, base);
        let v = be_value(s, base);
        let hi = be_value(front, base);
        let lo = s.last() as nat;
        assert(lo < base);
        assert((hi * base + lo) / base == hi && (hi * base + lo) % base == lo)
            by (nonlinear_arith)
            requires
                lo < base,
                base > 0,
        ;
        assert(be_seq(v, s.len(), base) =~= s);
    }
}

/// The digits of a number have the count that was asked for and are below
/// the base.
pub proof fn lemma_be_seq_shape(v: nat, len: nat, base: nat)
    requires
        0 < base <= 256,
    ensures
        be_seq(v, len, base).len() == len,
        digits_below(be_seq(v, len, base), base),
    decreases len,
{
    if len > 0 {
        lemma_be_seq_shape(v / base, (len - 1) as nat, base);
        assert(v % base < base) by (nonlinear_arith)
            requires
                base > 0,
        ;
        let s = be_seq(v, len, base);
        assert forall|i: int| 0 <= i < s.len() implies (#[trigger] s[i] as nat) < base by {
            if i < len - 1 {
                assert(s[i] == be_seq(v / base, (len - 1) as nat, base)[i]);
            }
        }
    }
}

/// The base to the power of `len`.
pub open spec fn power(base: nat, len: nat) -> nat
    decreases len,
{
    if len == 0 {
        1
    } else {
        base * power(base, (len - 1) as nat)
    }
}

/// A number below the base to the power of `len` comes back from its `len`
/// digits.
pub proof fn lemma_be_value_of_seq(v: nat, len: nat, base: nat)
    requires
        0 < base <= 256,
        v < power(base, len),
    ensures
        be_value(be_seq(v, len, base), base) == v,
    decreases len,
{
    if len > 0 {
        let rest = (len - 1) as nat;
        assert(v / base < power(base, rest)) by (nonlinear_arith)
            requires
                v < base * power(base, rest),
                base > 0,
        ;
        lemma_be_value_of_seq(v / base, rest, base);
        lemma_be_value_push(be_seq(v / base, rest, base), (v % base) as u8, base);
        assert(v % base < base) by (nonlinear_arith)
            requires
                base > 0,
        ;
        assert(v == (v / base) * base + v % base) by (nonlinear_arith)
            requires
                base > 0,
        ;
    }
}

/// Digits below the base stand for a number below the base to the power of
/// their count.
pub proof fn lemma_be_value_bound(s: Seq<u8>, base: nat)
    requires
        0 < base <= 256,
        digits_below(s, base),
    ensures
        be_value(s, base) < power(base, s.len()),
    decreases s.len(),
{
    if s.len() > 0 {
        let front = s.drop_last();
        assert forall|i: int| 0 <= i < front.len() implies (#[trigger] front[i] as nat) < base by {
            assert(front[i] == s[i]);
        }
        lemma_be_value_bound(front, base);
        let hi = be_value(front, base);
        let lo = s.last() as nat;
        let p = power(base, front.len());
        assert(lo < base);
        assert(hi * base + lo < base * p) by (nonlinear_arith)
            requires
                hi < p,
                lo < base,
        ;
    }
}

/// The small powers of two.
pub proof fn lemma_pow2_values()
    ensures
        pow2(0) == 1,
        pow2(1) == 2,
        pow2(2) == 4,
        pow2(3) == 8,
        pow2(4) == 16,
        pow2(5) == 32,
        pow2(6) == 64,
        pow2(7) == 128,
        pow2(8) == 256,
        pow2(9) == 512,
        pow2(10) == 1024,
        pow2(11) == 2048,
        pow2(12) == 4096,
        pow2(13) == 8192,
        pow2(14) == 16384,
{
    reveal_with_fuel(pow2, 16);
}

/// Shifting one to the left by a small amount gives a power of two.
pub proof fn lemma_shl_pow2(k: u32)
    requires
        k <= 14,
    ensures
        (1u32 << k) == pow2(k as nat),
{
    lemma_pow2_values();
    assert((1u32 << 0u32) == 1 && (1u32 << 1u32) == 2 && (1u32 << 2u32) == 4 && (1u32 << 3u32) == 8
        && (1u32 << 4u32) == 16 && (1u32 << 5u32) == 32 && (1u32 << 6u32) == 64 && (1u32 << 7u32)
        == 128 && (1u32 << 8u32) == 256 && (1u32 << 9u32) == 512 && (1u32 << 10u32) == 1024 && (
    1u32 << 11u32) == 2048 && (1u32 << 12u32) == 4096 && (1u32 << 13u32) == 8192 && (1u32 << 14u32)
        == 16384) by (bit_vector);
}

/// Taking the digit above the `k` lowest bits out of a buffer: the digit is
/// the quotient, and what stays is the remainder.
pub proof fn lemma_split(buf: u32, k: u32, width: u32)
    requires
        k <= 7,
        width == 7 || width == 8,
        k + width <= 14,
        buf < pow2((k + width) as nat),
    ensures
        (1u32 << k) == pow2(k as nat),
        (1u32 << k) >= 1,
        width == 7 ==> ((buf >> k) & 0x7f) as nat == buf as nat / pow2(k as nat),
        width == 8 ==> ((buf >> k) & 0xff) as nat == buf as nat / pow2(k as nat),
        k > 0 ==> (buf & (((1u32 << k) - 1) as u32)) as nat == buf as nat % pow2(k as nat),
        k == 0 ==> buf as nat % pow2(k as nat) == 0,
        (buf as nat / pow2(k as nat)) < pow2(width as nat),
        (buf as nat % pow2(k as nat)) < pow2(k as nat),
{
    lemma_pow2_values();
    lemma_shl_pow2(k);
    lemma_shl_pow2((k + width) as u32);
    let p = 1u32 << k;
    assert(p == pow2(k as nat));
    if width == 7 {
        assert(((buf >> k) & 0x7f) == buf / (1u32 << k)) by (bit_vector)
            requires
                k <= 7,
                buf < (1u32 << ((k + 7) as u32)),
        ;
    } else {
        assert(((buf >> k) & 0xff) == buf / (1u32 << k)) by (bit_vector)
            requires
                k <= 7,
                buf < (1u32 << ((k + 8) as u32)),
        ;
    }
    assert(k > 0 ==> (buf & (((1u32 << k) - 1) as u32)) == buf % (1u32 << k)) by (bit_vector)
        requires
            k <= 7,
    ;
    assert((buf as nat / p as nat) < pow2(width as nat)) by (nonlinear_arith)
        requires
            buf < pow2((k + width) as nat),
            pow2((k + width) as nat) == p * pow2(width as nat),
            p > 0,
    ;
    assert((buf as nat % p as nat) < p) by (nonlinear_arith)
        requires
            p > 0,
    ;
}

/// Powers of two add their exponents.
pub proof fn lemma_pow2_add(a: nat, b: nat)
    ensures
        pow2(a + b) == pow2(a) * pow2(b),
    decreases a,
{
    if a > 0 {
        lemma_pow2_add((a - 1) as nat, b);
        assert(pow2(a + b) == 2 * pow2((a - 1) as nat + b));
        assert(2 * (pow2((a - 1) as nat) * pow2(b)) == (2 * pow2((a - 1) as nat)) * pow2(b))
            by (nonlinear_arith);
    } else {
        assert(pow2(0) == 1);
        assert(1 * pow2(b) == pow2(b));
    }
}

/// ASCII digits are valid UTF-8 and spell the text of their characters.
pub proof fn lemma_ascii_text(digits: Seq<u8>)
    requires
        digits_below(digits, 128),
    ensures
        valid_utf8(digits),
        decode_utf8(digits) == ascii_text(digits),
        encode_utf8(ascii_text(digits)) == digits,
{
    let chars = ascii_text(digits);
    assert(is_ascii_chars(chars)) by {
        assert forall|i: int| 0 <= i < chars.len() implies '\0' <= #[trigger] chars[i]
            <= '\u{7f}' by {
            assert((digits[i] as nat) < 128);
        }
    }
    is_ascii_chars_encode_utf8(chars);
    assert(encode_utf8(chars) =~= digits) by {
        assert forall|i: int| 0 <= i < digits.len() implies encode_utf8(chars)[i] == digits[i] by {
            assert((digits[i] as nat) < 128);
            assert(chars[i] as u8 == digits[i]);
        }
    }
    encode_utf8_valid_utf8(chars);
    encode_utf8_decode_utf8(chars);
}

/// The base-128 form of `bytes`, as a vector of digits.
pub fn encode_digits(bytes: &[u8]) -> (r: Vec<u8>)
    ensures
        r@ == spec_encode_bytes(bytes@),
        digits_below(r@, 128),
{
    if bytes.len() == 0 {
        let mut zero: Vec<u8> = Vec::new();
        zero.push(0);
        assert(zero@ =~= seq![0u8]);
        return zero;
    }
    let mut result: Vec<u8> = Vec::new();
    let mut bit_buffer: u32 = 0;
    let mut bits_in_buffer: u32 = 0;
    let mut i: usize = 0;
    proof {
        lemma_pow2_values();
    }
    while i < bytes.len()
        invariant
            i <= bytes@.len(),
            bits_in_buffer < 7,
            bit_buffer < pow2(bits_in_buffer as nat),
            digits_below(result@, 128),
            result@.len() * 7 + bits_in_buffer == 8 * i,
            be_value(result@, 128) * pow2(bits_in_buffer as nat) + bit_buffer == be_value(
                bytes@.take(i as int),
                256,
            ),
        decreases bytes@.len() - i,
    {
        let byte = bytes[i];
        proof {
            lemma_pow2_values();
            assert(bit_buffer < 64);
            assert(((bit_buffer << 8u32) | (byte as u32)) == bit_buffer * 256 + (byte as u32))
                by (bit_vector)
                requires
                    bit_buffer < 64,
            ;
            assert(bytes@.take(i + 1) == bytes@.take(i as int).push(byte));
            lemma_be_value_push(bytes@.take(i as int), byte, 256);
            lemma_pow2_add(bits_in_buffer as nat, 8);
            assert((be_value(result@, 128) * pow2(bits_in_buffer as nat) + bit_buffer) * 256
                == be_value(result@, 128) * (pow2(bits_in_buffer as nat) * 256) + bit_buffer * 256)
                by (nonlinear_arith);
            assert(bit_buffer * 256 + byte < pow2(bits_in_buffer as nat) * 256) by (nonlinear_arith)
                requires
                    bit_buffer < pow2(bits_in_buffer as nat),
                    byte < 256,
            ;
        }
        bit_buffer = (bit_buffer << 8) | (byte as u32);
        bits_in_buffer += 8;
        while bits_in_buffer >= 7
            invariant
                i < bytes@.len(),
                    bits_in_buffer < 15,
                bit_buffer < pow2(bits_in_buffer as nat),
                digits_below(result@, 128),
                result@.len() * 7 + bits_in_buffer == 8 * (i + 1),
                be_value(result@, 128) * pow2(bits_in_buffer as nat) + bit_buffer == be_value(
                    bytes@.take(i + 1),
                    256,
                ),
            decreases bits_in_buffer,
        {
            bits_in_buffer -= 7;
            proof {
                lemma_split(bit_buffer, bits_in_buffer, 7);
                lemma_pow2_values();
                lemma_pow2_add(bits_in_buffer as nat, 7);
            }
            let digit = ((bit_buffer >> bits_in_buffer) & 0x7F) as u8;
            let ghost old_buffer = bit_buffer;
            let ghost old_result = result@;
            result.push(digit);
            if bits_in_buffer == 0 {
                bit_buffer = 0;
            } else {
                bit_buffer &= (1u32 << bits_in_buffer) - 1;
            }
            proof {
                lemma_be_value_push(old_result, digit, 128);
                let p = pow2(bits_in_buffer as nat);
                let v = be_value(old_result, 128);
                assert(old_buffer as nat == (old_buffer as nat / p) * p + old_buffer as nat % p)
                    by (nonlinear_arith)
                    requires
                        p > 0,
                ;
                assert((v * 128 + old_buffer as nat / p) * p + old_buffer as nat % p == v * (p
                    * 128) + ((old_buffer as nat / p) * p + old_buffer as nat % p))
                    by (nonlinear_arith);
                assert(pow2((bits_in_buffer + 7) as nat) == p * 128);
            }
        }
        i += 1;
    }
    proof {
        assert(bytes@.take(i as int) == bytes@);
    }
    if bits_in_buffer > 0 {
        proof {
            lemma_pow2_values();
            lemma_shl_pow2((7 - bits_in_buffer) as u32);
            assert(bit_buffer < 64);
            assert((bit_buffer << ((7 - bits_in_buffer) as u32)) == bit_buffer * (1u32 << ((7
                - bits_in_buffer) as u32))) by (bit_vector)
                requires
                    bit_buffer < 64,
                    0 < bits_in_buffer < 7,
            ;
            lemma_pow2_add(bits_in_buffer as nat, (7 - bits_in_buffer) as nat);
            assert(bit_buffer * pow2((7 - bits_in_buffer) as nat) < 128) by (nonlinear_arith)
                requires
                    bit_buffer < pow2(bits_in_buffer as nat),
                    pow2(bits_in_buffer as nat) * pow2((7 - bits_in_buffer) as nat) == 128,
                    pow2((7 - bits_in_buffer) as nat) > 0,
            ;
        }
        let shifted: u32 = bit_buffer << (7 - bits_in_buffer);
        let digit = (shifted as u8) & 0x7F;
        proof {
            assert(shifted < 128);
            let narrow = shifted as u8;
            assert(narrow & 0x7f == narrow) by (bit_vector)
                requires
                    narrow < 128,
            ;
            let v = be_value(result@, 128);
            let p = pow2(bits_in_buffer as nat);
            let q = pow2((7 - bits_in_buffer) as nat);
            lemma_be_value_push(result@, digit, 128);
            assert(p * q == 128);
            assert(digit as nat == bit_buffer as nat * q);
            assert(v * 128 + bit_buffer as nat * q == (v * p + bit_buffer as nat) * q)
                by (nonlinear_arith)
                requires
                    p * q == 128,
            ;
            assert(be_value(result@.push(digit), 128) == be_value(bytes@, 256) * q);
        }
        result.push(digit);
        assert(be_value(result@, 128) == be_value(bytes@, 256) * pow2(
            (7 - bits_in_buffer) as nat,
        ));
    } else {
        assert(be_value(result@, 128) * 1 + 0 == be_value(bytes@, 256));
    }
    proof {
        let n = bytes@.len();
        let m = spec_digit_count(n);
        assert(result@.len() == m);
        let pad = (7 * m - 8 * n) as nat;
        assert(pad == (if bits_in_buffer > 0 {
            7 - bits_in_buffer
        } else {
            0
        }));
        assert(be_value(result@, 128) == be_value(bytes@, 256) * pow2(pad));
        lemma_be_seq_of_value(result@, 128);
    }
    result
}

/// The base-128 form of `bytes`.
pub fn encode_bytes(bytes: &[u8]) -> (r: String)
    ensures
        r@ == ascii_text(spec_encode_bytes(bytes@)),
        encode_utf8(r@) == spec_encode_bytes(bytes@),
{
    let digits = encode_digits(bytes);
    proof {
        lemma_ascii_text(digits@);
    }
    match parse_text(digits.as_slice()) {
        Some(text) => text,
        None => String::new(),
    }
}

/// The first `i` digits hold no digit above 127 exactly when the first
/// invalid digit comes at `i` or later.
pub proof fn lemma_first_invalid(digits: Seq<u8>, i: int)
    requires
        0 <= i <= digits.len(),
        forall|j: int| 0 <= j < i ==> digits[j] <= 0x7f,
    ensures
        first_invalid(digits) >= i,
        i < digits.len() && digits[i] > 0x7f ==> first_invalid(digits) == i,
        first_invalid(digits) <= digits.len(),
    decreases digits.len(),
{
    if digits.len() > 0 {
        let rest = digits.drop_first();
        if i > 0 {
            assert forall|j: int| 0 <= j < i - 1 implies rest[j] <= 0x7f by {
                assert(rest[j] == digits[j + 1]);
            }
            lemma_first_invalid(rest, i - 1);
            if i < digits.len() {
                assert(rest[i - 1] == digits[i]);
            }
        } else {
            lemma_first_invalid(rest, 0);
        }
    }
}

/// The bytes whose base-128 form `digits` is.
pub fn decode_bytes(digits: &str) -> (r: Result<Vec<u8>, DecodeError>)
    ensures
        match spec_decode_bytes(encode_utf8(digits@)) {
            Ok(bytes) => r is Ok && r.unwrap()@ == bytes,
            Err(e) => r == Err::<Vec<u8>, DecodeError>(e),
        },
{
    let raw = digits.as_bytes();
    if raw.len() == 0 {
        return Err(DecodeError::EmptyInput);
    }
    let mut bytes: Vec<u8> = Vec::new();
    let mut bit_buffer: u32 = 0;
    let mut bits_in_buffer: u32 = 0;
    let mut i: usize = 0;
    proof {
        lemma_pow2_values();
    }
    while i < raw.len()
        invariant
            i <= raw@.len(),
            raw@ == encode_utf8(digits@),
            forall|j: int| 0 <= j < i ==> raw@[j] <= 0x7f,
            bits_in_buffer < 8,
            bit_buffer < pow2(bits_in_buffer as nat),
            digits_below(bytes@, 256),
            bytes@.len() * 8 + bits_in_buffer == 7 * i,
            be_value(bytes@, 256) * pow2(bits_in_buffer as nat) + bit_buffer == be_value(
                raw@.take(i as int),
                128,
            ),
        decreases raw@.len() - i,
    {
        let digit = raw[i];
        if digit > 0x7F {
            proof {
                lemma_first_invalid(raw@, i as int);
                assert(first_invalid(raw@) == i);
                assert(raw@[first_invalid(raw@)] == digit);
                assert(spec_decode_bytes(raw@) == Err::<Seq<u8>, DecodeError>(
                    DecodeError::InvalidDigit(digit),
                ));
            }
            return Err(DecodeError::InvalidDigit(digit));
        }
        proof {
            lemma_pow2_values();
            assert(bit_buffer < 128);
            assert(((bit_buffer << 7u32) | (digit as u32)) == bit_buffer * 128 + (digit as u32))
                by (bit_vector)
                requires
                    bit_buffer < 128,
                    digit <= 0x7f,
            ;
            assert(raw@.take(i + 1) == raw@.take(i as int).push(digit));
            lemma_be_value_push(raw@.take(i as int), digit, 128);
            lemma_pow2_add(bits_in_buffer as nat, 7);
            assert((be_value(bytes@, 256) * pow2(bits_in_buffer as nat) + bit_buffer) * 128
                == be_value(bytes@, 256) * (pow2(bits_in_buffer as nat) * 128) + bit_buffer * 128)
                by (nonlinear_arith);
            assert(bit_buffer * 128 + digit < pow2(bits_in_buffer as nat) * 128)
                by (nonlinear_arith)
                requires
                    bit_buffer < pow2(bits_in_buffer as nat),
                    digit < 128,
            ;
        }
        bit_buffer = (bit_buffer << 7) | (digit as u32);
        bits_in_buffer += 7;
        while bits_in_buffer >= 8
            invariant
                i < raw@.len(),
                    bits_in_buffer < 15,
                bit_buffer < pow2(bits_in_buffer as nat),
                digits_below(bytes@, 256),
                bytes@.len() * 8 + bits_in_buffer == 7 * (i + 1),
                be_value(bytes@, 256) * pow2(bits_in_buffer as nat) + bit_buffer == be_value(
                    raw@.take(i + 1),
                    128,
                ),
            decreases bits_in_buffer,
        {
            bits_in_buffer -= 8;
            proof {
                lemma_split(bit_buffer, bits_in_buffer, 8);
                lemma_pow2_values();
                lemma_pow2_add(bits_in_buffer as nat, 8);
            }
            let byte = ((bit_buffer >> bits_in_buffer) & 0xFF) as u8;
            let ghost old_buffer = bit_buffer;
            let ghost old_bytes = bytes@;
            bytes.push(byte);
            if bits_in_buffer == 0 {
                bit_buffer = 0;
            } else {
                bit_buffer &= (1u32 << bits_in_buffer) - 1;
            }
            proof {
                lemma_be_value_push(old_bytes, byte, 256);
                let p = pow2(bits_in_buffer as nat);
                let v = be_value(old_bytes, 256);
                assert(old_buffer as nat == (old_buffer as nat / p) * p + old_buffer as nat % p)
                    by (nonlinear_arith)
                    requires
                        p > 0,
                ;
                assert((v * 256 + old_buffer as nat / p) * p + old_buffer as nat % p == v * (p
                    * 256) + ((old_buffer as nat / p) * p + old_buffer as nat % p))
                    by (nonlinear_arith);
                assert(pow2((bits_in_buffer + 8) as nat) == p * 256);
            }
        }
        i += 1;
    }
    proof {
        assert(raw@.take(i as int) == raw@);
        lemma_first_invalid(raw@, i as int);
        lemma_pow2_values();
        let p = pow2(bits_in_buffer as nat);
        let v = be_value(bytes@, 256);
        let b = bit_buffer as nat;
        assert((v * p + b) % p == b % p && (b == 0 ==> (v * p + b) / p == v))
            by (nonlinear_arith)
            requires
                p > 0,
                b < p,
        ;
        assert(b % p == b) by (nonlinear_arith)
            requires
                b < p,
        ;
        lemma_be_seq_of_value(bytes@, 256);
    }
    if bits_in_buffer > 0 {
        proof {
            lemma_shl_pow2(bits_in_buffer);
        }
        let mask: u32 = (1u32 << bits_in_buffer) - 1;
        proof {
            assert((bit_buffer & mask) == bit_buffer) by (bit_vector)
                requires
                    0 < bits_in_buffer < 8,
                    mask == ((1u32 << bits_in_buffer) - 1) as u32,
                    bit_buffer < (1u32 << bits_in_buffer),
            ;
        }
        if bit_buffer & mask != 0 {
            return Err(DecodeError::NonZeroPadding);
        }
    }
    Ok(bytes)
}

/// Bytes come back from their base-128 form.
pub proof fn lemma_round_trip(bytes: Seq<u8>)
    ensures
        spec_decode_bytes(spec_encode_bytes(bytes)) == Ok::<Seq<u8>, DecodeError>(bytes),
{
    lemma_pow2_values();
    let digits = spec_encode_bytes(bytes);
    let n = bytes.len();
    if n == 0 {
        assert(digits.len() == 1);
        lemma_first_invalid(digits, 1);
        assert(first_invalid(digits) == 1);
        assert(digits.drop_last() =~= Seq::<u8>::empty());
        assert(be_value(digits.drop_last(), 128) == 0);
        assert(be_value(digits, 128) == 0);
        assert((7 * 1) % 8 == 7 && (7 * 1) / 8 == 0);
        assert(0nat % pow2(7) == 0 && 0nat / pow2(7) == 0);
        assert(be_seq(0, 0, 256) =~= bytes);
    } else {
        let m = spec_digit_count(n);
        let pad = (7 * m - 8 * n) as nat;
        let v = be_value(bytes, 256);
        lemma_be_seq_shape(v * pow2(pad), m, 128);
        assert(digits.len() == m);
        assert forall|j: int| 0 <= j < digits.len() implies digits[j] <= 0x7f by {
            assert((digits[j] as nat) < 128);
        }
        lemma_first_invalid(digits, digits.len() as int);
        assert(first_invalid(digits) == m);
        assert(pad < 7);
        assert((7 * m) % 8 == pad && (7 * m) / 8 == n);
        lemma_power_256(bytes);
        lemma_scaled_bound(v, n, m, pad);
        lemma_be_value_of_seq(v * pow2(pad), m, 128);
        assert(be_value(digits, 128) == v * pow2(pad));
        lemma_pow2_positive(pad);
        assert((v * pow2(pad)) % pow2(pad) == 0 && (v * pow2(pad)) / pow2(pad) == v)
            by (nonlinear_arith)
            requires
                pow2(pad) > 0,
        ;
        assert(digits_below(bytes, 256)) by {
            assert forall|i: int| 0 <= i < bytes.len() implies (#[trigger] bytes[i] as nat)
                < 256 by {}
        }
        lemma_be_seq_of_value(bytes, 256);
        assert(be_seq(v, n, 256) == bytes);
    }
}

/// Bytes stand for a number below 256 to the power of their count.
pub proof fn lemma_power_256(bytes: Seq<u8>)
    ensures
        be_value(bytes, 256) < power(256, bytes.len()),
{
    assert(digits_below(bytes, 256)) by {
        assert forall|i: int| 0 <= i < bytes.len() implies (#[trigger] bytes[i] as nat) < 256 by {}
    }
    lemma_be_value_bound(bytes, 256);
}

/// A number of `n` bytes, shifted left by the padding, fits in the `m`
/// digits of its base-128 form.
pub proof fn lemma_scaled_bound(v: nat, n: nat, m: nat, pad: nat)
    requires
        v < power(256, n),
        7 * m == 8 * n + pad,
    ensures
        v * pow2(pad) < power(128, m),
{
    lemma_pow2_values();
    lemma_pow2_positive(pad);
    lemma_power_is_pow2(256, 8, n);
    lemma_power_is_pow2(128, 7, m);
    lemma_pow2_add(8 * n, pad);
    assert(8 * n + pad == 7 * m);
    assert(v * pow2(pad) < pow2(8 * n) * pow2(pad)) by (nonlinear_arith)
        requires
            v < pow2(8 * n),
            pow2(pad) > 0,
    ;
}

/// A power of a power of two is a power of two.
pub proof fn lemma_power_is_pow2(base: nat, bits: nat, len: nat)
    requires
        base == pow2(bits),
    ensures
        power(base, len) == pow2(bits * len),
        pow2(bits * len) > 0,
    decreases len,
{
    lemma_pow2_positive(bits);
    lemma_pow2_positive(bits * len);
    if len > 0 {
        lemma_power_is_pow2(base, bits, (len - 1) as nat);
        lemma_pow2_add(bits, bits * (len - 1) as nat);
        assert(bits + bits * (len - 1) as nat == bits * len) by (nonlinear_arith)
            requires
                len > 0,
        ;
        assert(pow2(bits) * pow2(bits * (len - 1) as nat) > 0) by (nonlinear_arith)
            requires
                pow2(bits) > 0,
                pow2(bits * (len - 1) as nat) > 0,
        ;
    } else {
        assert(bits * 0 == 0);
    }
}

/// Every power of two is positive.
pub proof fn lemma_pow2_positive(k: nat)
    ensures
        pow2(k) > 0,
    decreases k,
{
    if k > 0 {
        lemma_pow2_positive((k - 1) as nat);
    }
}

} // verus!
