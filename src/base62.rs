use vstd::prelude::*;
use vstd::string::{is_ascii, is_ascii_spec_bytes, StringSliceAdditionalSpecFns};

use crate::text::ascii_string;

verus! {

/// Characters in the longest encoding of a `u64`.
pub const MAX_LEN: usize = 11;

/// Errors of `decode`.
#[derive(Debug, Clone, Copy, PartialEq, Eq, Structural)]
pub enum DecodeError {
    /// The input is empty.
    EmptyString,
    /// The input holds a byte outside `0-9A-Za-z`.
    InvalidCharacter(char),
    /// The value does not fit in a `u64`.
    Overflow,
}

/// The ASCII character of base-62 digit `d`: digits, then upper case, then lower case.
pub open spec fn digit_char(d: int) -> u8 {
    if d < 10 {
        (0x30 + d) as u8
    } else if d < 36 {
        (0x41 + d - 10) as u8
    } else {
        (0x61 + d - 36) as u8
    }
}

/// The digit an ASCII character stands for, if any.
pub open spec fn digit_value(c: u8) -> Option<int> {
    if 0x30 <= c <= 0x39 {
        Some(c - 0x30)
    } else if 0x41 <= c <= 0x5A {
        Some(c - 0x41 + 10)
    } else if 0x61 <= c <= 0x7A {
        Some(c - 0x61 + 36)
    } else {
        None
    }
}

/// The base-62 digits of `n`, most significant first, without leading zeros
/// (`0` is the single digit `0`).
pub open spec fn encode_spec(n: nat) -> Seq<u8>
    decreases n,
{
    if n < 62 {
        seq![digit_char(n as int)]
    } else {
        encode_spec(n / 62).push(digit_char((n % 62) as int))
    }
}

/// Reads the first `k` bytes of `b` as base-62 digits, left to right: the
/// first byte outside the alphabet is an error, and so is a running value
/// that leaves the range of `u64`, whichever comes first.
pub open spec fn decode_prefix(b: Seq<u8>, k: nat) -> Result<u64, DecodeError>
    decreases k,
{
    if k == 0 {
        Ok(0u64)
    } else {
        match decode_prefix(b, (k - 1) as nat) {
            Err(e) => Err(e),
            Ok(v) => match digit_value(b[k - 1]) {
                None => Err(DecodeError::InvalidCharacter(b[k - 1] as char)),
                Some(d) => if v * 62 + d > u64::MAX {
                    Err(DecodeError::Overflow)
                } else {
                    Ok((v * 62 + d) as u64)
                },
            },
        }
    }
}

/// What `decode` returns for the bytes `b`.
pub open spec fn decode_spec(b: Seq<u8>) -> Result<u64, DecodeError> {
    if b.len() == 0 {
        Err(DecodeError::EmptyString)
    } else {
        decode_prefix(b, b.len())
    }
}

fn digit_to_char(d: u64) -> (r: u8)
    requires
        d < 62,
    ensures
        r == digit_char(d as int),
        digit_value(r) == Some(d as int),
{
    if d < 10 {
        0x30 + d as u8
    } else if d < 36 {
        0x41 + (d - 10) as u8
    } else {
        0x61 + (d - 36) as u8
    }
}

fn char_to_digit(c: u8) -> (r: Option<u64>)
    ensures
        r matches Some(d) ==> digit_value(c) == Some(d as int),
        r is None ==> digit_value(c) is None,
{
    if 0x30 <= c && c <= 0x39 {
        Some((c - 0x30) as u64)
    } else if 0x41 <= c && c <= 0x5A {
        Some((c - 0x41 + 10) as u64)
    } else if 0x61 <= c && c <= 0x7A {
        Some((c - 0x61 + 36) as u64)
    } else {
        None
    }
}

/// Appends the digits of `n` to `out`.
fn push_digits(n: u64, out: &mut Vec<u8>)
    ensures
        final(out)@ == old(out)@ + encode_spec(n as nat),
    decreases n,
{
    if n >= 62 {
        push_digits(n / 62, out);
    }
    out.push(digit_to_char(n % 62));
    proof {
        assert(final(out)@ =~= old(out)@ + encode_spec(n as nat));
    }
}

/// `62` to the power `k`.
pub open spec fn pow62(k: nat) -> nat
    decreases k,
{
    if k == 0 {
        1
    } else {
        62 * pow62((k - 1) as nat)
    }
}

/// A value below `62^k` takes at most `k` digits.
proof fn lemma_encode_len(n: nat, k: nat)
    requires
        k >= 1,
        n < pow62(k),
    ensures
        encode_spec(n).len() <= k,
    decreases n,
{
    if n >= 62 {
        let p = pow62((k - 1) as nat);
        if k == 1 {
            assert(pow62(0) == 1);
        }
        assert(k >= 2);
        assert(n / 62 < p) by (nonlinear_arith)
            requires
                n < 62 * p,
        ;
        lemma_encode_len(n / 62, (k - 1) as nat);
    }
}

/// The encoding of a `u64` has at most `MAX_LEN` characters.
pub proof fn lemma_encode_max_len(n: u64)
    ensures
        encode_spec(n as nat).len() <= MAX_LEN,
{
    reveal_with_fuel(pow62, 12);
    assert(pow62(11) == 52036560683837093888nat);
    lemma_encode_len(n as nat, 11);
}

/// Every digit character is ASCII.
pub proof fn lemma_encode_ascii(n: nat)
    ensures
        forall|i: int| 0 <= i < encode_spec(n).len() ==> #[trigger] encode_spec(n)[i] < 128,
        forall|i: int|
            0 <= i < encode_spec(n).len() ==> #[trigger] digit_value(encode_spec(n)[i]) is Some,
    decreases n,
{
    if n >= 62 {
        lemma_encode_ascii(n / 62);
    }
}

/// The base-62 text of `id`: digits `0-9A-Za-z`, most significant first.
pub fn encode(id: u64) -> (r: String)
    ensures
        r@ == encode_spec(id as nat).map_values(|b: u8| b as char),
        1 <= r@.len() <= MAX_LEN,
{
    let mut out: Vec<u8> = Vec::new();
    push_digits(id, &mut out);
    proof {
        assert(out@ =~= encode_spec(id as nat));
        lemma_encode_ascii(id as nat);
        lemma_encode_max_len(id);
        lemma_decode_encode_prefix(id as nat);
    }
    ascii_string(out)
}

/// The base-62 digits of `id` at the start of a fixed buffer, with their number.
pub fn encode_array(id: u64) -> (r: ([u8; MAX_LEN], usize))
    ensures
        r.1 == encode_spec(id as nat).len(),
        1 <= r.1 <= MAX_LEN,
        r.0@.subrange(0, r.1 as int) == encode_spec(id as nat),
{
    let mut out: Vec<u8> = Vec::new();
    push_digits(id, &mut out);
    proof {
        assert(out@ =~= encode_spec(id as nat));
        lemma_encode_max_len(id);
        lemma_decode_encode_prefix(id as nat);
    }
    let mut buf: [u8; MAX_LEN] = [0u8; MAX_LEN];
    let len = out.len();
    let mut i: usize = 0;
    while i < len
        invariant
            len == out@.len(),
            len <= MAX_LEN,
            i <= len,
            buf@.len() == MAX_LEN,
            forall|j: int| 0 <= j < i ==> buf@[j] == out@[j],
        decreases len - i,
    {
        buf[i] = out[i];
        i = i + 1;
    }
    proof {
        assert(buf@.subrange(0, len as int) =~= out@);
    }
    (buf, len)
}

/// The `u64` that base-62 text stands for.
pub fn decode(encoded: &str) -> (r: Result<u64, DecodeError>)
    ensures
        r == decode_spec(encoded.spec_bytes()),
{
    let bytes = encoded.as_bytes();
    if bytes.len() == 0 {
        return Err(DecodeError::EmptyString);
    }
    let mut result: u64 = 0;
    let mut i: usize = 0;
    while i < bytes.len()
        invariant
            bytes@ == encoded.spec_bytes(),
            0 <= i <= bytes@.len(),
            decode_prefix(bytes@, i as nat) == Ok::<u64, DecodeError>(result),
        decreases bytes@.len() - i,
    {
        let c = bytes[i];
        let d = match char_to_digit(c) {
            Some(d) => d,
            None => {
                proof {
                    assert(decode_prefix(bytes@, (i + 1) as nat) == Err::<u64, DecodeError>(
                        DecodeError::InvalidCharacter(c as char),
                    ));
                    lemma_decode_error_sticks(bytes@, (i + 1) as nat, bytes@.len());
                }
                return Err(DecodeError::InvalidCharacter(c as char));
            },
        };
        let next: u128 = result as u128 * 62 + d as u128;
        if next > u64::MAX as u128 {
            proof {
                lemma_decode_error_sticks(bytes@, (i + 1) as nat, bytes@.len());
            }
            return Err(DecodeError::Overflow);
        }
        result = next as u64;
        i = i + 1;
    }
    Ok(result)
}

/// Once reading a prefix fails, reading any longer prefix fails the same way.
proof fn lemma_decode_error_sticks(b: Seq<u8>, k: nat, m: nat)
    requires
        k <= m,
        decode_prefix(b, k) is Err,
    ensures
        decode_prefix(b, m) == decode_prefix(b, k),
    decreases m - k,
{
    if k < m {
        lemma_decode_error_sticks(b, k, (m - 1) as nat);
    }
}

/// Reading a prefix does not look past it.
proof fn lemma_decode_prefix_extend(b: Seq<u8>, x: u8, k: nat)
    requires
        k <= b.len(),
    ensures
        decode_prefix(b.push(x), k) == decode_prefix(b, k),
    decreases k,
{
    if k > 0 {
        lemma_decode_prefix_extend(b, x, (k - 1) as nat);
        assert(b.push(x)[k - 1] == b[k - 1]);
    }
}

/// Whatever `u64` is encoded, decoding the text gives it back.
pub proof fn lemma_round_trip(n: u64, text: &str)
    requires
        text@ == encode_spec(n as nat).map_values(|b: u8| b as char),
    ensures
        decode_spec(text.spec_bytes()) == Ok::<u64, DecodeError>(n),
{
    let digits = encode_spec(n as nat);
    lemma_encode_ascii(n as nat);
    assert(is_ascii(text)) by {
        assert forall|i: int| 0 <= i < text@.len() implies '\0' <= #[trigger] text@[i] <= '\u{7f}' by {
            assert(text@[i] == digits[i] as char);
        }
    }
    is_ascii_spec_bytes(text);
    assert(text.spec_bytes() =~= digits);
    lemma_decode_encode(n);
}

/// Decoding the digits of any `u64` gives it back.
pub proof fn lemma_decode_encode(n: u64)
    ensures
        decode_spec(encode_spec(n as nat)) == Ok::<u64, DecodeError>(n),
{
    lemma_decode_encode_prefix(n as nat);
}

proof fn lemma_decode_encode_prefix(n: nat)
    requires
        n <= u64::MAX,
    ensures
        decode_prefix(encode_spec(n), encode_spec(n).len()) == Ok::<u64, DecodeError>(n as u64),
        encode_spec(n).len() > 0,
    decreases n,
{
    let s = encode_spec(n);
    if n < 62 {
        assert(decode_prefix(s, 0) == Ok::<u64, DecodeError>(0u64));
        assert(digit_value(digit_char(n as int)) == Some(n as int));
    } else {
        let p = encode_spec(n / 62);
        let d = digit_char((n % 62) as int);
        lemma_decode_encode_prefix(n / 62);
        lemma_decode_prefix_extend(p, d, p.len());
        assert(s == p.push(d));
        assert(s[s.len() - 1] == d);
        assert(digit_value(d) == Some((n % 62) as int));
        assert((n / 62) * 62 + n % 62 == n) by (nonlinear_arith);
    }
}

} // verus!
