use vstd::prelude::*;

verus! {

/// The characters that ASCII bytes stand for.
pub open spec fn ascii_chars(b: Seq<u8>) -> Seq<char> {
    b.map_values(|c: u8| c as char)
}

/// Relies on String::from_utf8: bytes that are valid UTF-8, as ASCII bytes
/// are, become the string of the same characters.
#[verifier::external_body]
pub(crate) fn ascii_string(bytes: Vec<u8>) -> (r: String)
    requires
        forall|i: int| 0 <= i < bytes@.len() ==> #[trigger] bytes@[i] < 128,
    ensures
        r@ == ascii_chars(bytes@),
{
    match String::from_utf8(bytes) {
        Ok(s) => s,
        Err(_) => String::new(),
    }
}

/// Relies on std::str::from_utf8: the first `len` bytes of `buf`, valid
/// UTF-8 as ASCII bytes are, read as the string of the same characters.
#[verifier::external_body]
pub(crate) fn ascii_prefix_str<const N: usize>(buf: &[u8; N], len: usize) -> (r: &str)
    requires
        len <= N,
        forall|i: int| 0 <= i < len ==> #[trigger] buf@[i] < 128,
    ensures
        r@ == ascii_chars(buf@.subrange(0, len as int)),
{
    match std::str::from_utf8(&buf[..len]) {
        Ok(s) => s,
        Err(_) => "",
    }
}

/// The decimal digits of `n`, most significant first, without leading zeros.
pub open spec fn decimal_spec(n: nat) -> Seq<u8>
    decreases n,
{
    if n < 10 {
        seq![(0x30 + n) as u8]
    } else {
        decimal_spec(n / 10).push((0x30 + n % 10) as u8)
    }
}

proof fn lemma_decimal_ascii(n: nat)
    ensures
        forall|i: int| 0 <= i < decimal_spec(n).len() ==> #[trigger] decimal_spec(n)[i] < 128,
    decreases n,
{
    if n >= 10 {
        lemma_decimal_ascii(n / 10);
        assert(n % 10 < 10);
        let p = decimal_spec(n / 10);
        assert forall|i: int| 0 <= i < decimal_spec(n).len() implies #[trigger] decimal_spec(n)[i]
            < 128 by {
            if i < p.len() {
                assert(decimal_spec(n)[i] == p[i]);
            }
        }
    }
}

fn push_decimal(n: u64, out: &mut Vec<u8>)
    ensures
        final(out)@ == old(out)@ + decimal_spec(n as nat),
    decreases n,
{
    if n >= 10 {
        push_decimal(n / 10, out);
    }
    out.push(0x30 + (n % 10) as u8);
    proof {
        assert(final(out)@ =~= old(out)@ + decimal_spec(n as nat));
    }
}

/// The decimal text of `n`.
pub fn decimal_string(n: u64) -> (r: String)
    ensures
        r@ == ascii_chars(decimal_spec(n as nat)),
{
    let mut out: Vec<u8> = Vec::new();
    push_decimal(n, &mut out);
    proof {
        assert(out@ =~= decimal_spec(n as nat));
        lemma_decimal_ascii(n as nat);
    }
    ascii_string(out)
}

} // verus!
