//! Byte- and string-level helpers shared by the request encoder and the
//! response decoder: ASCII case folding, string equality, decimal rendering,
//! and the UTF-8 facts connecting byte sequences to character sequences.

use vstd::prelude::*;
use vstd::utf8::{
    decode_utf8, decode_utf8_encode_utf8, encode_utf8, encode_utf8_decode_utf8,
    is_leading_byte_width_1, pop_first_scalar, valid_first_scalar, valid_utf8,
};

verus! {

/// ASCII lowercasing of one byte: `A`..`Z` map to `a`..`z`, all else unchanged.
pub open spec fn lower_byte(b: u8) -> u8 {
    if 0x41 <= b && b <= 0x5a {
        (b + 0x20) as u8
    } else {
        b
    }
}

/// ASCII lowercasing of a byte sequence.
pub open spec fn lower_bytes(bs: Seq<u8>) -> Seq<u8> {
    bs.map_values(|b: u8| lower_byte(b))
}

/// All bytes are ASCII (below 0x80).
pub open spec fn all_ascii(bs: Seq<u8>) -> bool {
    forall|i: int| 0 <= i < bs.len() ==> bs[i] < 0x80
}

/// The characters with the same code points as the given ASCII bytes.
pub open spec fn ascii_chars(bs: Seq<u8>) -> Seq<char> {
    bs.map_values(|b: u8| b as char)
}

/// Compares two byte slices for equality.
pub fn bytes_eq(a: &[u8], b: &[u8]) -> (r: bool)
    ensures
        r == (a@ == b@),
{
    if a.len() != b.len() {
        return false;
    }
    let mut i: usize = 0;
    while i < a.len()
        invariant
            0 <= i <= a@.len(),
            a@.len() == b@.len(),
            forall|j: int| 0 <= j < i ==> a@[j] == b@[j],
        decreases a@.len() - i,
    {
        if a[i] != b[i] {
            return false;
        }
        i += 1;
    }
    proof {
        assert(a@ =~= b@);
    }
    true
}

/// Compares two strings for equality of their character sequences.
pub fn str_eq(a: &str, b: &str) -> (r: bool)
    ensures
        r == (a@ == b@),
{
    let r = bytes_eq(a.as_bytes(), b.as_bytes());
    proof {
        if r {
            encode_utf8_decode_utf8(a@);
            encode_utf8_decode_utf8(b@);
        }
    }
    r
}

/// Whether `a` begins with `p`.
pub open spec fn spec_starts_with(a: Seq<u8>, p: Seq<u8>) -> bool {
    p.is_prefix_of(a)
}

/// Tests whether `a` begins with the bytes of `p`.
pub fn bytes_starts_with(a: &[u8], p: &[u8]) -> (r: bool)
    ensures
        r == spec_starts_with(a@, p@),
{
    if p.len() > a.len() {
        proof {
            assert(!p@.is_prefix_of(a@));
        }
        return false;
    }
    let mut i: usize = 0;
    while i < p.len()
        invariant
            0 <= i <= p@.len(),
            p@.len() <= a@.len(),
            forall|j: int| 0 <= j < i ==> a@[j] == p@[j],
        decreases p@.len() - i,
    {
        if a[i] != p[i] {
            proof {
                assert(!p@.is_prefix_of(a@));
            }
            return false;
        }
        i += 1;
    }
    proof {
        assert(p@ =~= a@.subrange(0, p@.len() as int));
    }
    true
}

/// Whether the byte `t` occurs in `a`.
pub fn slice_contains_byte(a: &[u8], t: u8) -> (r: bool)
    ensures
        r == a@.contains(t),
{
    let mut i: usize = 0;
    while i < a.len()
        invariant
            0 <= i <= a@.len(),
            forall|j: int| 0 <= j < i ==> a@[j] != t,
        decreases a@.len() - i,
    {
        if a[i] == t {
            return true;
        }
        i += 1;
    }
    false
}

/// ASCII-lowercases every byte of a slice.
pub fn lower_bytes_vec(v: &[u8]) -> (r: Vec<u8>)
    ensures
        r@ == lower_bytes(v@),
{
    let mut out: Vec<u8> = Vec::new();
    let mut i: usize = 0;
    while i < v.len()
        invariant
            0 <= i <= v@.len(),
            out@.len() == i,
            forall|j: int| 0 <= j < i ==> out@[j] == lower_byte(v@[j]),
        decreases v@.len() - i,
    {
        let b = v[i];
        if 0x41 <= b && b <= 0x5a {
            out.push(b + 0x20);
        } else {
            out.push(b);
        }
        i += 1;
    }
    proof {
        assert(out@ =~= lower_bytes(v@));
    }
    out
}

/// The decimal digits of `n`, as ASCII bytes without leading zeros.
pub open spec fn dec_digits(n: nat) -> Seq<u8>
    decreases n,
{
    if n < 10 {
        seq![(0x30 + n) as u8]
    } else {
        dec_digits(n / 10) + seq![(0x30 + n % 10) as u8]
    }
}

/// Appends the decimal rendering of `n` to `out`.
pub fn push_dec(n: u64, out: &mut Vec<u8>)
    ensures
        final(out)@ == old(out)@ + dec_digits(n as nat),
    decreases n,
{
    if n < 10 {
        out.push(0x30 + n as u8);
        proof {
            assert(out@ =~= old(out)@ + dec_digits(n as nat));
        }
    } else {
        push_dec(n / 10, out);
        out.push(0x30 + (n % 10) as u8);
        proof {
            assert(out@ =~= old(out)@ + dec_digits(n as nat));
        }
    }
}

/// ASCII bytes are valid UTF-8 and decode to the characters with the same
/// code points.
pub proof fn lemma_ascii_decode(bs: Seq<u8>)
    requires
        all_ascii(bs),
    ensures
        valid_utf8(bs),
        decode_utf8(bs) == ascii_chars(bs),
    decreases bs.len(),
{
    if bs.len() != 0 {
        let b0 = bs[0];
        assert(b0 < 0x80);
        assert(is_leading_byte_width_1(b0));
        assert((b0 & 0x7f) == b0) by (bit_vector)
            requires
                b0 < 0x80,
        ;
        assert(valid_first_scalar(bs));
        let rest = pop_first_scalar(bs);
        assert(rest =~= bs.subrange(1, bs.len() as int));
        lemma_ascii_decode(rest);
        assert(decode_utf8(bs) =~= ascii_chars(bs));
    }
}

/// Builds a string from ASCII bytes; its characters have the bytes' code points.
pub fn ascii_string(bytes: Vec<u8>) -> (r: String)
    requires
        all_ascii(bytes@),
    ensures
        r@ == ascii_chars(bytes@),
        encode_utf8(r@) == bytes@,
{
    proof {
        lemma_ascii_decode(bytes@);
        decode_utf8_encode_utf8(bytes@);
    }
    crate::ext::string_from_utf8(bytes)
}

} // verus!
