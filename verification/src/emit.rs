//! JSON emission for the standard response shapes: string escaping and the
//! assembly of a flat object, byte by byte, so that a response can be
//! serialized back to the wire form it was decoded from.

use vstd::prelude::*;
use vstd::utf8::encode_utf8;

use crate::helpers::dec_digits;

verus! {

/// The lowercase hex digit for a value below 16.
pub open spec fn hex_lower(n: u8) -> u8 {
    if n < 10 {
        (0x30 + n) as u8
    } else {
        (0x61 + n - 10) as u8
    }
}

/// The JSON escaping of one byte inside a string literal: quote and
/// backslash get a backslash, control bytes become `\u00xx`, and every other
/// byte (UTF-8 continuations included) passes through.
pub open spec fn json_escape_byte(b: u8) -> Seq<u8> {
    if b == 0x22 {
        seq![0x5cu8, 0x22u8]
    } else if b == 0x5c {
        seq![0x5cu8, 0x5cu8]
    } else if b < 0x20 {
        seq![0x5cu8, 0x75u8, 0x30u8, 0x30u8, hex_lower((b / 16) as u8), hex_lower((b % 16) as u8)]
    } else {
        seq![b]
    }
}

/// The JSON escaping of a byte sequence.
pub open spec fn json_escape(bs: Seq<u8>) -> Seq<u8>
    decreases bs.len(),
{
    if bs.len() == 0 {
        seq![]
    } else {
        json_escape_byte(bs[0]) + json_escape(bs.drop_first())
    }
}

/// A JSON string literal: the escaped UTF-8 bytes between quotes.
pub open spec fn json_str(s: Seq<char>) -> Seq<u8> {
    seq![0x22u8] + json_escape(encode_utf8(s)) + seq![0x22u8]
}

/// A JSON number literal for an unsigned integer.
pub open spec fn json_u64(n: u64) -> Seq<u8> {
    dec_digits(n as nat)
}

/// The escaping of a single byte is that byte's escaping.
pub proof fn lemma_json_escape_single(b: u8)
    ensures
        json_escape(seq![b]) == json_escape_byte(b),
{
    assert(seq![b].drop_first() =~= Seq::<u8>::empty());
    assert(json_escape(Seq::<u8>::empty()) == Seq::<u8>::empty());
    assert(seq![b][0] == b);
    assert(json_escape(seq![b]) =~= json_escape_byte(b));
}

/// JSON escaping distributes over concatenation.
pub proof fn lemma_json_escape_concat(a: Seq<u8>, b: Seq<u8>)
    ensures
        json_escape(a + b) == json_escape(a) + json_escape(b),
    decreases a.len(),
{
    if a.len() == 0 {
        assert(a + b =~= b);
        assert(json_escape(a) + json_escape(b) =~= json_escape(b));
    } else {
        assert((a + b).drop_first() =~= a.drop_first() + b);
        lemma_json_escape_concat(a.drop_first(), b);
        assert(json_escape(a + b) =~= json_escape(a) + json_escape(b));
    }
}

/// Appends the bytes of `bs` to `out` unchanged.
pub fn push_bytes(bs: &[u8], out: &mut Vec<u8>)
    ensures
        final(out)@ == old(out)@ + bs@,
{
    let mut i: usize = 0;
    while i < bs.len()
        invariant
            0 <= i <= bs@.len(),
            out@ == old(out)@ + bs@.take(i as int),
        decreases bs@.len() - i,
    {
        out.push(bs[i]);
        proof {
            assert(bs@.take(i + 1) =~= bs@.take(i as int).push(bs@[i as int]));
            assert(out@ =~= old(out)@ + bs@.take(i + 1));
        }
        i += 1;
    }
    proof {
        assert(bs@.take(bs@.len() as int) =~= bs@);
    }
}

/// Appends the JSON escaping of `bs` to `out`.
pub fn json_escape_push(bs: &[u8], out: &mut Vec<u8>)
    ensures
        final(out)@ == old(out)@ + json_escape(bs@),
{
    let mut i: usize = 0;
    while i < bs.len()
        invariant
            0 <= i <= bs@.len(),
            out@ == old(out)@ + json_escape(bs@.take(i as int)),
        decreases bs@.len() - i,
    {
        let b = bs[i];
        proof {
            assert(bs@.take(i + 1) =~= bs@.take(i as int) + seq![b]);
            lemma_json_escape_concat(bs@.take(i as int), seq![b]);
            lemma_json_escape_single(b);
        }
        if b == 0x22 {
            out.push(0x5c);
            out.push(0x22);
        } else if b == 0x5c {
            out.push(0x5c);
            out.push(0x5c);
        } else if b < 0x20 {
            out.push(0x5c);
            out.push(0x75);
            out.push(0x30);
            out.push(0x30);
            let hi = b / 16;
            let lo = b % 16;
            out.push(if hi < 10 { 0x30 + hi } else { 0x61 + hi - 10 });
            out.push(if lo < 10 { 0x30 + lo } else { 0x61 + lo - 10 });
        } else {
            out.push(b);
        }
        proof {
            assert(out@ =~= old(out)@ + json_escape(bs@.take(i + 1)));
        }
        i += 1;
    }
    proof {
        assert(bs@.take(bs@.len() as int) =~= bs@);
    }
}

/// Appends the JSON string literal for `s` to `out`.
pub fn json_str_push(s: &str, out: &mut Vec<u8>)
    ensures
        final(out)@ == old(out)@ + json_str(s@),
{
    out.push(0x22);
    json_escape_push(s.as_bytes(), out);
    out.push(0x22);
    proof {
        assert(out@ =~= old(out)@ + json_str(s@));
    }
}

} // verus!
