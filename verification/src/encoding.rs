//! The `application/x-www-form-urlencoded` byte serializer (the WHATWG
//! urlencoded serializer): alphanumerics and `*-._` pass unchanged, space
//! becomes `+`, every other byte becomes `%XX` with uppercase hex digits.
//! Request bodies and authorization-URL query strings are produced by it.

use vstd::prelude::*;
use vstd::utf8::encode_utf8;

use crate::helpers::all_ascii;

verus! {

/// Bytes the form-urlencoded serializer passes through unchanged:
/// `0-9 A-Z a-z * - . _`.
pub open spec fn form_unchanged_byte(b: u8) -> bool {
    ||| b == 0x2a
    ||| b == 0x2d
    ||| b == 0x2e
    ||| (0x30 <= b && b <= 0x39)
    ||| (0x41 <= b && b <= 0x5a)
    ||| b == 0x5f
    ||| (0x61 <= b && b <= 0x7a)
}

/// The uppercase hex digit for a value below 16.
pub open spec fn hex_upper(n: u8) -> u8 {
    if n < 10 {
        (0x30 + n) as u8
    } else {
        (0x41 + n - 10) as u8
    }
}

/// The form-urlencoding of one byte.
pub open spec fn urlencode_byte(b: u8) -> Seq<u8> {
    if form_unchanged_byte(b) {
        seq![b]
    } else if b == 0x20 {
        seq![0x2bu8]
    } else {
        seq![0x25u8, hex_upper((b / 16) as u8), hex_upper((b % 16) as u8)]
    }
}

/// The form-urlencoding of a byte sequence.
pub open spec fn urlencode(bs: Seq<u8>) -> Seq<u8>
    decreases bs.len(),
{
    if bs.len() == 0 {
        seq![]
    } else {
        urlencode_byte(bs[0]) + urlencode(bs.drop_first())
    }
}

/// The form-urlencoding of a string's UTF-8 bytes.
pub open spec fn urlencode_str(s: Seq<char>) -> Seq<u8> {
    urlencode(encode_utf8(s))
}

/// One `name=value` pair, each side form-urlencoded.
pub open spec fn encode_pair(k: Seq<char>, v: Seq<char>) -> Seq<u8> {
    urlencode_str(k) + seq![0x3du8] + urlencode_str(v)
}

/// A parameter list serialized as `k=v&k=v&...`; empty for no parameters.
pub open spec fn encode_pairs(ps: Seq<(Seq<char>, Seq<char>)>) -> Seq<u8>
    decreases ps.len(),
{
    if ps.len() == 0 {
        seq![]
    } else if ps.len() == 1 {
        encode_pair(ps[0].0, ps[0].1)
    } else {
        encode_pair(ps[0].0, ps[0].1) + seq![0x26u8] + encode_pairs(ps.drop_first())
    }
}

/// The character-sequence views of a parameter list.
pub open spec fn pairs_view(ps: Seq<(String, String)>) -> Seq<(Seq<char>, Seq<char>)> {
    ps.map_values(|p: (String, String)| (p.0@, p.1@))
}

/// The encoding of a single byte is that byte's encoding.
pub proof fn lemma_urlencode_single(b: u8)
    ensures
        urlencode(seq![b]) == urlencode_byte(b),
{
    assert(seq![b].drop_first() =~= Seq::<u8>::empty());
    assert(urlencode(Seq::<u8>::empty()) == Seq::<u8>::empty());
    assert(seq![b][0] == b);
    assert(urlencode(seq![b]) =~= urlencode_byte(b));
}

/// Form-urlencoding distributes over concatenation.
pub proof fn lemma_urlencode_concat(a: Seq<u8>, b: Seq<u8>)
    ensures
        urlencode(a + b) == urlencode(a) + urlencode(b),
    decreases a.len(),
{
    if a.len() == 0 {
        assert(a + b =~= b);
        assert(urlencode(a) + urlencode(b) =~= urlencode(b));
    } else {
        assert((a + b).drop_first() =~= a.drop_first() + b);
        lemma_urlencode_concat(a.drop_first(), b);
        assert(urlencode(a + b) =~= urlencode(a) + urlencode(b));
    }
}

/// Every byte of a form-urlencoding is ASCII.
pub proof fn lemma_urlencode_ascii(bs: Seq<u8>)
    ensures
        all_ascii(urlencode(bs)),
    decreases bs.len(),
{
    if bs.len() != 0 {
        lemma_urlencode_ascii(bs.drop_first());
    }
}

/// Every byte of a serialized parameter list is ASCII: percent-encodings,
/// the passed-through bytes, and the separators all are.
pub proof fn lemma_encode_pairs_ascii(ps: Seq<(Seq<char>, Seq<char>)>)
    ensures
        all_ascii(encode_pairs(ps)),
    decreases ps.len(),
{
    if ps.len() == 0 {
    } else if ps.len() == 1 {
        lemma_urlencode_ascii(encode_utf8(ps[0].0));
        lemma_urlencode_ascii(encode_utf8(ps[0].1));
        assert forall|i: int| 0 <= i < encode_pairs(ps).len() implies encode_pairs(ps)[i]
            < 0x80 by {
            let k = urlencode(encode_utf8(ps[0].0));
            let v = urlencode(encode_utf8(ps[0].1));
            assert(encode_pairs(ps) == k + seq![0x3du8] + v);
            if i < k.len() {
                assert(encode_pairs(ps)[i] == k[i]);
            } else if i == k.len() {
                assert(encode_pairs(ps)[i] == 0x3d);
            } else {
                assert(encode_pairs(ps)[i] == v[i - k.len() - 1]);
            }
        }
    } else {
        lemma_urlencode_ascii(encode_utf8(ps[0].0));
        lemma_urlencode_ascii(encode_utf8(ps[0].1));
        lemma_encode_pairs_ascii(ps.drop_first());
        assert forall|i: int| 0 <= i < encode_pairs(ps).len() implies encode_pairs(ps)[i]
            < 0x80 by {
            let k = urlencode(encode_utf8(ps[0].0));
            let v = urlencode(encode_utf8(ps[0].1));
            let head = k + seq![0x3du8] + v;
            let rest = encode_pairs(ps.drop_first());
            assert(encode_pairs(ps) == head + seq![0x26u8] + rest);
            if i < head.len() {
                assert(encode_pairs(ps)[i] == head[i]);
                if i < k.len() {
                    assert(head[i] == k[i]);
                } else if i == k.len() {
                    assert(head[i] == 0x3d);
                } else {
                    assert(head[i] == v[i - k.len() - 1]);
                }
            } else if i == head.len() {
                assert(encode_pairs(ps)[i] == 0x26);
            } else {
                assert(encode_pairs(ps)[i] == rest[i - head.len() - 1]);
            }
        }
    }
}

/// Appending a pair to a non-empty list appends `&` and the encoded pair.
pub proof fn lemma_encode_pairs_snoc(ps: Seq<(Seq<char>, Seq<char>)>, p: (Seq<char>, Seq<char>))
    ensures
        ps.len() == 0 ==> encode_pairs(ps.push(p)) == encode_pair(p.0, p.1),
        ps.len() > 0 ==> encode_pairs(ps.push(p)) == encode_pairs(ps) + seq![0x26u8]
            + encode_pair(p.0, p.1),
    decreases ps.len(),
{
    if ps.len() == 0 {
        assert(ps.push(p)[0] == p);
        assert(encode_pairs(ps.push(p)) == encode_pair(p.0, p.1));
    } else {
        assert(ps.push(p).drop_first() =~= ps.drop_first().push(p));
        lemma_encode_pairs_snoc(ps.drop_first(), p);
        if ps.len() == 1 {
            assert(encode_pairs(ps.push(p)) =~= encode_pairs(ps) + seq![0x26u8] + encode_pair(
                p.0,
                p.1,
            ));
        } else {
            assert(encode_pairs(ps.push(p)) =~= encode_pairs(ps) + seq![0x26u8] + encode_pair(
                p.0,
                p.1,
            ));
        }
    }
}

/// Appends the form-urlencoding of `bs` to `out`.
pub fn urlencode_push(bs: &[u8], out: &mut Vec<u8>)
    ensures
        final(out)@ == old(out)@ + urlencode(bs@),
{
    let mut i: usize = 0;
    while i < bs.len()
        invariant
            0 <= i <= bs@.len(),
            out@ == old(out)@ + urlencode(bs@.take(i as int)),
        decreases bs@.len() - i,
    {
        let b = bs[i];
        proof {
            assert(bs@.take(i + 1) =~= bs@.take(i as int).push(b));
            assert(bs@.take(i as int).push(b) =~= bs@.take(i as int) + seq![b]);
            lemma_urlencode_concat(bs@.take(i as int), seq![b]);
            lemma_urlencode_single(b);
        }
        if b == 0x2a || b == 0x2d || b == 0x2e || (0x30 <= b && b <= 0x39) || (0x41 <= b && b
            <= 0x5a) || b == 0x5f || (0x61 <= b && b <= 0x7a) {
            out.push(b);
        } else if b == 0x20 {
            out.push(0x2b);
        } else {
            out.push(0x25);
            let hi = b / 16;
            let lo = b % 16;
            out.push(if hi < 10 { 0x30 + hi } else { 0x41 + hi - 10 });
            out.push(if lo < 10 { 0x30 + lo } else { 0x41 + lo - 10 });
        }
        proof {
            assert(out@ =~= old(out)@ + urlencode(bs@.take(i + 1)));
        }
        i += 1;
    }
    proof {
        assert(bs@.take(bs@.len() as int) =~= bs@);
    }
}

/// Serializes a parameter list as a form-urlencoded byte string.
pub fn encode_pairs_vec(params: &Vec<(String, String)>) -> (r: Vec<u8>)
    ensures
        r@ == encode_pairs(pairs_view(params@)),
{
    let mut out: Vec<u8> = Vec::new();
    let mut i: usize = 0;
    while i < params.len()
        invariant
            0 <= i <= params@.len(),
            out@ == encode_pairs(pairs_view(params@.take(i as int))),
        decreases params@.len() - i,
    {
        proof {
            assert(pairs_view(params@.take(i + 1)) =~= pairs_view(params@.take(i as int)).push(
                (params@[i as int].0@, params@[i as int].1@),
            ));
            lemma_encode_pairs_snoc(
                pairs_view(params@.take(i as int)),
                (params@[i as int].0@, params@[i as int].1@),
            );
        }
        if i > 0 {
            out.push(0x26);
        }
        urlencode_push(params[i].0.as_str().as_bytes(), &mut out);
        out.push(0x3d);
        urlencode_push(params[i].1.as_str().as_bytes(), &mut out);
        proof {
            assert(out@ =~= encode_pairs(pairs_view(params@.take(i + 1))));
        }
        i += 1;
    }
    proof {
        assert(params@.take(params@.len() as int) =~= params@);
    }
    out
}

} // verus!
