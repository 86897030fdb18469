//! Decoding toolkit for JSON response bodies: typed access to the top-level
//! members of a parsed object, space-delimited scope lists, and the contract
//! a response type implements to be decodable from a body.

use vstd::prelude::*;
use vstd::string::StrSliceExecFns;
use vstd::string::StringExecFns;

use crate::ext::JsonScalar;
use crate::helpers::str_eq;
use crate::types::Scope;

verus! {

/// The first member named `key`, if any.
pub open spec fn field_lookup(ms: Seq<(String, JsonScalar)>, key: Seq<char>) -> Option<JsonScalar>
    decreases ms.len(),
{
    if ms.len() == 0 {
        None
    } else if ms[0].0@ == key {
        Some(ms[0].1)
    } else {
        field_lookup(ms.drop_first(), key)
    }
}

/// Finds the first member named `key`.
pub fn lookup_field<'a>(ms: &'a Vec<(String, JsonScalar)>, key: &str) -> (r: Option<
    &'a JsonScalar,
>)
    ensures
        match r {
            Some(v) => field_lookup(ms@, key@) == Some(*v),
            None => field_lookup(ms@, key@) is None,
        },
{
    let mut i: usize = 0;
    proof {
        assert(ms@.skip(0) =~= ms@);
    }
    while i < ms.len()
        invariant
            0 <= i <= ms@.len(),
            field_lookup(ms@.skip(i as int), key@) == field_lookup(ms@, key@),
        decreases ms@.len() - i,
    {
        proof {
            assert(ms@.skip(i as int)[0] == ms@[i as int]);
            assert(ms@.skip(i as int).drop_first() =~= ms@.skip(i + 1));
        }
        if str_eq(ms[i].0.as_str(), key) {
            return Some(&ms[i].1);
        }
        i += 1;
    }
    proof {
        assert(ms@.skip(ms@.len() as int) =~= Seq::<(String, JsonScalar)>::empty());
    }
    None
}

/// A required string member: `None` when absent or not a string.
pub open spec fn req_str_field(ms: Seq<(String, JsonScalar)>, key: Seq<char>) -> Option<String> {
    match field_lookup(ms, key) {
        Some(JsonScalar::Str(s)) => Some(s),
        _ => None,
    }
}

/// An optional string member: `Some(None)` when absent or null, `None` when
/// present with a non-string value.
pub open spec fn opt_str_field(ms: Seq<(String, JsonScalar)>, key: Seq<char>) -> Option<
    Option<String>,
> {
    match field_lookup(ms, key) {
        None => Some(None),
        Some(JsonScalar::Null) => Some(None),
        Some(JsonScalar::Str(s)) => Some(Some(s)),
        Some(_) => None,
    }
}

/// An optional non-negative integer member.
pub open spec fn opt_u64_field(ms: Seq<(String, JsonScalar)>, key: Seq<char>) -> Option<
    Option<u64>,
> {
    match field_lookup(ms, key) {
        None => Some(None),
        Some(JsonScalar::Null) => Some(None),
        Some(JsonScalar::Int(i)) => if i >= 0 {
            Some(Some(i as u64))
        } else {
            None
        },
        Some(_) => None,
    }
}

/// An optional integer member.
pub open spec fn opt_i64_field(ms: Seq<(String, JsonScalar)>, key: Seq<char>) -> Option<
    Option<i64>,
> {
    match field_lookup(ms, key) {
        None => Some(None),
        Some(JsonScalar::Null) => Some(None),
        Some(JsonScalar::Int(i)) => Some(Some(i)),
        Some(_) => None,
    }
}

/// A required non-negative integer member.
pub open spec fn req_u64_field(ms: Seq<(String, JsonScalar)>, key: Seq<char>) -> Option<u64> {
    match field_lookup(ms, key) {
        Some(JsonScalar::Int(i)) => if i >= 0 {
            Some(i as u64)
        } else {
            None
        },
        _ => None,
    }
}

/// A required boolean member.
pub open spec fn req_bool_field(ms: Seq<(String, JsonScalar)>, key: Seq<char>) -> Option<bool> {
    match field_lookup(ms, key) {
        Some(JsonScalar::Bool(b)) => Some(b),
        _ => None,
    }
}

/// An optional member that is a string or a list of strings; a lone string
/// counts as a one-element list.
pub open spec fn opt_strlist_field(ms: Seq<(String, JsonScalar)>, key: Seq<char>) -> Option<
    Option<Seq<String>>,
> {
    match field_lookup(ms, key) {
        None => Some(None),
        Some(JsonScalar::Null) => Some(None),
        Some(JsonScalar::Str(s)) => Some(Some(seq![s])),
        Some(JsonScalar::StrList(v)) => Some(Some(v@)),
        Some(_) => None,
    }
}

/// Extracts a required string member.
pub fn get_req_str(ms: &Vec<(String, JsonScalar)>, key: &str) -> (r: Option<String>)
    ensures
        r == req_str_field(ms@, key@),
{
    match lookup_field(ms, key) {
        Some(JsonScalar::Str(s)) => Some(s.clone()),
        _ => None,
    }
}

/// Extracts an optional string member.
pub fn get_opt_str(ms: &Vec<(String, JsonScalar)>, key: &str) -> (r: Result<Option<String>, ()>)
    ensures
        match r {
            Ok(v) => opt_str_field(ms@, key@) == Some(v),
            Err(_) => opt_str_field(ms@, key@) is None,
        },
{
    match lookup_field(ms, key) {
        None => Ok(None),
        Some(JsonScalar::Null) => Ok(None),
        Some(JsonScalar::Str(s)) => Ok(Some(s.clone())),
        Some(_) => Err(()),
    }
}

/// Extracts an optional non-negative integer member.
pub fn get_opt_u64(ms: &Vec<(String, JsonScalar)>, key: &str) -> (r: Result<Option<u64>, ()>)
    ensures
        match r {
            Ok(v) => opt_u64_field(ms@, key@) == Some(v),
            Err(_) => opt_u64_field(ms@, key@) is None,
        },
{
    match lookup_field(ms, key) {
        None => Ok(None),
        Some(JsonScalar::Null) => Ok(None),
        Some(JsonScalar::Int(i)) => {
            let iv: i64 = *i;
            if iv >= 0 {
                Ok(Some(iv as u64))
            } else {
                Err(())
            }
        },
        Some(_) => Err(()),
    }
}

/// Extracts an optional integer member.
pub fn get_opt_i64(ms: &Vec<(String, JsonScalar)>, key: &str) -> (r: Result<Option<i64>, ()>)
    ensures
        match r {
            Ok(v) => opt_i64_field(ms@, key@) == Some(v),
            Err(_) => opt_i64_field(ms@, key@) is None,
        },
{
    match lookup_field(ms, key) {
        None => Ok(None),
        Some(JsonScalar::Null) => Ok(None),
        Some(JsonScalar::Int(i)) => Ok(Some(*i)),
        Some(_) => Err(()),
    }
}

/// Extracts a required non-negative integer member.
pub fn get_req_u64(ms: &Vec<(String, JsonScalar)>, key: &str) -> (r: Option<u64>)
    ensures
        r == req_u64_field(ms@, key@),
{
    match lookup_field(ms, key) {
        Some(JsonScalar::Int(i)) => {
            let iv: i64 = *i;
            if iv >= 0 {
                Some(iv as u64)
            } else {
                None
            }
        },
        _ => None,
    }
}

/// Extracts a required boolean member.
pub fn get_req_bool(ms: &Vec<(String, JsonScalar)>, key: &str) -> (r: Option<bool>)
    ensures
        r == req_bool_field(ms@, key@),
{
    match lookup_field(ms, key) {
        Some(JsonScalar::Bool(b)) => Some(*b),
        _ => None,
    }
}

/// Extracts an optional string-or-string-list member.
pub fn get_opt_strlist(ms: &Vec<(String, JsonScalar)>, key: &str) -> (r: Result<
    Option<Vec<String>>,
    (),
>)
    ensures
        match r {
            Ok(None) => opt_strlist_field(ms@, key@) == Some(None::<Seq<String>>),
            Ok(Some(v)) => opt_strlist_field(ms@, key@) == Some(Some(v@)),
            Err(_) => opt_strlist_field(ms@, key@) is None,
        },
{
    match lookup_field(ms, key) {
        None => Ok(None),
        Some(JsonScalar::Null) => Ok(None),
        Some(JsonScalar::Str(s)) => {
            let mut v: Vec<String> = Vec::new();
            v.push(s.clone());
            proof {
                assert(v@ =~= seq![*s]);
            }
            Ok(Some(v))
        },
        Some(JsonScalar::StrList(xs)) => {
            let mut v: Vec<String> = Vec::new();
            let mut i: usize = 0;
            while i < xs.len()
                invariant
                    0 <= i <= xs@.len(),
                    v@.len() == i,
                    forall|j: int| 0 <= j < i ==> v@[j] == xs@[j],
                decreases xs@.len() - i,
            {
                v.push(xs[i].clone());
                i += 1;
            }
            proof {
                assert(v@ =~= xs@);
            }
            Ok(Some(v))
        },
        Some(_) => Err(()),
    }
}

/// Splitting a character sequence at every space, keeping empty pieces; the
/// result always has one piece more than the number of spaces.
pub open spec fn split_sp(s: Seq<char>) -> Seq<Seq<char>>
    decreases s.len(),
{
    if s.len() == 0 {
        seq![Seq::<char>::empty()]
    } else if s[0] == ' ' {
        seq![Seq::<char>::empty()] + split_sp(s.drop_first())
    } else {
        let r = split_sp(s.drop_first());
        seq![seq![s[0]] + r[0]] + r.drop_first()
    }
}

/// Joining character sequences with single spaces.
pub open spec fn join_sp(parts: Seq<Seq<char>>) -> Seq<char>
    decreases parts.len(),
{
    if parts.len() == 0 {
        Seq::empty()
    } else if parts.len() == 1 {
        parts[0]
    } else {
        parts[0] + seq![' '] + join_sp(parts.drop_first())
    }
}

/// A split has at least one piece.
pub proof fn lemma_split_sp_nonempty(s: Seq<char>)
    ensures
        split_sp(s).len() >= 1,
    decreases s.len(),
{
    if s.len() != 0 {
        lemma_split_sp_nonempty(s.drop_first());
    }
}

/// Splitting at the first space: if the first `k` characters are space-free
/// and position `k` is a space (or the end), the split is the prefix followed
/// by the split of what is after the space.
pub proof fn lemma_split_sp_head(s: Seq<char>, k: int)
    requires
        0 <= k <= s.len(),
        forall|j: int| 0 <= j < k ==> s[j] != ' ',
        k < s.len() ==> s[k] == ' ',
    ensures
        k == s.len() ==> split_sp(s) == seq![s],
        k < s.len() ==> split_sp(s) == seq![s.take(k)] + split_sp(s.skip(k + 1)),
    decreases k,
{
    if k == 0 {
        if s.len() == 0 {
            assert(s =~= Seq::<char>::empty());
            assert(split_sp(s) =~= seq![s]);
        } else {
            assert(s[0] == ' ');
            assert(s.take(0) =~= Seq::<char>::empty());
            assert(s.skip(1) =~= s.drop_first());
            assert(split_sp(s) =~= seq![s.take(0)] + split_sp(s.skip(1)));
        }
    } else {
        assert(s[0] != ' ');
        let t = s.drop_first();
        lemma_split_sp_head(t, k - 1);
        lemma_split_sp_nonempty(t);
        if k == s.len() {
            let r = split_sp(t);
            assert(r == seq![t]);
            assert(r[0] == t);
            assert(r.drop_first() =~= Seq::<Seq<char>>::empty());
            assert(split_sp(s) == seq![seq![s[0]] + r[0]] + r.drop_first());
            assert(seq![seq![s[0]] + r[0]] + r.drop_first() =~= seq![seq![s[0]] + t]);
            assert(seq![s[0]] + t =~= s);
            assert(seq![seq![s[0]] + t] =~= seq![s]);
        } else {
            assert(split_sp(t) == seq![t.take(k - 1)] + split_sp(t.skip(k)));
            assert(seq![s[0]] + t.take(k - 1) =~= s.take(k));
            assert(t.skip(k) =~= s.skip(k + 1));
            assert((seq![t.take(k - 1)] + split_sp(t.skip(k))).drop_first() =~= split_sp(
                s.skip(k + 1),
            ));
            assert(split_sp(s) =~= seq![s.take(k)] + split_sp(s.skip(k + 1)));
        }
    }
}

/// The scope views of a scope list.
pub open spec fn scopes_view(v: Seq<Scope>) -> Seq<Seq<char>> {
    v.map_values(|sc: Scope| sc@)
}

/// Splits a space-delimited scope string into individual scopes, keeping
/// empty pieces, as the wire format prescribes.
pub fn split_scopes(s: &str) -> (r: Vec<Scope>)
    ensures
        scopes_view(r@) == split_sp(s@),
{
    let n = s.unicode_len();
    let mut out: Vec<Scope> = Vec::new();
    let mut start: usize = 0;
    let mut i: usize = 0;
    proof {
        assert(s@.skip(0) =~= s@);
        assert(scopes_view(out@) =~= Seq::<Seq<char>>::empty());
        assert(scopes_view(out@) + split_sp(s@) =~= split_sp(s@));
    }
    while i < n
        invariant
            0 <= start <= i <= n,
            n == s@.len(),
            forall|j: int| start <= j < i ==> s@[j] != ' ',
            split_sp(s@) == scopes_view(out@) + split_sp(s@.skip(start as int)),
        decreases n - i,
    {
        let c = s.get_char(i);
        if c == ' ' {
            let piece = s.substring_char(start, i);
            out.push(Scope::new(String::from_str(piece)));
            proof {
                let tail = s@.skip(start as int);
                lemma_split_sp_head(tail, i - start);
                assert(tail.take(i - start) =~= s@.subrange(start as int, i as int));
                assert(tail.skip(i - start + 1) =~= s@.skip(i + 1));
                assert(scopes_view(out@) =~= scopes_view(out@.drop_last()) + seq![
                    s@.subrange(start as int, i as int),
                ]);
                assert(split_sp(s@) =~= scopes_view(out@) + split_sp(s@.skip(i + 1)));
            }
            start = i + 1;
        }
        i += 1;
    }
    let piece = s.substring_char(start, n);
    out.push(Scope::new(String::from_str(piece)));
    proof {
        let tail = s@.skip(start as int);
        lemma_split_sp_head(tail, n - start);
        assert(tail.take(n - start) =~= tail);
        assert(tail =~= s@.subrange(start as int, n as int));
        assert(scopes_view(out@) =~= scopes_view(out@.drop_last()) + seq![
            s@.subrange(start as int, n as int),
        ]);
        assert(scopes_view(out@) =~= scopes_view(out@.drop_last()) + split_sp(tail));
        assert(scopes_view(out@) =~= split_sp(s@));
    }
    out
}

/// Joins scopes with single spaces, the wire serialization of a scope list.
pub fn join_scopes(scopes: &Vec<Scope>) -> (r: String)
    ensures
        r@ == join_sp(scopes_view(scopes@)),
{
    let mut out = String::new();
    let mut i: usize = 0;
    while i < scopes.len()
        invariant
            0 <= i <= scopes@.len(),
            out@ == join_sp(scopes_view(scopes@.take(i as int))),
        decreases scopes@.len() - i,
    {
        if i > 0 {
            out.append(" ");
        }
        out.append(scopes[i].as_str());
        proof {
            reveal_strlit(" ");
            assert(" "@ =~= seq![' ']);
            lemma_join_sp_snoc(scopes_view(scopes@.take(i as int)), scopes@[i as int]@);
            assert(scopes_view(scopes@.take(i + 1)) =~= scopes_view(scopes@.take(i as int)).push(
                scopes@[i as int]@,
            ));
            assert(i > 0 ==> scopes_view(scopes@.take(i as int)).len() > 0);
        }
        i += 1;
    }
    proof {
        assert(scopes@.take(scopes@.len() as int) =~= scopes@);
    }
    out
}

/// Appending a part to a join appends a space and the part (or just the part
/// when the join was empty).
pub proof fn lemma_join_sp_snoc(parts: Seq<Seq<char>>, p: Seq<char>)
    ensures
        parts.len() == 0 ==> join_sp(parts.push(p)) == p,
        parts.len() > 0 ==> join_sp(parts.push(p)) == join_sp(parts) + seq![' '] + p,
    decreases parts.len(),
{
    if parts.len() == 0 {
        assert(parts.push(p)[0] == p);
        assert(join_sp(parts.push(p)) == p);
    } else {
        assert(parts.push(p).drop_first() =~= parts.drop_first().push(p));
        lemma_join_sp_snoc(parts.drop_first(), p);
        if parts.len() == 1 {
            assert(join_sp(parts.push(p)) =~= join_sp(parts) + seq![' '] + p);
        } else {
            assert(join_sp(parts.push(p)) =~= join_sp(parts) + seq![' '] + p);
        }
    }
}

/// Joining space-free parts with single spaces and splitting the result
/// gives the parts back; this is what lets a decoded scope list reproduce
/// the list that was serialized. It fails for an empty part list (the empty
/// string splits into one empty piece) and for parts containing spaces,
/// which the wire format cannot represent.
pub proof fn lemma_split_join_round_trip(parts: Seq<Seq<char>>)
    requires
        parts.len() > 0,
        forall|i: int, j: int|
            0 <= i < parts.len() && 0 <= j < parts[i].len() ==> #[trigger] parts[i][j] != ' ',
    ensures
        split_sp(join_sp(parts)) == parts,
    decreases parts.len(),
{
    if parts.len() == 1 {
        lemma_split_sp_head(parts[0], parts[0].len() as int);
        assert(join_sp(parts) == parts[0]);
        assert(split_sp(join_sp(parts)) =~= parts);
    } else {
        let rest = parts.drop_first();
        assert(forall|i: int, j: int|
            0 <= i < rest.len() && 0 <= j < rest[i].len() ==> #[trigger] rest[i][j] != ' ');
        lemma_split_join_round_trip(rest);
        let s = join_sp(parts);
        let k = parts[0].len() as int;
        assert(s == parts[0] + seq![' '] + join_sp(rest));
        assert(forall|j: int| 0 <= j < k ==> s[j] == parts[0][j] && s[j] != ' ');
        assert(s[k] == ' ');
        lemma_split_sp_head(s, k);
        assert(s.take(k) =~= parts[0]);
        assert(s.skip(k + 1) =~= join_sp(rest));
        assert(split_sp(join_sp(parts)) =~= parts);
    }
}

/// A value decodable from a JSON response body. `json_decodes` says which
/// bodies decode; `decodes_to` pins down, at the level of views, the value a
/// body decodes to. `from_json_body` computes the decoding, reporting a
/// message for undecodable bodies.
pub trait FromJsonBody: Sized {
    /// Whether the body decodes to a value of this type.
    spec fn json_decodes(body: Seq<u8>) -> bool;

    /// Whether `v` is the decoding of the body. Implementations make this
    /// precise enough that any two values it accepts for one body agree in
    /// all their views.
    spec fn decodes_to(body: Seq<u8>, v: Self) -> bool;

    /// Decodes a response body.
    fn from_json_body(body: &[u8]) -> (r: Result<Self, String>)
        ensures
            match r {
                Ok(v) => Self::json_decodes(body@) && Self::decodes_to(body@, v),
                Err(_) => !Self::json_decodes(body@),
            },
    ;
}

} // verus!
