//! Facts about text that prefix matching rests on.
use vstd::prelude::*;
use vstd::string::StrSliceExecFns;
use vstd::utf8::encode_utf8;

verus! {

/// `p` is a prefix of `s`.
pub open spec fn is_prefix_of(p: Seq<char>, s: Seq<char>) -> bool {
    p.len() <= s.len() && s.subrange(0, p.len() as int) == p
}

/// Whether `s` starts with `prefix`, character by character.
pub fn starts_with(s: &str, prefix: &str) -> (r: bool)
    ensures
        r == is_prefix_of(prefix@, s@),
{
    let n = s.unicode_len();
    let m = prefix.unicode_len();
    if m > n {
        return false;
    }
    let mut i: usize = 0;
    while i < m
        invariant
            n == s@.len(),
            m == prefix@.len(),
            m <= n,
            0 <= i <= m,
            forall|k: int| 0 <= k < i ==> s@[k] == prefix@[k],
        decreases m - i,
    {
        if s.get_char(i) != prefix.get_char(i) {
            assert(s@.subrange(0, m as int)[i as int] != prefix@[i as int]);
            return false;
        }
        i = i + 1;
    }
    assert(s@.subrange(0, m as int) =~= prefix@);
    true
}

/// Whether `a` and `b` hold the same text.
pub fn same_text(a: &str, b: &str) -> (r: bool)
    ensures
        r == (a@ == b@),
{
    if a.unicode_len() != b.unicode_len() {
        return false;
    }
    let r = starts_with(a, b);
    assert(a@.subrange(0, a@.len() as int) =~= a@);
    r
}

/// Encoding a concatenation encodes the parts one after the other.
pub proof fn lemma_encode_concat(a: Seq<char>, b: Seq<char>)
    ensures
        encode_utf8(a + b) == encode_utf8(a) + encode_utf8(b),
    decreases a.len(),
{
    if a.len() == 0 {
        assert(a + b =~= b);
        assert(encode_utf8(a) + encode_utf8(b) =~= encode_utf8(b));
    } else {
        assert((a + b).drop_first() =~= a.drop_first() + b);
        lemma_encode_concat(a.drop_first(), b);
        assert(encode_utf8(a + b) =~= encode_utf8(a) + encode_utf8(b));
    }
}

/// Every character takes at least one byte.
pub proof fn lemma_encode_len(a: Seq<char>)
    ensures
        encode_utf8(a).len() >= a.len(),
    decreases a.len(),
{
    if a.len() > 0 {
        lemma_encode_len(a.drop_first());
    }
}

/// Of two prefixes of one text, the one with fewer bytes has fewer
/// characters, and two with as many bytes are the same.
pub proof fn lemma_prefix_byte_order(p: Seq<char>, q: Seq<char>, s: Seq<char>)
    requires
        is_prefix_of(p, s),
        is_prefix_of(q, s),
        encode_utf8(p).len() >= encode_utf8(q).len(),
    ensures
        q.len() <= p.len(),
        q.len() == p.len() ==> q == p,
        encode_utf8(p).len() == encode_utf8(q).len() ==> q == p,
{
    if q.len() > p.len() {
        let rest = q.subrange(p.len() as int, q.len() as int);
        assert(p + rest =~= q);
        lemma_encode_concat(p, rest);
        lemma_encode_len(rest);
    } else if q.len() == p.len() {
        assert(q =~= p);
    } else {
        let rest = p.subrange(q.len() as int, p.len() as int);
        assert(q + rest =~= p);
        lemma_encode_concat(q, rest);
        lemma_encode_len(rest);
    }
}

} // verus!
