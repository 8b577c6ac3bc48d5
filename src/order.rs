//! Lexicographic order on byte strings, the order in which the store keeps its keys.
use vstd::prelude::*;

verus! {

/// `a` sorts strictly before `b` when compared byte by byte, a proper prefix
/// sorting first.
pub open spec fn lex_lt(a: Seq<u8>, b: Seq<u8>) -> bool
    decreases a.len(),
{
    if b.len() == 0 {
        false
    } else if a.len() == 0 {
        true
    } else if a[0] != b[0] {
        a[0] < b[0]
    } else {
        lex_lt(a.drop_first(), b.drop_first())
    }
}

/// `k` is a key of `m` and every other key of `m` sorts before it.
pub open spec fn is_greatest_key(m: Map<Seq<u8>, Seq<u8>>, k: Seq<u8>) -> bool {
    &&& m.contains_key(k)
    &&& forall|k2: Seq<u8>| #[trigger] m.contains_key(k2) && k2 != k ==> lex_lt(k2, k)
}

/// Two byte strings never sort before each other.
pub proof fn lemma_lex_lt_asymmetric(a: Seq<u8>, b: Seq<u8>)
    ensures
        !(lex_lt(a, b) && lex_lt(b, a)),
    decreases a.len(),
{
    if a.len() > 0 && b.len() > 0 && a[0] == b[0] {
        lemma_lex_lt_asymmetric(a.drop_first(), b.drop_first());
    }
}

/// A map has at most one greatest key.
pub proof fn lemma_greatest_key_unique(m: Map<Seq<u8>, Seq<u8>>, a: Seq<u8>, b: Seq<u8>)
    requires
        is_greatest_key(m, a),
        is_greatest_key(m, b),
    ensures
        a == b,
{
    if a != b {
        assert(m.contains_key(b) && m.contains_key(a));
        lemma_lex_lt_asymmetric(a, b);
    }
}

} // verus!
