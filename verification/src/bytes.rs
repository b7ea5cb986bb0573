//! Byte-string comparisons: equality, and the lexicographic order of slices.

use vstd::prelude::*;

verus! {

/// Lexicographic order on byte strings, as `<[u8] as Ord>` orders slices:
/// the first differing byte decides, and a proper prefix comes first.
pub open spec fn lex_lt(a: Seq<u8>, b: Seq<u8>) -> bool
    decreases a.len(),
{
    if a.len() == 0 {
        b.len() > 0
    } else if b.len() == 0 {
        false
    } else if a[0] != b[0] {
        a[0] < b[0]
    } else {
        lex_lt(a.drop_first(), b.drop_first())
    }
}

/// Unfolds `lex_lt` at a position `i` that both strings reach.
proof fn lemma_lex_lt_step(a: Seq<u8>, b: Seq<u8>, i: int)
    requires
        0 <= i < a.len(),
        i < b.len(),
    ensures
        lex_lt(a.skip(i), b.skip(i)) == if a[i] != b[i] {
            a[i] < b[i]
        } else {
            lex_lt(a.skip(i + 1), b.skip(i + 1))
        },
{
    assert(a.skip(i)[0] == a[i]);
    assert(b.skip(i)[0] == b[i]);
    assert(a.skip(i).drop_first() =~= a.skip(i + 1));
    assert(b.skip(i).drop_first() =~= b.skip(i + 1));
}

/// `lex_lt` is a strict total order on byte strings of any lengths: no
/// string comes before itself, and of two different strings exactly one
/// comes first.
pub proof fn lemma_lex_lt_total(a: Seq<u8>, b: Seq<u8>)
    ensures
        !lex_lt(a, a),
        a != b ==> (lex_lt(a, b) != lex_lt(b, a)),
    decreases a.len(),
{
    if a.len() > 0 {
        lemma_lex_lt_total(a.drop_first(), a.drop_first());
    }
    if a.len() == 0 || b.len() == 0 {
        if a.len() == 0 && b.len() == 0 {
            assert(a =~= b);
        }
    } else {
        lemma_lex_lt_total(a.drop_first(), b.drop_first());
        lemma_lex_lt_total(a.drop_first(), a.drop_first());
        if a != b && a[0] == b[0] {
            assert(a.drop_first() != b.drop_first()) by {
                if a.drop_first() == b.drop_first() {
                    assert(a.len() == b.len());
                    assert(a =~= b) by {
                        assert forall|k: int| 0 <= k < a.len() implies a[k] == b[k] by {
                            if k > 0 {
                                assert(a[k] == a.drop_first()[k - 1]);
                                assert(b[k] == b.drop_first()[k - 1]);
                            }
                        }
                    }
                }
            }
        }
    }
}

/// Whether two byte strings are equal.
pub fn bytes_eq(a: &[u8], b: &[u8]) -> (same: bool)
    ensures
        same == (a@ == b@),
{
    if a.len() != b.len() {
        return false;
    }
    let n = a.len();
    let mut i: usize = 0;
    while i < n
        invariant
            n == a@.len(),
            n == b@.len(),
            i <= n,
            forall|k: int| 0 <= k < i ==> a@[k] == b@[k],
        decreases n - i,
    {
        if a[i] != b[i] {
            return false;
        }
        i = i + 1;
    }
    assert(a@ =~= b@);
    true
}

/// Whether the byte string `a` comes before `b` in lexicographic order.
pub fn bytes_lt(a: &[u8], b: &[u8]) -> (before: bool)
    ensures
        before == lex_lt(a@, b@),
{
    let n = if a.len() < b.len() {
        a.len()
    } else {
        b.len()
    };
    let mut i: usize = 0;
    assert(a@.skip(0) =~= a@);
    assert(b@.skip(0) =~= b@);
    while i < n
        invariant
            n <= a@.len(),
            n <= b@.len(),
            n == a@.len() || n == b@.len(),
            i <= n,
            lex_lt(a@, b@) == lex_lt(a@.skip(i as int), b@.skip(i as int)),
        decreases n - i,
    {
        proof {
            lemma_lex_lt_step(a@, b@, i as int);
        }
        if a[i] != b[i] {
            return a[i] < b[i];
        }
        i = i + 1;
    }
    assert(a@.skip(i as int).len() == a@.len() - i);
    assert(b@.skip(i as int).len() == b@.len() - i);
    a.len() < b.len()
}

} // verus!
