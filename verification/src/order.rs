//! The order of keys: byte strings compared position by position, a proper
//! prefix before what extends it.

use vstd::prelude::*;

verus! {

/// Whether `a` comes strictly before `b`.
pub open spec fn lex_lt(a: Seq<u8>, b: Seq<u8>) -> bool
    decreases a.len(),
{
    if b.len() == 0 {
        false
    } else if a.len() == 0 {
        true
    } else if a[0] != b[0] {
        a[0] < b[0]
    } else {
        lex_lt(a.drop_first(), b.drop_first())
    }
}

/// Whether each key comes strictly before the next.
pub open spec fn ascending(keys: Seq<Seq<u8>>) -> bool {
    forall|i: int, j: int| 0 <= i < j < keys.len() ==> lex_lt(#[trigger] keys[i], #[trigger] keys[j])
}

/// How many keys at the front of `keys` come strictly before `bound`. Among
/// ascending keys this is the position of the first key at or after `bound`.
pub open spec fn rank(keys: Seq<Seq<u8>>, bound: Seq<u8>) -> nat
    decreases keys.len(),
{
    if keys.len() == 0 {
        0
    } else if lex_lt(keys[0], bound) {
        1 + rank(keys.drop_first(), bound)
    } else {
        0
    }
}

/// No key comes before itself.
pub proof fn lemma_lex_irreflexive(a: Seq<u8>)
    ensures
        !lex_lt(a, a),
    decreases a.len(),
{
    if a.len() > 0 {
        lemma_lex_irreflexive(a.drop_first());
    }
}

/// Of two different keys one comes before the other.
pub proof fn lemma_lex_total(a: Seq<u8>, b: Seq<u8>)
    ensures
        lex_lt(a, b) || lex_lt(b, a) || a == b,
    decreases a.len(),
{
    if a.len() > 0 && b.len() > 0 && a[0] == b[0] {
        lemma_lex_total(a.drop_first(), b.drop_first());
        if a.drop_first() == b.drop_first() {
            assert(a =~= seq![a[0]] + a.drop_first());
            assert(b =~= seq![b[0]] + b.drop_first());
        }
    } else if a.len() == 0 && b.len() == 0 {
        assert(a =~= b);
    }
}

/// No two keys come before each other.
pub proof fn lemma_lex_asymmetric(a: Seq<u8>, b: Seq<u8>)
    ensures
        !(lex_lt(a, b) && lex_lt(b, a)),
    decreases a.len(),
{
    if a.len() > 0 && b.len() > 0 && a[0] == b[0] {
        lemma_lex_asymmetric(a.drop_first(), b.drop_first());
    }
}

/// What comes before a key comes before all that the key comes before.
pub proof fn lemma_lex_transitive(a: Seq<u8>, b: Seq<u8>, c: Seq<u8>)
    requires
        lex_lt(a, b),
        lex_lt(b, c),
    ensures
        lex_lt(a, c),
    decreases a.len(),
{
    if a.len() > 0 && a[0] == b[0] && b[0] == c[0] {
        lemma_lex_transitive(a.drop_first(), b.drop_first(), c.drop_first());
    }
}

/// A key followed by a zero byte is the least key after it: what comes before
/// the longer one is the key itself or comes before the key.
pub proof fn lemma_lex_successor(x: Seq<u8>, k: Seq<u8>)
    ensures
        lex_lt(x, k.push(0)) <==> (lex_lt(x, k) || x == k),
    decreases x.len(),
{
    let s = k.push(0);
    if x.len() == 0 {
        if k.len() == 0 {
            assert(x =~= k);
        }
    } else if k.len() == 0 {
        assert(s[0] == 0);
        assert(s.drop_first().len() == 0);
        assert(!lex_lt(x.drop_first(), s.drop_first()));
        assert(!lex_lt(x, k));
    } else {
        assert(s[0] == k[0]);
        assert(s.drop_first() =~= k.drop_first().push(0));
        if x[0] == k[0] {
            lemma_lex_successor(x.drop_first(), k.drop_first());
            if x.drop_first() == k.drop_first() {
                assert(x =~= seq![x[0]] + x.drop_first());
                assert(k =~= seq![k[0]] + k.drop_first());
            }
        }
    }
}

/// Among ascending keys, the rank of a bound is the one position that has
/// only smaller keys before it and no smaller key at it.
pub proof fn lemma_rank_is(keys: Seq<Seq<u8>>, bound: Seq<u8>, p: int)
    requires
        0 <= p <= keys.len(),
        forall|j: int| 0 <= j < p ==> lex_lt(#[trigger] keys[j], bound),
        p < keys.len() ==> !lex_lt(keys[p], bound),
    ensures
        rank(keys, bound) == p,
    decreases keys.len(),
{
    if keys.len() > 0 && p > 0 {
        let rest = keys.drop_first();
        assert(lex_lt(keys[0], bound));
        assert forall|j: int| 0 <= j < p - 1 implies lex_lt(#[trigger] rest[j], bound) by {
            assert(rest[j] == keys[j + 1]);
        }
        if p - 1 < rest.len() {
            assert(rest[p - 1] == keys[p]);
        }
        lemma_rank_is(rest, bound, p - 1);
    }
}

/// The rank is a position of the sequence, with smaller keys before it and
/// none at it.
pub proof fn lemma_rank_bounds(keys: Seq<Seq<u8>>, bound: Seq<u8>)
    ensures
        rank(keys, bound) <= keys.len(),
        forall|j: int| 0 <= j < rank(keys, bound) ==> lex_lt(#[trigger] keys[j], bound),
        rank(keys, bound) < keys.len() ==> !lex_lt(keys[rank(keys, bound) as int], bound),
    decreases keys.len(),
{
    if keys.len() > 0 && lex_lt(keys[0], bound) {
        let rest = keys.drop_first();
        lemma_rank_bounds(rest, bound);
        assert forall|j: int| 0 <= j < rank(keys, bound) implies lex_lt(#[trigger] keys[j], bound) by {
            if j > 0 {
                assert(keys[j] == rest[j - 1]);
            }
        }
        if rank(keys, bound) < keys.len() {
            assert(keys[rank(keys, bound) as int] == rest[rank(rest, bound) as int]);
        }
    }
}

/// Whether the first byte string comes strictly before the second.
pub fn bytes_lt(a: &[u8], b: &[u8]) -> (r: bool)
    ensures
        r == lex_lt(a@, b@),
{
    let mut i: usize = 0;
    proof {
        assert(a@.skip(0) =~= a@);
        assert(b@.skip(0) =~= b@);
    }
    while i < a.len() && i < b.len()
        invariant
            i <= a.len(),
            i <= b.len(),
            lex_lt(a@, b@) == lex_lt(a@.skip(i as int), b@.skip(i as int)),
        decreases a.len() - i,
    {
        proof {
            assert(a@.skip(i as int)[0] == a@[i as int]);
            assert(b@.skip(i as int)[0] == b@[i as int]);
            assert(a@.skip(i as int).drop_first() =~= a@.skip(i + 1));
            assert(b@.skip(i as int).drop_first() =~= b@.skip(i + 1));
        }
        if a[i] != b[i] {
            return a[i] < b[i];
        }
        i += 1;
    }
    proof {
        assert(a@.skip(i as int).len() == a.len() - i);
        assert(b@.skip(i as int).len() == b.len() - i);
    }
    i < b.len()
}

} // verus!
