//! What a stable sort gives back: the same items, ordered by a key, and the
//! items of each key in the order they came in.

use vstd::prelude::*;

verus! {

/// `lt` is a strict total order: irreflexive, transitive, and any two
/// different keys are ordered one way or the other.
pub open spec fn strict_total_order<K>(lt: spec_fn(K, K) -> bool) -> bool {
    &&& forall|a: K| !#[trigger] lt(a, a)
    &&& forall|a: K, b: K, c: K| #[trigger] lt(a, b) && #[trigger] lt(b, c) ==> lt(a, c)
    &&& forall|a: K, b: K| a != b ==> #[trigger] lt(a, b) || #[trigger] lt(b, a)
}

/// No item of `s` has a key that goes strictly before the key of an item
/// ahead of it.
pub open spec fn sorted_by<E, K>(s: Seq<E>, key: spec_fn(E) -> K, lt: spec_fn(K, K) -> bool) -> bool {
    forall|i: int, j: int| 0 <= i < j < s.len() ==> !lt(key(#[trigger] s[j]), key(#[trigger] s[i]))
}

/// The test "the item's key is `k`".
pub open spec fn with_key<E, K>(key: spec_fn(E) -> K, k: K) -> spec_fn(E) -> bool {
    |e: E| key(e) == k
}

/// `r` is `s` sorted stably by `key` in the order `lt`: the same items,
/// sorted, and for every key the items of that key in the same order.
pub open spec fn stably_sorted<E, K>(r: Seq<E>, s: Seq<E>, key: spec_fn(E) -> K, lt: spec_fn(K, K) -> bool) -> bool {
    &&& r.to_multiset() == s.to_multiset()
    &&& sorted_by(r, key, lt)
    &&& forall|k: K| #[trigger] r.filter(with_key(key, k)) == s.filter(with_key(key, k))
}

/// Inserting `x` into a sorted sequence just before the first item whose key
/// comes after its own keeps the sequence sorted, and puts `x` last among
/// the items of its key.
pub proof fn lemma_insert_sorted<E, K>(s: Seq<E>, p: int, x: E, key: spec_fn(E) -> K, lt: spec_fn(K, K) -> bool)
    requires
        strict_total_order(lt),
        sorted_by(s, key, lt),
        0 <= p <= s.len(),
        forall|q: int| 0 <= q < p ==> !lt(key(x), key(#[trigger] s[q])),
        p < s.len() ==> lt(key(x), key(s[p])),
    ensures
        sorted_by(s.insert(p, x), key, lt),
        forall|k: K| #[trigger] s.insert(p, x).filter(with_key(key, k)) == if key(x) == k {
            s.filter(with_key(key, k)).push(x)
        } else {
            s.filter(with_key(key, k))
        },
{
    let t = s.insert(p, x);
    // Every item from `p` on has a key strictly after that of `x`.
    assert forall|q: int| p <= q < s.len() implies lt(key(x), key(#[trigger] s[q])) by {
        if q > p {
            let kp = key(s[p]);
            let kq = key(s[q]);
            assert(!lt(kq, kp));
            if kp != kq {
                assert(lt(kp, kq) || lt(kq, kp));
                assert(lt(key(x), kp) && lt(kp, kq));
            }
        }
    }
    assert forall|i: int, j: int| 0 <= i < j < t.len() implies !lt(key(#[trigger] t[j]), key(#[trigger] t[i])) by {
        if j < p {
            assert(t[i] == s[i] && t[j] == s[j]);
        } else if j == p {
            assert(t[i] == s[i] && t[j] == x);
            // key(s[i]) <= key(x): otherwise x would come before s[i]
            let ki = key(s[i]);
            let kx = key(x);
            if lt(kx, ki) {
                assert(!lt(kx, ki));
            }
        } else if i < p {
            assert(t[i] == s[i] && t[j] == s[j - 1]);
        } else if i == p {
            assert(t[i] == x && t[j] == s[j - 1]);
            let kx = key(x);
            let kj = key(s[j - 1]);
            assert(lt(kx, kj));
            if lt(kj, kx) {
                assert(lt(kx, kx));
            }
        } else {
            assert(t[i] == s[i - 1] && t[j] == s[j - 1]);
        }
    }
    let a = s.subrange(0, p);
    let b = s.subrange(p, s.len() as int);
    assert(s == a + b);
    assert(t == a + seq![x] + b);
    assert forall|k: K| #[trigger] t.filter(with_key(key, k)) == if key(x) == k {
        s.filter(with_key(key, k)).push(x)
    } else {
        s.filter(with_key(key, k))
    } by {
        let f = with_key(key, k);
        Seq::filter_distributes_over_add(a, b, f);
        Seq::filter_distributes_over_add(a + seq![x], b, f);
        Seq::filter_distributes_over_add(a, seq![x], f);
        reveal_with_fuel(Seq::filter, 2);
        assert(seq![x].drop_last() == Seq::<E>::empty());
        if key(x) == k {
            assert forall|q: int| 0 <= q < b.len() implies !f(#[trigger] b[q]) by {
                assert(b[q] == s[p + q]);
                assert(lt(key(x), key(s[p + q])));
                if key(s[p + q]) == k {
                    assert(lt(k, k));
                }
            }
            b.lemma_all_neg_filter_empty(f);
            assert(b.filter(f) == Seq::<E>::empty());
            assert(seq![x].filter(f) == seq![x]);
            assert(t.filter(f) == a.filter(f) + seq![x]);
            assert(s.filter(f) == a.filter(f));
        } else {
            assert(seq![x].filter(f) == Seq::<E>::empty());
            assert(t.filter(f) == a.filter(f) + b.filter(f));
        }
    }
}

} // verus!
