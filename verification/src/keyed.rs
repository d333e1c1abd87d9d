//! Collections of records that are looked up by a textual key.
//!
//! Every context of the apps keeps lists of records (orders, commerces,
//! ratings, favorites, addresses) that it finds, replaces and drops by a key
//! such as an order id or a public key. The lookup is always "the first
//! record with that key", as `Iterator::find` and `position` give it.

use vstd::prelude::*;

verus! {

/// A record that carries a textual key.
pub trait Keyed {
    /// The key of the record, as characters.
    spec fn key_of(&self) -> Seq<char>;

    /// Borrows the key.
    fn key(&self) -> (k: &String)
        ensures
            k@ == self.key_of(),
    ;
}

/// `i` is the first position of `s` whose record has key `k`.
pub open spec fn is_first<E: Keyed>(s: Seq<E>, k: Seq<char>, i: int) -> bool {
    &&& 0 <= i < s.len()
    &&& s[i].key_of() == k
    &&& forall|j: int| 0 <= j < i ==> #[trigger] s[j].key_of() != k
}

/// No record of `s` has key `k`.
pub open spec fn lacks_key<E: Keyed>(s: Seq<E>, k: Seq<char>) -> bool {
    forall|j: int| 0 <= j < s.len() ==> #[trigger] s[j].key_of() != k
}

/// The first record of `s` with key `k`, if any.
pub open spec fn lookup<E: Keyed>(s: Seq<E>, k: Seq<char>) -> Option<E>
    decreases s.len(),
{
    if s.len() == 0 {
        None
    } else {
        let r = lookup(s.drop_last(), k);
        if r is Some {
            r
        } else if s.last().key_of() == k {
            Some(s.last())
        } else {
            None
        }
    }
}

/// The test "the record's key is not `k`".
pub open spec fn key_differs<E: Keyed>(k: Seq<char>) -> spec_fn(E) -> bool {
    |e: E| e.key_of() != k
}

/// `s` without the records whose key is `k`, in their order.
pub open spec fn without_key<E: Keyed>(s: Seq<E>, k: Seq<char>) -> Seq<E> {
    s.filter(key_differs(k))
}

/// The result of inserting `e` into `s` so that it replaces every record with
/// its key: the others keep their order, and `e` comes last.
pub open spec fn upserted<E: Keyed>(s: Seq<E>, e: E) -> Seq<E> {
    without_key(s, e.key_of()).push(e)
}

/// The result of putting `e` in the place of the first record with its key,
/// or at the end when there is none.
pub open spec fn replaced_or_pushed<E: Keyed>(s: Seq<E>, e: E) -> Seq<E> {
    if exists|i: int| is_first(s, e.key_of(), i) {
        s.update(choose|i: int| is_first(s, e.key_of(), i), e)
    } else {
        s.push(e)
    }
}

/// `lookup` gives the record at the first position with the key, and
/// `None` exactly when no record has it.
pub proof fn lemma_lookup<E: Keyed>(s: Seq<E>, k: Seq<char>)
    ensures
        lookup(s, k) is None <==> lacks_key(s, k),
        forall|i: int| is_first(s, k, i) ==> lookup(s, k) == Some(s[i]),
        lookup(s, k) is Some ==> exists|i: int| is_first(s, k, i),
    decreases s.len(),
{
    if s.len() > 0 {
        let p = s.drop_last();
        lemma_lookup(p, k);
        assert forall|i: int| is_first(s, k, i) implies lookup(s, k) == Some(s[i]) by {
            if i < s.len() - 1 {
                assert forall|j: int| 0 <= j < i implies #[trigger] p[j].key_of() != k by {
                    assert(s[j].key_of() != k);
                }
                assert(is_first(p, k, i));
            } else {
                assert(lacks_key(p, k)) by {
                    assert forall|j: int| 0 <= j < p.len() implies #[trigger] p[j].key_of() != k by {
                        assert(s[j].key_of() != k);
                    }
                }
            }
        }
        if lookup(p, k) is Some {
            let i = choose|i: int| is_first(p, k, i);
            assert forall|j: int| 0 <= j < i implies #[trigger] s[j].key_of() != k by {
                assert(p[j].key_of() != k);
            }
            assert(is_first(s, k, i));
        } else if s.last().key_of() == k {
            assert forall|j: int| 0 <= j < s.len() - 1 implies #[trigger] s[j].key_of() != k by {
                assert(p[j].key_of() != k);
            }
            assert(is_first(s, k, s.len() - 1));
        } else {
            assert(lacks_key(s, k)) by {
                assert forall|j: int| 0 <= j < s.len() implies #[trigger] s[j].key_of() != k by {
                    if j < s.len() - 1 {
                        assert(p[j].key_of() != k);
                    }
                }
            }
        }
        if lacks_key(s, k) {
            assert(lacks_key(p, k)) by {
                assert forall|j: int| 0 <= j < p.len() implies #[trigger] p[j].key_of() != k by {
                    assert(s[j].key_of() != k);
                }
            }
        }
    }
}

/// Two first positions of the same key coincide.
pub proof fn lemma_first_unique<E: Keyed>(s: Seq<E>, k: Seq<char>, i: int, j: int)
    requires
        is_first(s, k, i),
        is_first(s, k, j),
    ensures
        i == j,
{
    if i < j {
        assert(s[i].key_of() != k);
    } else if j < i {
        assert(s[j].key_of() != k);
    }
}

/// Dropping the records of key `k` leaves none with that key, and leaves the
/// first record of every other key where a lookup finds it.
pub proof fn lemma_without_key<E: Keyed>(s: Seq<E>, k: Seq<char>)
    ensures
        lacks_key(without_key(s, k), k),
        forall|k2: Seq<char>| k2 != k ==> #[trigger] lookup(without_key(s, k), k2) == lookup(s, k2),
        without_key(s, k).len() <= s.len(),
    decreases s.len(),
{
    reveal(Seq::filter);
    let pred = key_differs::<E>(k);
    let w = without_key(s, k);
    s.lemma_filter_len(pred);
    assert forall|j: int| 0 <= j < w.len() implies #[trigger] w[j].key_of() != k by {
        s.lemma_filter_pred(pred, j);
    }
    if s.len() > 0 {
        let p = s.drop_last();
        lemma_without_key(p, k);
        assert(without_key(p, k) == p.filter(pred));
        assert forall|k2: Seq<char>| k2 != k implies #[trigger] lookup(without_key(s, k), k2) == lookup(s, k2) by {
            let wp = without_key(p, k);
            assert(lookup(wp, k2) == lookup(p, k2));
            if pred(s.last()) {
                assert(w == wp.push(s.last()));
                assert(w.drop_last() == wp);
            } else {
                assert(w == wp);
                if lookup(p, k2) is None {
                    lemma_lookup(p, k2);
                    lemma_lookup(wp, k2);
                }
            }
        }
    }
}

/// Dropping a key that no record has leaves the sequence as it is.
pub proof fn lemma_without_absent_key<E: Keyed>(s: Seq<E>, k: Seq<char>)
    requires
        lacks_key(s, k),
    ensures
        without_key(s, k) == s,
    decreases s.len(),
{
    reveal(Seq::filter);
    if s.len() > 0 {
        lemma_without_absent_key(s.drop_last(), k);
        assert(s.drop_last().push(s.last()) == s);
    }
}

/// Taking out one record of key `k` first does not change what dropping
/// every record of that key leaves.
pub proof fn lemma_without_key_remove<E: Keyed>(s: Seq<E>, k: Seq<char>, i: int)
    requires
        0 <= i < s.len(),
        s[i].key_of() == k,
    ensures
        without_key(s.remove(i), k) == without_key(s, k),
{
    let pred = key_differs::<E>(k);
    let a = s.subrange(0, i);
    let b = s.subrange(i + 1, s.len() as int);
    assert(s == a + seq![s[i]] + b);
    assert(s.remove(i) == a + b);
    Seq::filter_distributes_over_add(a, b, pred);
    Seq::filter_distributes_over_add(a + seq![s[i]], b, pred);
    Seq::filter_distributes_over_add(a, seq![s[i]], pred);
    reveal_with_fuel(Seq::filter, 2);
    assert(seq![s[i]].drop_last() == Seq::<E>::empty());
    assert(seq![s[i]].filter(pred) == Seq::<E>::empty());
}

/// After an upsert, a lookup of the inserted key finds the new record and a
/// lookup of any other key finds what it found before.
pub proof fn lemma_upserted<E: Keyed>(s: Seq<E>, e: E)
    ensures
        lookup(upserted(s, e), e.key_of()) == Some(e),
        forall|k2: Seq<char>| k2 != e.key_of() ==> #[trigger] lookup(upserted(s, e), k2) == lookup(s, k2),
        forall|i: int| 0 <= i < upserted(s, e).len() - 1 ==> #[trigger] upserted(s, e)[i].key_of() != e.key_of(),
{
    let k = e.key_of();
    let w = without_key(s, k);
    let u = upserted(s, e);
    lemma_without_key(s, k);
    lemma_lookup(w, k);
    assert(u.drop_last() == w);
    assert forall|k2: Seq<char>| k2 != k implies #[trigger] lookup(u, k2) == lookup(s, k2) by {
        assert(lookup(w, k2) == lookup(s, k2));
        if lookup(w, k2) is None {
            lemma_lookup(w, k2);
        }
    }
    assert forall|i: int| 0 <= i < u.len() - 1 implies #[trigger] u[i].key_of() != k by {
        assert(u[i] == w[i]);
    }
}

/// After a replace-or-push, a lookup of the written key finds the new
/// record and a lookup of any other key finds what it found before.
pub proof fn lemma_replaced_or_pushed<E: Keyed>(s: Seq<E>, e: E)
    ensures
        lookup(replaced_or_pushed(s, e), e.key_of()) == Some(e),
        forall|k2: Seq<char>| k2 != e.key_of() ==> #[trigger] lookup(replaced_or_pushed(s, e), k2) == lookup(s, k2),
        replaced_or_pushed(s, e).len() == s.len() + (if lacks_key(s, e.key_of()) { 1int } else { 0int }),
{
    let k = e.key_of();
    let r = replaced_or_pushed(s, e);
    lemma_lookup(s, k);
    if exists|i: int| is_first(s, k, i) {
        let i = choose|i: int| is_first(s, k, i);
        assert(is_first(r, k, i));
        lemma_lookup(r, k);
        assert forall|k2: Seq<char>| k2 != k implies #[trigger] lookup(r, k2) == lookup(s, k2) by {
            lemma_lookup(s, k2);
            lemma_lookup(r, k2);
            if lookup(s, k2) is Some {
                let i2 = choose|i2: int| is_first(s, k2, i2);
                assert(is_first(r, k2, i2));
            } else {
                assert(lacks_key(r, k2));
            }
        }
    } else {
        assert(lacks_key(s, k));
        assert(r.drop_last() == s);
        assert forall|k2: Seq<char>| k2 != k implies #[trigger] lookup(r, k2) == lookup(s, k2) by {
            if lookup(s, k2) is None {
                lemma_lookup(s, k2);
            }
        }
    }
}

/// The position of the first record of `v` whose key is `k`.
pub fn position_of_key<E: Keyed>(v: &Vec<E>, k: &String) -> (r: Option<usize>)
    ensures
        match r {
            Some(i) => is_first(v@, k@, i as int),
            None => lacks_key(v@, k@),
        },
{
    let mut i: usize = 0;
    while i < v.len()
        invariant
            i <= v.len(),
            forall|j: int| 0 <= j < i ==> #[trigger] v@[j].key_of() != k@,
        decreases v.len() - i,
    {
        if v[i].key().eq(k) {
            return Some(i);
        }
        i += 1;
    }
    None
}

/// The first record of `v` whose key is `k`.
pub fn find_by_key<'a, E: Keyed>(v: &'a Vec<E>, k: &String) -> (r: Option<&'a E>)
    ensures
        match r {
            Some(e) => lookup(v@, k@) == Some(*e),
            None => lookup(v@, k@) is None,
        },
{
    proof {
        lemma_lookup(v@, k@);
    }
    match position_of_key(v, k) {
        Some(i) => Some(&v[i]),
        None => None,
    }
}

/// Whether some record of `v` has key `k`.
pub fn contains_key<E: Keyed>(v: &Vec<E>, k: &String) -> (r: bool)
    ensures
        r == (lookup(v@, k@) is Some),
        r == !lacks_key(v@, k@),
{
    proof {
        lemma_lookup(v@, k@);
    }
    position_of_key(v, k).is_some()
}

/// Drops every record of `v` whose key is `k`.
pub fn remove_key<E: Keyed>(v: &mut Vec<E>, k: &String)
    ensures
        final(v)@ == without_key(old(v)@, k@),
{
    let ghost s = old(v)@;
    let ghost pred = key_differs::<E>(k@);
    let mut i: usize = 0;
    let ghost mut j: int = 0;
    while i < v.len()
        invariant
            0 <= j <= s.len(),
            i <= v.len(),
            pred == key_differs::<E>(k@),
            v@ == s.subrange(0, j).filter(pred) + s.subrange(j, s.len() as int),
            i == s.subrange(0, j).filter(pred).len(),
        decreases v.len() - i,
    {
        proof {
            reveal(Seq::filter);
        }
        let ghost f = s.subrange(0, j).filter(pred);
        assert(s.subrange(0, j + 1).drop_last() == s.subrange(0, j));
        assert(s.subrange(0, j + 1).last() == s[j]);
        assert(v@[i as int] == s[j]);
        if v[i].key().eq(k) {
            v.remove(i);
            assert(s.subrange(0, j + 1).filter(pred) == f);
            assert(v@ == f + s.subrange(j + 1, s.len() as int));
        } else {
            assert(s.subrange(0, j + 1).filter(pred) == f.push(s[j]));
            assert(v@ == f.push(s[j]) + s.subrange(j + 1, s.len() as int));
            i += 1;
        }
        proof {
            j = j + 1;
        }
    }
    assert(j == s.len()) by {
        assert(s.subrange(j, s.len() as int).len() == 0);
    }
    assert(s.subrange(0, s.len() as int) == s);
    assert(v@ == s.filter(pred));
}

/// Inserts `e`, first dropping every record that has its key.
pub fn upsert<E: Keyed>(v: &mut Vec<E>, e: E)
    ensures
        final(v)@ == upserted(old(v)@, e),
{
    let k = e.key().clone();
    remove_key(v, &k);
    v.push(e);
}

/// Writes `e` over the first record that has its key, or appends it.
pub fn replace_or_push<E: Keyed>(v: &mut Vec<E>, e: E)
    ensures
        final(v)@ == replaced_or_pushed(old(v)@, e),
{
    let k = e.key().clone();
    match position_of_key(v, &k) {
        Some(i) => {
            proof {
                let c = choose|c: int| is_first(old(v)@, e.key_of(), c);
                lemma_first_unique(old(v)@, e.key_of(), c, i as int);
            }
            v.set(i, e);
        },
        None => {
            v.push(e);
        },
    }
}

/// The records that a list of borrowed records points to.
pub open spec fn deref_all<E>(s: Seq<&E>) -> Seq<E> {
    s.map_values(|x: &E| *x)
}

/// A filter that keeps every item leaves the sequence as it is.
pub proof fn lemma_filter_keeps_all<E>(s: Seq<E>, pred: spec_fn(E) -> bool)
    requires
        forall|i: int| 0 <= i < s.len() ==> pred(#[trigger] s[i]),
    ensures
        s.filter(pred) == s,
    decreases s.len(),
{
    reveal(Seq::filter);
    if s.len() > 0 {
        lemma_filter_keeps_all(s.drop_last(), pred);
        assert(s.drop_last().push(s.last()) == s);
    }
}

/// A test on items that a list view makes, and how it is made.
pub trait Selection<E> {
    /// Whether the test keeps `e`.
    spec fn keeps(&self, e: E) -> bool;

    /// Makes the test.
    fn picks(&self, e: &E) -> (b: bool)
        ensures
            b == self.keeps(*e),
    ;
}

/// The test "`sel` keeps the item".
pub open spec fn kept_by<E, S: Selection<E>>(sel: S) -> spec_fn(E) -> bool {
    |e: E| sel.keeps(e)
}

/// The items of `v` that `sel` keeps, in their order.
pub(crate) fn select_refs<'a, E, S: Selection<E>>(v: &'a Vec<E>, sel: &S) -> (r: Vec<&'a E>)
    ensures
        deref_all(r@) == v@.filter(kept_by::<E, S>(*sel)),
{
    let ghost pred = kept_by::<E, S>(*sel);
    let mut out: Vec<&'a E> = Vec::new();
    let mut i: usize = 0;
    while i < v.len()
        invariant
            i <= v.len(),
            pred == kept_by::<E, S>(*sel),
            deref_all(out@) == v@.subrange(0, i as int).filter(pred),
        decreases v.len() - i,
    {
        proof {
            reveal(Seq::filter);
        }
        let ghost f = v@.subrange(0, i as int).filter(pred);
        assert(v@.subrange(0, i + 1).drop_last() == v@.subrange(0, i as int));
        assert(v@.subrange(0, i + 1).last() == v@[i as int]);
        let e = &v[i];
        if sel.picks(e) {
            out.push(e);
            assert(deref_all(out@) == f.push(v@[i as int]));
        } else {
            assert(deref_all(out@) == f);
        }
        i += 1;
    }
    assert(v@.subrange(0, v@.len() as int) == v@);
    out
}

/// The items of `v` that `sel` keeps, in their order, taken out of `v`.
pub(crate) fn keep_owned<E, S: Selection<E>>(v: Vec<E>, sel: &S) -> (r: Vec<E>)
    ensures
        r@ == v@.filter(kept_by::<E, S>(*sel)),
{
    let ghost s = v@;
    let ghost pred = kept_by::<E, S>(*sel);
    let total = v.len();
    let mut rest = v;
    let mut out: Vec<E> = Vec::new();
    let mut i: usize = 0;
    while rest.len() > 0
        invariant
            s.len() == total,
            i <= s.len(),
            pred == kept_by::<E, S>(*sel),
            rest@ == s.subrange(i as int, s.len() as int),
            out@ == s.subrange(0, i as int).filter(pred),
        decreases rest.len(),
    {
        proof {
            reveal(Seq::filter);
        }
        assert(s.subrange(0, i + 1).drop_last() == s.subrange(0, i as int));
        assert(s.subrange(0, i + 1).last() == s[i as int]);
        let e = rest.remove(0);
        if sel.picks(&e) {
            out.push(e);
        }
        i += 1;
        assert(rest@ == s.subrange(i as int, s.len() as int));
    }
    assert(s.subrange(0, s.len() as int) == s);
    out
}

/// Keeps the records whose key is (or, with `listed` false, is not) one of
/// the strings of `list`.
struct ListedIn<'b> {
    list: &'b Vec<String>,
    listed: bool,
}

impl<'b, E: Keyed> Selection<E> for ListedIn<'b> {
    closed spec fn keeps(&self, e: E) -> bool {
        crate::model::strings_view(self.list@).contains(e.key_of()) == self.listed
    }

    fn picks(&self, e: &E) -> (b: bool) {
        crate::model::list_contains(self.list, e.key()) == self.listed
    }
}

/// The test "the record's key is in `list`" when `listed`, and "is not in
/// `list`" otherwise.
pub open spec fn listed_as<E: Keyed>(list: Seq<Seq<char>>, listed: bool) -> spec_fn(E) -> bool {
    |e: E| list.contains(e.key_of()) == listed
}

/// The records of `v` whose key is (`listed`) or is not (`!listed`) one of
/// the strings of `list`, in their order.
pub fn select_by_list<'a, E: Keyed>(v: &'a Vec<E>, list: &Vec<String>, listed: bool) -> (r: Vec<&'a E>)
    ensures
        deref_all(r@) == v@.filter(listed_as::<E>(crate::model::strings_view(list@), listed)),
{
    let sel = ListedIn { list, listed };
    let r = select_refs(v, &sel);
    assert(kept_by::<E, ListedIn>(sel) =~= listed_as::<E>(crate::model::strings_view(list@), listed));
    r
}

} // verus!
