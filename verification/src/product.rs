//! Products, the product order a cart holds, and the menus that commerces
//! publish.

use vstd::prelude::*;
use crate::keyed::{Keyed, is_first, lacks_key, lookup, position_of_key, remove_key, without_key,
    lemma_lookup, lemma_first_unique};

verus! {

/// A product: its id, name and price as published, and the product record.
#[derive(Clone, Debug)]
pub struct ProductItem<P> {
    pub id: String,
    pub name: String,
    pub price: String,
    pub data: P,
}

/// Products are looked up by their id.
impl<P> Keyed for ProductItem<P> {
    open spec fn key_of(&self) -> Seq<char> {
        self.id@
    }

    fn key(&self) -> (k: &String) {
        &self.id
    }
}

/// How many items of `s` have id `k`.
pub open spec fn count_id<P>(s: Seq<ProductItem<P>>, k: Seq<char>) -> nat
    decreases s.len(),
{
    if s.len() == 0 {
        0
    } else {
        count_id(s.drop_last(), k) + if s.last().id@ == k {
            1nat
        } else {
            0nat
        }
    }
}

/// `s` without its first item of id `k`; `s` itself when it has none.
pub open spec fn removed_one<P>(s: Seq<ProductItem<P>>, k: Seq<char>) -> Seq<ProductItem<P>> {
    if exists|i: int| is_first(s, k, i) {
        s.remove(choose|i: int| is_first(s, k, i))
    } else {
        s
    }
}

/// The ids of `s`, each once, in the order of their first item.
pub open spec fn distinct_ids<P>(s: Seq<ProductItem<P>>) -> Seq<Seq<char>>
    decreases s.len(),
{
    if s.len() == 0 {
        Seq::empty()
    } else {
        let d = distinct_ids(s.drop_last());
        if d.contains(s.last().id@) {
            d
        } else {
            d.push(s.last().id@)
        }
    }
}

/// Removing the item at `i` takes one from the count of its id alone.
pub proof fn lemma_count_remove<P>(s: Seq<ProductItem<P>>, i: int, k: Seq<char>)
    requires
        0 <= i < s.len(),
    ensures
        count_id(s.remove(i), k) + (if s[i].id@ == k { 1nat } else { 0nat }) == count_id(s, k),
    decreases s.len(),
{
    let r = s.remove(i);
    if i == s.len() - 1 {
        assert(r == s.drop_last());
    } else {
        assert(r.drop_last() == s.drop_last().remove(i));
        assert(r.last() == s.last());
        lemma_count_remove(s.drop_last(), i, k);
    }
}

/// An id that no item has is counted zero times.
pub proof fn lemma_count_absent<P>(s: Seq<ProductItem<P>>, k: Seq<char>)
    requires
        lacks_key(s, k),
    ensures
        count_id(s, k) == 0,
    decreases s.len(),
{
    if s.len() > 0 {
        assert(lacks_key(s.drop_last(), k)) by {
            assert forall|j: int| 0 <= j < s.drop_last().len() implies #[trigger] s.drop_last()[j].key_of() != k by {
                assert(s[j].key_of() != k);
            }
        }
        lemma_count_absent(s.drop_last(), k);
        assert(s.last().key_of() != k);
    }
}

/// The products a cart holds, one item per unit, in the order they were
/// added.
#[derive(Clone, Debug)]
pub struct ProductOrder<P> {
    pub products: Vec<ProductItem<P>>,
}

impl<P> ProductOrder<P> {
    /// An order holding `products`.
    pub fn new(products: Vec<ProductItem<P>>) -> (r: Self)
        ensures
            r.products@ == products@,
    {
        ProductOrder { products }
    }

    /// Whether the order holds nothing.
    pub fn is_empty(&self) -> (r: bool)
        ensures
            r == (self.products@.len() == 0),
    {
        self.products.len() == 0
    }

    /// The items, one per unit.
    pub fn products(&self) -> (r: &Vec<ProductItem<P>>)
        ensures
            r@ == self.products@,
    {
        &self.products
    }

    /// Adds one unit of a product.
    pub fn add(&mut self, item: ProductItem<P>)
        ensures
            final(self).products@ == old(self).products@.push(item),
    {
        self.products.push(item);
    }

    /// Takes away one unit of the product with id `id`: its first item.
    pub fn remove_one(&mut self, id: &String)
        ensures
            final(self).products@ == removed_one(old(self).products@, id@),
    {
        match position_of_key(&self.products, id) {
            Some(i) => {
                proof {
                    let c = choose|c: int| is_first(old(self).products@, id@, c);
                    lemma_first_unique(old(self).products@, id@, c, i as int);
                }
                self.products.remove(i);
            },
            None => {},
        }
    }

    /// Takes away every unit of the product with id `id`.
    pub fn remove_all(&mut self, id: &String)
        ensures
            final(self).products@ == without_key(old(self).products@, id@),
    {
        remove_key(&mut self.products, id);
    }

    /// Each product once, in the order it was first added, with the number
    /// of its units: the lines a cart shows.
    pub fn counted_products(&self) -> (r: Vec<(&ProductItem<P>, usize)>)
        ensures
            r@.len() == distinct_ids(self.products@).len(),
            forall|i: int| 0 <= i < r@.len() ==> {
                &&& lookup(self.products@, distinct_ids(self.products@)[i]) == Some(*(#[trigger] r@[i]).0)
                &&& r@[i].1 == count_id(self.products@, distinct_ids(self.products@)[i])
            },
    {
        let ghost s = self.products@;
        let mut out: Vec<(&ProductItem<P>, usize)> = Vec::new();
        let mut i: usize = 0;
        while i < self.products.len()
            invariant
                s == self.products@,
                i <= s.len(),
                out@.len() == distinct_ids(s.subrange(0, i as int)).len(),
                forall|j: int| 0 <= j < out@.len() ==> {
                    &&& lookup(s.subrange(0, i as int), distinct_ids(s.subrange(0, i as int))[j])
                        == Some(*(#[trigger] out@[j]).0)
                    &&& out@[j].1 == count_id(s.subrange(0, i as int), distinct_ids(s.subrange(0, i as int))[j])
                    &&& out@[j].1 <= i
                    &&& out@[j].0.id@ == distinct_ids(s.subrange(0, i as int))[j]
                },
                forall|k: Seq<char>| !distinct_ids(s.subrange(0, i as int)).contains(k) ==>
                    #[trigger] lookup(s.subrange(0, i as int), k) is None,
                forall|a: int, b: int| 0 <= a < out@.len() && 0 <= b < out@.len() && a != b ==>
                    (#[trigger] out@[a]).0.id@ != (#[trigger] out@[b]).0.id@,
            decreases s.len() - i,
        {
            let ghost p = s.subrange(0, i as int);
            let ghost q = s.subrange(0, i + 1);
            let ghost d = distinct_ids(p);
            assert(q.drop_last() == p);
            assert(q.last() == s[i as int]);
            let item = &self.products[i];
            let mut j: usize = 0;
            let mut found = false;
            while j < out.len() && !found
                invariant
                    j <= out.len(),
                    found ==> j < out.len() && out@[j as int].0.id@ == item.id@,
                    !found ==> forall|m: int| 0 <= m < j ==> (#[trigger] out@[m]).0.id@ != item.id@,
                decreases out.len() - j + (if found { 0int } else { 1int }),
            {
                if out[j].0.id.eq(&item.id) {
                    found = true;
                } else {
                    j += 1;
                }
            }
            proof {
                lemma_lookup(p, item.id@);
                lemma_lookup(q, item.id@);
            }
            if found {
                assert(d[j as int] == item.id@);
                assert(d.contains(item.id@));
                assert(distinct_ids(q) == d);
                let pair = out[j];
                let ghost old_out = out@;
                out.set(j, (pair.0, pair.1 + 1));
                proof {
                    assert forall|m: int| 0 <= m < out@.len() implies {
                        &&& lookup(q, distinct_ids(q)[m]) == Some(*(#[trigger] out@[m]).0)
                        &&& out@[m].1 == count_id(q, distinct_ids(q)[m])
                        &&& out@[m].1 <= i + 1
                        &&& out@[m].0.id@ == distinct_ids(q)[m]
                    } by {
                        let k = d[m];
                        assert(old_out[m].0.id@ == k);
                        if m != j {
                            assert(old_out[m].0.id@ != old_out[j as int].0.id@);
                            assert(out@[m] == old_out[m]);
                        }
                        assert(count_id(q, k) == count_id(p, k) + if item.id@ == k { 1nat } else { 0nat });
                        lemma_lookup(p, k);
                        lemma_lookup(q, k);
                        if lookup(p, k) is Some {
                            let c = choose|c: int| is_first(p, k, c);
                            assert(is_first(q, k, c));
                        }
                    }
                    assert forall|a: int, b: int| 0 <= a < out@.len() && 0 <= b < out@.len() && a != b
                        implies (#[trigger] out@[a]).0.id@ != (#[trigger] out@[b]).0.id@ by {
                        assert(old_out[a].0.id@ != old_out[b].0.id@);
                    }
                    assert forall|k: Seq<char>| !distinct_ids(q).contains(k) implies
                        #[trigger] lookup(q, k) is None by {
                        assert(lookup(p, k) is None);
                        lemma_lookup(p, k);
                        lemma_lookup(q, k);
                        assert(k != item.id@);
                        assert(lacks_key(q, k)) by {
                            assert forall|m: int| 0 <= m < q.len() implies #[trigger] q[m].key_of() != k by {
                                if m < p.len() {
                                    assert(p[m].key_of() != k);
                                }
                            }
                        }
                    }
                }
            } else {
                proof {
                    if d.contains(item.id@) {
                        let m = choose|m: int| 0 <= m < d.len() && d[m] == item.id@;
                        assert(out@[m].0.id@ == d[m]);
                        assert(false);
                    }
                }
                assert(distinct_ids(q) == d.push(item.id@));
                proof {
                    assert(lookup(p, item.id@) is None);
                    lemma_count_absent(p, item.id@);
                    assert(count_id(q, item.id@) == 1);
                }
                let ghost old_out = out@;
                out.push((item, 1));
                proof {
                    assert forall|a: int, b: int| 0 <= a < out@.len() && 0 <= b < out@.len() && a != b
                        implies (#[trigger] out@[a]).0.id@ != (#[trigger] out@[b]).0.id@ by {
                        if a < old_out.len() && b < old_out.len() {
                            assert(old_out[a].0.id@ != old_out[b].0.id@);
                        } else if a < old_out.len() {
                            assert(old_out[a].0.id@ != item.id@);
                        } else {
                            assert(old_out[b].0.id@ != item.id@);
                        }
                    }
                    assert forall|m: int| 0 <= m < out@.len() implies {
                        &&& lookup(q, distinct_ids(q)[m]) == Some(*(#[trigger] out@[m]).0)
                        &&& out@[m].1 == count_id(q, distinct_ids(q)[m])
                        &&& out@[m].1 <= i + 1
                        &&& out@[m].0.id@ == distinct_ids(q)[m]
                    } by {
                        if m < d.len() {
                            let k = d[m];
                            assert(k != item.id@);
                            lemma_lookup(p, k);
                            lemma_lookup(q, k);
                            if lookup(p, k) is Some {
                                let c = choose|c: int| is_first(p, k, c);
                                assert(is_first(q, k, c));
                            }
                        } else {
                            assert(is_first(q, item.id@, i as int)) by {
                                assert forall|x: int| 0 <= x < i implies #[trigger] q[x].key_of() != item.id@ by {
                                    assert(p[x].key_of() != item.id@);
                                }
                            }
                        }
                    }
                    assert forall|k: Seq<char>| !distinct_ids(q).contains(k) implies
                        #[trigger] lookup(q, k) is None by {
                        if d.contains(k) {
                            let m = choose|m: int| 0 <= m < d.len() && d[m] == k;
                            assert(distinct_ids(q)[m] == k);
                        }
                        assert(!d.contains(k));
                        assert(k != item.id@) by {
                            assert(distinct_ids(q)[d.len() as int] == item.id@);
                        }
                        lemma_lookup(p, k);
                        lemma_lookup(q, k);
                        assert(lacks_key(q, k)) by {
                            assert forall|m: int| 0 <= m < q.len() implies #[trigger] q[m].key_of() != k by {
                                if m < p.len() {
                                    assert(p[m].key_of() != k);
                                }
                            }
                        }
                    }
                }
            }
            i += 1;
        }
        assert(s.subrange(0, s.len() as int) == s);
        out
    }
}

/// Adding a unit of a product and then taking one unit of the same product
/// away leaves the number of units of every product as it was.
pub proof fn lemma_add_then_remove_one<P>(s: Seq<ProductItem<P>>, item: ProductItem<P>, k: Seq<char>)
    ensures
        count_id(removed_one(s.push(item), item.id@), k) == count_id(s, k),
{
    let t = s.push(item);
    assert(t.drop_last() == s);
    lemma_lookup(t, item.id@);
    assert(is_first(t, item.id@, s.len() as int) || exists|i: int| is_first(t, item.id@, i)) by {
        if lacks_key(s, item.id@) {
            assert(is_first(t, item.id@, s.len() as int)) by {
                assert forall|j: int| 0 <= j < s.len() implies #[trigger] t[j].key_of() != item.id@ by {
                    assert(s[j].key_of() != item.id@);
                }
            }
        }
    }
    if !exists|i: int| is_first(t, item.id@, i) {
        assert(is_first(t, item.id@, s.len() as int));
    }
    let i = choose|i: int| is_first(t, item.id@, i);
    lemma_count_remove(t, i, k);
}

} // verus!
