//! The commerces a consumer can buy from and their menus.

use vstd::prelude::*;
use crate::keyed::{Selection, kept_by, keep_owned, Keyed, lookup, is_first, lacks_key, upserted, upsert, find_by_key, lemma_lookup};
use crate::model::{Listing, strings_view, list_contains};
use crate::product::ProductItem;

verus! {

/// A record published by an owner.
pub trait Owned {
    /// The public key of the owner.
    spec fn owner_of(&self) -> Seq<char>;

    /// Borrows the owner's key.
    fn owner(&self) -> (o: &String)
        ensures
            o@ == self.owner_of(),
    ;
}

impl<T> Owned for Listing<T> {
    open spec fn owner_of(&self) -> Seq<char> {
        self.owner@
    }

    fn owner(&self) -> (o: &String) {
        &self.owner
    }
}

/// A commerce's menu: its id, owner, its categories of products, and the
/// menu record.
#[derive(Clone, Debug)]
pub struct MenuListing<P, M> {
    pub id: String,
    pub owner: String,
    pub categories: Vec<Vec<ProductItem<P>>>,
    pub data: M,
}

/// Menus are looked up by their id.
impl<P, M> Keyed for MenuListing<P, M> {
    open spec fn key_of(&self) -> Seq<char> {
        self.id@
    }

    fn key(&self) -> (k: &String) {
        &self.id
    }
}

impl<P, M> Owned for MenuListing<P, M> {
    open spec fn owner_of(&self) -> Seq<char> {
        self.owner@
    }

    fn owner(&self) -> (o: &String) {
        &self.owner
    }
}

/// The test "the record's owner is on `list`".
pub open spec fn owner_listed<E: Owned>(list: Seq<Seq<char>>) -> spec_fn(E) -> bool {
    |e: E| list.contains(e.owner_of())
}

/// Keeps the records whose owner is on `list`.
struct OwnerListed<'b> {
    list: &'b Vec<String>,
}

impl<'b, E: Owned> Selection<E> for OwnerListed<'b> {
    closed spec fn keeps(&self, e: E) -> bool {
        strings_view(self.list@).contains(e.owner_of())
    }

    fn picks(&self, e: &E) -> (b: bool) {
        list_contains(self.list, e.owner())
    }
}

/// Keeps the records of `v` whose owner is on `list`, in their order.
pub fn retain_owned_by<E: Owned>(v: &mut Vec<E>, list: &Vec<String>)
    ensures
        final(v)@ == old(v)@.filter(owner_listed::<E>(strings_view(list@))),
{
    let sel = OwnerListed { list };
    let mut all: Vec<E> = Vec::new();
    std::mem::swap(&mut all, v);
    *v = keep_owned(all, &sel);
    assert(kept_by::<E, OwnerListed>(sel) =~= owner_listed::<E>(strings_view(list@)));
}

/// The products of a menu's categories, one category after the other.
pub open spec fn all_products<P>(cats: Seq<Seq<ProductItem<P>>>) -> Seq<ProductItem<P>>
    decreases cats.len(),
{
    if cats.len() == 0 {
        Seq::empty()
    } else {
        all_products(cats.drop_last()) + cats.last()
    }
}

/// The categories of a menu, each as its products.
pub open spec fn categories_view<P, M>(m: MenuListing<P, M>) -> Seq<Seq<ProductItem<P>>> {
    m.categories@.map_values(|c: Vec<ProductItem<P>>| c@)
}

/// The products of the first `n` categories come first among all products.
proof fn lemma_all_products_prefix<P>(cats: Seq<Seq<ProductItem<P>>>, n: int)
    requires
        0 <= n <= cats.len(),
    ensures
        all_products(cats.subrange(0, n)).len() <= all_products(cats).len(),
        all_products(cats).subrange(0, all_products(cats.subrange(0, n)).len() as int)
            == all_products(cats.subrange(0, n)),
    decreases cats.len(),
{
    if n == cats.len() {
        assert(cats.subrange(0, n) == cats);
    } else {
        let p = cats.drop_last();
        assert(p.subrange(0, n) == cats.subrange(0, n));
        lemma_all_products_prefix(p, n);
        let a = all_products(p);
        let b = all_products(cats.subrange(0, n));
        assert(all_products(cats) == a + cats.last());
        assert((a + cats.last()).subrange(0, b.len() as int) == a.subrange(0, b.len() as int));
    }
}

/// The consumer app's commerces and menus, and whether the relays answered.
#[derive(Clone, Debug)]
pub struct CommerceData<C, P, M> {
    pub has_loaded: bool,
    pub commerces: Vec<Listing<C>>,
    pub products_lists: Vec<MenuListing<P, M>>,
}

/// The changes the commerce context receives.
pub enum CommerceDataAction<C, P, M> {
    FinishedLoadingRelays,
    UpdateCommerceProfile(Listing<C>),
    UpdateProductList(MenuListing<P, M>),
    FilterWhiteList(Vec<String>),
}

/// The first product with id `product_id` on the menu of `commerce_id`.
pub open spec fn product_of<P, M>(lists: Seq<MenuListing<P, M>>, commerce_id: Seq<char>, product_id: Seq<char>) -> Option<ProductItem<P>> {
    match lookup(lists, commerce_id) {
        Some(m) => lookup(all_products(categories_view(m)), product_id),
        None => None,
    }
}

impl<C, P, M> CommerceData<C, P, M> {
    /// Nothing loaded yet.
    pub fn new() -> (r: Self)
        ensures
            !r.has_loaded,
            r.commerces@.len() == 0,
            r.products_lists@.len() == 0,
    {
        CommerceData { has_loaded: false, commerces: Vec::new(), products_lists: Vec::new() }
    }

    /// Whether the relays answered.
    pub fn finished_loading(&self) -> (r: bool)
        ensures
            r == self.has_loaded,
    {
        self.has_loaded
    }

    /// The commerces.
    pub fn commerces(&self) -> (r: &Vec<Listing<C>>)
        ensures
            r@ == self.commerces@,
    {
        &self.commerces
    }

    /// The menus.
    pub fn products_lists(&self) -> (r: &Vec<MenuListing<P, M>>)
        ensures
            r@ == self.products_lists@,
    {
        &self.products_lists
    }

    /// The first commerce with id `id`.
    pub fn find_commerce_by_id(&self, id: &str) -> (r: Option<&Listing<C>>)
        ensures
            match r {
                Some(c) => lookup(self.commerces@, id@) == Some(*c),
                None => lookup(self.commerces@, id@) is None,
            },
    {
        find_by_key(&self.commerces, &id.to_owned())
    }

    /// The first commerce with id `id`, once the relays answered; none while
    /// they have not.
    pub fn find_loaded_commerce(&self, id: &str) -> (r: Option<&Listing<C>>)
        ensures
            match r {
                Some(c) => self.has_loaded && lookup(self.commerces@, id@) == Some(*c),
                None => !self.has_loaded || lookup(self.commerces@, id@) is None,
            },
    {
        if !self.has_loaded {
            return None;
        }
        self.find_commerce_by_id(id)
    }

    /// The first menu with id `id`.
    pub fn find_product_list_by_id(&self, id: &str) -> (r: Option<&MenuListing<P, M>>)
        ensures
            match r {
                Some(m) => lookup(self.products_lists@, id@) == Some(*m),
                None => lookup(self.products_lists@, id@) is None,
            },
    {
        find_by_key(&self.products_lists, &id.to_owned())
    }

    /// The first product with id `product_id`, over the categories in
    /// order, of the menu of `commerce_id`.
    pub fn find_product(&self, commerce_id: &str, product_id: &str) -> (r: Option<&ProductItem<P>>)
        ensures
            match r {
                Some(p) => product_of(self.products_lists@, commerce_id@, product_id@) == Some(*p),
                None => product_of(self.products_lists@, commerce_id@, product_id@) is None,
            },
    {
        let menu = match self.find_product_list_by_id(commerce_id) {
            Some(m) => m,
            None => return None,
        };
        let k = product_id.to_owned();
        let ghost cats = categories_view(*menu);
        let mut ci: usize = 0;
        while ci < menu.categories.len()
            invariant
                ci <= menu.categories.len(),
                cats == categories_view(*menu),
                lookup(self.products_lists@, commerce_id@) == Some(*menu),
                k@ == product_id@,
                lacks_key(all_products(cats.subrange(0, ci as int)), k@),
            decreases menu.categories.len() - ci,
        {
            let cat = &menu.categories[ci];
            assert(cats[ci as int] == cat@);
            let ghost pre = all_products(cats.subrange(0, ci as int));
            assert(cats.subrange(0, ci + 1).drop_last() == cats.subrange(0, ci as int));
            assert(all_products(cats.subrange(0, ci + 1)) == pre + cat@);
            match crate::keyed::position_of_key(cat, &k) {
                Some(pj) => {
                    proof {
                        let whole = all_products(cats);
                        let pre1 = all_products(cats.subrange(0, ci + 1));
                        lemma_all_products_prefix(cats, ci + 1);
                        let g = pre.len() + pj;
                        assert(whole[g] == pre1[g]);
                        assert(pre1[g] == cat@[pj as int]);
                        assert(is_first(whole, k@, g)) by {
                            assert forall|j: int| 0 <= j < g implies #[trigger] whole[j].key_of() != k@ by {
                                assert(whole[j] == pre1[j]);
                                if j < pre.len() {
                                    assert(pre1[j] == pre[j]);
                                } else {
                                    assert(pre1[j] == cat@[j - pre.len()]);
                                }
                            }
                        }
                        lemma_lookup(whole, k@);
                    }
                    return Some(&cat[pj]);
                },
                None => {
                    proof {
                        assert(lacks_key(pre + cat@, k@)) by {
                            assert forall|j: int| 0 <= j < (pre + cat@).len() implies #[trigger] (pre + cat@)[j].key_of() != k@ by {
                                if j < pre.len() {
                                    assert(pre[j].key_of() != k@);
                                } else {
                                    assert(cat@[j - pre.len()].key_of() != k@);
                                }
                            }
                        }
                    }
                },
            }
            ci += 1;
        }
        assert(cats.subrange(0, cats.len() as int) == cats);
        proof {
            lemma_lookup(all_products(cats), k@);
        }
        None
    }

    /// Applies one change. A commerce or a menu replaces the one with the
    /// same id; a whitelist keeps only the commerces and menus whose owner
    /// is on it; once loaded, the data stays loaded.
    pub fn reduce(&mut self, action: CommerceDataAction<C, P, M>)
        ensures
            old(self).has_loaded ==> final(self).has_loaded,
            match action {
                CommerceDataAction::FinishedLoadingRelays => {
                    &&& final(self).has_loaded
                    &&& final(self).commerces@ == old(self).commerces@
                    &&& final(self).products_lists@ == old(self).products_lists@
                },
                CommerceDataAction::UpdateCommerceProfile(c) => {
                    &&& final(self).has_loaded == old(self).has_loaded
                    &&& final(self).commerces@ == upserted(old(self).commerces@, c)
                    &&& final(self).products_lists@ == old(self).products_lists@
                },
                CommerceDataAction::UpdateProductList(m) => {
                    &&& final(self).has_loaded == old(self).has_loaded
                    &&& final(self).commerces@ == old(self).commerces@
                    &&& final(self).products_lists@ == upserted(old(self).products_lists@, m)
                },
                CommerceDataAction::FilterWhiteList(wl) => {
                    &&& final(self).has_loaded == old(self).has_loaded
                    &&& final(self).commerces@ == old(self).commerces@.filter(
                        owner_listed::<Listing<C>>(strings_view(wl@)),
                    )
                    &&& final(self).products_lists@ == old(self).products_lists@.filter(
                        owner_listed::<MenuListing<P, M>>(strings_view(wl@)),
                    )
                },
            },
    {
        match action {
            CommerceDataAction::FinishedLoadingRelays => {
                self.has_loaded = true;
            },
            CommerceDataAction::UpdateCommerceProfile(c) => {
                upsert(&mut self.commerces, c);
            },
            CommerceDataAction::UpdateProductList(m) => {
                upsert(&mut self.products_lists, m);
            },
            CommerceDataAction::FilterWhiteList(wl) => {
                retain_owned_by(&mut self.commerces, &wl);
                retain_owned_by(&mut self.products_lists, &wl);
            },
        }
    }
}

/// Whether a commerce note of `pubkey` is taken in: only commerces on the
/// admin's whitelist are.
pub fn accepts_commerce_note(whitelist: &Vec<String>, pubkey: &String) -> (r: bool)
    ensures
        r == strings_view(whitelist@).contains(pubkey@),
{
    list_contains(whitelist, pubkey)
}

/// Whether the commerce list is narrowed to a whitelist: only a non-empty
/// whitelist narrows it.
pub fn whitelist_filter_action<C, P, M>(whitelist: Vec<String>) -> (r: Option<CommerceDataAction<C, P, M>>)
    ensures
        match r {
            Some(CommerceDataAction::FilterWhiteList(w)) => w@ == whitelist@ && whitelist@.len() > 0,
            None => whitelist@.len() == 0,
            _ => false,
        },
{
    if whitelist.len() == 0 {
        None
    } else {
        Some(CommerceDataAction::FilterWhiteList(whitelist))
    }
}

} // verus!
