//! Choices the consumer app's pages make: the order in which a commerce's
//! products are listed, where the sign-in and registration routes lead, and
//! which commerces a search finds.

use vstd::prelude::*;
use vstd::utf8::encode_utf8;
use crate::keyed::{deref_all, Selection, kept_by, select_refs, lemma_filter_keeps_all};
use crate::model::Listing;
use crate::product::ProductItem;
use crate::consumer::cart::{Cart, accepts};
use crate::consumer::commerce_data::{MenuListing, all_products, categories_view};
use crate::sorting::{sorted_by, stably_sorted, strict_total_order, with_key, lemma_insert_sorted};
use crate::text::{lex_lt, bytes_less, bytes_contain, is_infix, lowercase, lowercased,
    lemma_empty_infix, lemma_encode_utf8_empty, lemma_lex_lt_transitive, lemma_lex_lt_irreflexive, lemma_lex_lt_total};

verus! {

/// How a commerce page orders its products: by price or by name (the
/// brand button), ascending when the flag is `true`.
#[derive(Clone, Copy, Debug, PartialEq, Eq, Structural)]
pub enum ProductFilter {
    Price(bool),
    Brand(bool),
}

/// The ordering after a click on the price button: a second click on it
/// turns the direction around, a first one sorts by price ascending.
pub fn price_filter_clicked(current: Option<ProductFilter>) -> (r: Option<ProductFilter>)
    ensures
        r == Some(match current {
            Some(ProductFilter::Price(forward)) => ProductFilter::Price(!forward),
            _ => ProductFilter::Price(true),
        }),
{
    match current {
        Some(ProductFilter::Price(forward)) => Some(ProductFilter::Price(!forward)),
        _ => Some(ProductFilter::Price(true)),
    }
}

/// The ordering after a click on the brand button: a second click on it
/// turns the direction around, a first one sorts by name ascending.
pub fn brand_filter_clicked(current: Option<ProductFilter>) -> (r: Option<ProductFilter>)
    ensures
        r == Some(match current {
            Some(ProductFilter::Brand(forward)) => ProductFilter::Brand(!forward),
            _ => ProductFilter::Brand(true),
        }),
{
    match current {
        Some(ProductFilter::Brand(forward)) => Some(ProductFilter::Brand(!forward)),
        _ => Some(ProductFilter::Brand(true)),
    }
}

/// The text a product is sorted by, as the bytes that `String`'s order
/// compares: its price or its name.
pub open spec fn product_sort_key<P>(f: ProductFilter) -> spec_fn(ProductItem<P>) -> Seq<u8> {
    match f {
        ProductFilter::Price(_) => |p: ProductItem<P>| encode_utf8(p.price@),
        ProductFilter::Brand(_) => |p: ProductItem<P>| encode_utf8(p.name@),
    }
}

/// Whether the ordering is ascending.
pub open spec fn is_forward(f: ProductFilter) -> bool {
    match f {
        ProductFilter::Price(forward) => forward,
        ProductFilter::Brand(forward) => forward,
    }
}

/// The order of the keys: byte order, or its reverse.
pub open spec fn product_order(f: ProductFilter) -> spec_fn(Seq<u8>, Seq<u8>) -> bool {
    if is_forward(f) {
        |a: Seq<u8>, b: Seq<u8>| lex_lt(a, b)
    } else {
        |a: Seq<u8>, b: Seq<u8>| lex_lt(b, a)
    }
}

/// Both directions of the byte order are strict total orders.
proof fn lemma_product_order(f: ProductFilter)
    ensures
        strict_total_order(product_order(f)),
{
    let lt = product_order(f);
    assert forall|a: Seq<u8>| !#[trigger] lt(a, a) by {
        lemma_lex_lt_irreflexive(a);
    }
    assert forall|a: Seq<u8>, b: Seq<u8>, c: Seq<u8>| #[trigger] lt(a, b) && #[trigger] lt(b, c) implies lt(a, c) by {
        if is_forward(f) {
            lemma_lex_lt_transitive(a, b, c);
        } else {
            lemma_lex_lt_transitive(c, b, a);
        }
    }
    assert forall|a: Seq<u8>, b: Seq<u8>| a != b implies #[trigger] lt(a, b) || #[trigger] lt(b, a) by {
        lemma_lex_lt_total(a, b);
    }
}

/// The pair `a` before `b` is in the order a filter asks for, in
/// `String`'s byte order: by price or by name, ascending when the filter's
/// flag is `true` and descending when it is `false`.
pub open spec fn in_filter_pair<P>(a: ProductItem<P>, b: ProductItem<P>, f: ProductFilter) -> bool {
    match f {
        ProductFilter::Price(true) => !lex_lt(encode_utf8(b.price@), encode_utf8(a.price@)),
        ProductFilter::Price(false) => !lex_lt(encode_utf8(a.price@), encode_utf8(b.price@)),
        ProductFilter::Brand(true) => !lex_lt(encode_utf8(b.name@), encode_utf8(a.name@)),
        ProductFilter::Brand(false) => !lex_lt(encode_utf8(a.name@), encode_utf8(b.name@)),
    }
}

/// `s` runs in the order a filter asks for: every item stands in that order
/// with every item after it.
pub open spec fn in_filter_order<P>(s: Seq<ProductItem<P>>, f: ProductFilter) -> bool {
    forall|i: int, j: int| 0 <= i < j < s.len() ==> #[trigger] in_filter_pair(s[i], s[j], f)
}

/// A filter sorts by the price for the price button and by the name for
/// the brand button, ascending exactly when its flag is `true`.
pub proof fn lemma_filter_meaning<P>(d: bool, p: ProductItem<P>, a: Seq<u8>, b: Seq<u8>)
    ensures
        product_sort_key::<P>(ProductFilter::Price(d))(p) == encode_utf8(p.price@),
        product_sort_key::<P>(ProductFilter::Brand(d))(p) == encode_utf8(p.name@),
        product_order(ProductFilter::Price(d))(a, b) == if d { lex_lt(a, b) } else { lex_lt(b, a) },
        product_order(ProductFilter::Brand(d))(a, b) == if d { lex_lt(a, b) } else { lex_lt(b, a) },
{
}

/// Products sorted under a filter's key and order run in the order the
/// filter asks for.
pub proof fn lemma_sorted_in_filter_order<P>(s: Seq<ProductItem<P>>, f: ProductFilter)
    requires
        sorted_by(s, product_sort_key::<P>(f), product_order(f)),
    ensures
        in_filter_order(s, f),
{
    assert forall|i: int, j: int| 0 <= i < j < s.len() implies #[trigger] in_filter_pair(s[i], s[j], f) by {
        let key = product_sort_key::<P>(f);
        let lt = product_order(f);
        assert(!lt(key(s[j]), key(s[i])));
        match f {
            ProductFilter::Price(d) => lemma_filter_meaning::<P>(d, s[i], key(s[j]), key(s[i])),
            ProductFilter::Brand(d) => lemma_filter_meaning::<P>(d, s[i], key(s[j]), key(s[i])),
        }
    }
}

/// The products of a menu, one category after the other; none without a menu.
pub fn menu_products<'a, P, M>(menu: Option<&'a MenuListing<P, M>>) -> (r: Vec<&'a ProductItem<P>>)
    ensures
        deref_all(r@) == match menu {
            Some(m) => all_products(categories_view(*m)),
            None => Seq::empty(),
        },
{
    let mut out: Vec<&'a ProductItem<P>> = Vec::new();
    match menu {
        None => {
            assert(deref_all(out@) == Seq::<ProductItem<P>>::empty());
            out
        },
        Some(m) => {
            let ghost cats = categories_view(*m);
            let mut i: usize = 0;
            assert(cats.subrange(0, 0) == Seq::<Seq<ProductItem<P>>>::empty());
            assert(deref_all(out@) == all_products(cats.subrange(0, 0)));
            while i < m.categories.len()
                invariant
                    i <= m.categories.len(),
                    cats == categories_view(*m),
                    cats.len() == m.categories.len(),
                    deref_all(out@) == all_products(cats.subrange(0, i as int)),
                decreases m.categories.len() - i,
            {
                let cat = &m.categories[i];
                assert(cats[i as int] == cat@);
                let ghost before = deref_all(out@);
                let mut j: usize = 0;
                while j < cat.len()
                    invariant
                        j <= cat.len(),
                        deref_all(out@) == before + cat@.subrange(0, j as int),
                    decreases cat.len() - j,
                {
                    let ghost prior = out@;
                    out.push(&cat[j]);
                    assert(cat@.subrange(0, j + 1) == cat@.subrange(0, j as int).push(cat@[j as int]));
                    assert(deref_all(out@) == deref_all(prior).push(cat@[j as int]));
                    j += 1;
                }
                assert(cat@.subrange(0, j as int) == cat@);
                assert(cats.subrange(0, i + 1).drop_last() == cats.subrange(0, i as int));
                assert(cats.subrange(0, i + 1).last() == cat@);
                i += 1;
            }
            assert(cats.subrange(0, i as int) == cats);
            out
        },
    }
}

/// The products in the order the commerce page lists them: as they come
/// without a filter, else sorted stably by the filter's key in its
/// direction (as `sort_by` on `String`'s order does).
pub fn sort_products<'a, P>(v: Vec<&'a ProductItem<P>>, filter: Option<ProductFilter>) -> (r: Vec<&'a ProductItem<P>>)
    ensures
        match filter {
            None => r@ == v@,
            Some(f) => stably_sorted(deref_all(r@), deref_all(v@), product_sort_key::<P>(f), product_order(f)),
        },
        match filter {
            None => true,
            Some(f) => in_filter_order(deref_all(r@), f),
        },
{
    let f = match filter {
        None => {
            return v;
        },
        Some(f) => f,
    };
    let ghost s = deref_all(v@);
    let ghost key = product_sort_key::<P>(f);
    let ghost lt = product_order(f);
    let total = v.len();
    let mut rest = v;
    let mut out: Vec<&'a ProductItem<P>> = Vec::new();
    let mut i: usize = 0;
    proof {
        broadcast use vstd::seq_lib::group_to_multiset_ensures;
        lemma_product_order(f);
        assert(deref_all(out@) == s.subrange(0, 0));
        assert forall|k: Seq<u8>| #[trigger] deref_all(out@).filter(with_key(key, k))
            == s.subrange(0, 0).filter(with_key(key, k)) by {
            reveal(Seq::filter);
        }
    }
    while rest.len() > 0
        invariant
            s.len() == total,
            i <= s.len(),
            key == product_sort_key::<P>(f),
            lt == product_order(f),
            strict_total_order(lt),
            deref_all(rest@) == s.subrange(i as int, s.len() as int),
            stably_sorted(deref_all(out@), s.subrange(0, i as int), key, lt),
        decreases rest.len(),
    {
        broadcast use vstd::seq_lib::group_to_multiset_ensures;
        let ghost rest_before = rest@;
        assert(deref_all(rest_before).len() == rest_before.len());
        assert(i < s.len());
        let e = rest.remove(0);
        assert(e == rest_before[0]);
        assert(deref_all(rest_before)[0] == *rest_before[0]);
        assert(deref_all(rest_before)[0] == s.subrange(i as int, s.len() as int)[0]);
        assert(*e == s[i as int]);
        let mut p: usize = 0;
        while p < out.len() && !goes_before(f, e, out[p])
            invariant
                p <= out.len(),
                key == product_sort_key::<P>(f),
                lt == product_order(f),
                forall|q: int| 0 <= q < p ==> !lt(key(*e), key(#[trigger] deref_all(out@)[q])),
            decreases out.len() - p,
        {
            assert(deref_all(out@)[p as int] == *out@[p as int]);
            p += 1;
        }
        let ghost before = deref_all(out@);
        proof {
            if p < out.len() {
                assert(before[p as int] == *out@[p as int]);
            }
            lemma_insert_sorted(before, p as int, *e, key, lt);
        }
        out.insert(p, e);
        proof {
            let prev = s.subrange(0, i as int);
            vstd::seq_lib::to_multiset_insert(before, p as int, *e);
            assert(s.subrange(0, i + 1) == prev.push(*e));
            assert(deref_all(out@) == before.insert(p as int, *e));
            assert forall|k: Seq<u8>| #[trigger] deref_all(out@).filter(with_key(key, k))
                == s.subrange(0, i + 1).filter(with_key(key, k)) by {
                prev.lemma_filter_push(*e, with_key(key, k));
                assert(before.filter(with_key(key, k)) == prev.filter(with_key(key, k)));
            }
        }
        assert(rest@ == rest_before.subrange(1, rest_before.len() as int));
        assert(deref_all(rest@) =~= deref_all(rest_before).subrange(1, rest_before.len() as int));
        i += 1;
        assert(deref_all(rest@) =~= s.subrange(i as int, s.len() as int));
    }
    assert(s.subrange(0, s.len() as int) == s);
    proof {
        lemma_sorted_in_filter_order(deref_all(out@), f);
    }
    out
}

/// Whether `a` goes strictly before `b` under the filter.
fn goes_before<P>(f: ProductFilter, a: &ProductItem<P>, b: &ProductItem<P>) -> (r: bool)
    ensures
        r == product_order(f)(product_sort_key::<P>(f)(*a), product_sort_key::<P>(f)(*b)),
{
    let (x, y) = match f {
        ProductFilter::Price(_) => (a.price.as_str().as_bytes(), b.price.as_str().as_bytes()),
        ProductFilter::Brand(_) => (a.name.as_str().as_bytes(), b.name.as_str().as_bytes()),
    };
    if is_forward_exec(f) {
        bytes_less(x, y)
    } else {
        bytes_less(y, x)
    }
}

/// Whether the ordering is ascending.
fn is_forward_exec(f: ProductFilter) -> (r: bool)
    ensures
        r == is_forward(f),
{
    match f {
        ProductFilter::Price(forward) => forward,
        ProductFilter::Brand(forward) => forward,
    }
}

/// The products a commerce page lists for a menu under a filter.
pub fn listed_products<'a, P, M>(menu: Option<&'a MenuListing<P, M>>, filter: Option<ProductFilter>) -> (r: Vec<&'a ProductItem<P>>)
    ensures
        ({
            let all = match menu {
                Some(m) => all_products(categories_view(*m)),
                None => Seq::empty(),
            };
            match filter {
                None => deref_all(r@) == all,
                Some(f) => stably_sorted(deref_all(r@), all, product_sort_key::<P>(f), product_order(f)),
            }
        }),
        match filter {
            None => true,
            Some(f) => in_filter_order(deref_all(r@), f),
        },
{
    let all = menu_products(menu);
    sort_products(all, filter)
}

/// What the sign-in and registration routes show.
#[derive(Clone, Copy, Debug, PartialEq, Eq, Structural)]
pub enum EntryView {
    /// The sign-in form.
    LoginForm,
    /// The form for a new profile.
    NewProfileForm,
    /// The form for a first address.
    NewAddressForm,
    /// Go on to the registration route.
    ToRegister,
    /// Go on to the home page.
    ToHome,
}

/// The sign-in route: the form for a visitor without a key; a signed-in
/// user goes on to registration while the profile or the default address
/// is missing, else home.
pub fn login_route_view(logged_in: bool, has_profile: bool, has_address: bool) -> (r: EntryView)
    ensures
        r == if !logged_in {
            EntryView::LoginForm
        } else if !has_profile || !has_address {
            EntryView::ToRegister
        } else {
            EntryView::ToHome
        },
{
    if !logged_in {
        EntryView::LoginForm
    } else if !has_profile || !has_address {
        EntryView::ToRegister
    } else {
        EntryView::ToHome
    }
}

/// The registration route: first the profile, then the address, then home.
pub fn register_route_view(has_profile: bool, has_address: bool) -> (r: EntryView)
    ensures
        r == if !has_profile {
            EntryView::NewProfileForm
        } else if !has_address {
            EntryView::NewAddressForm
        } else {
            EntryView::ToHome
        },
{
    if !has_profile {
        EntryView::NewProfileForm
    } else if !has_address {
        EntryView::NewAddressForm
    } else {
        EntryView::ToHome
    }
}

/// The test "a search for `term` finds the commerce": the lower-case term
/// occurs in the lower-case name.
pub open spec fn found_by<C>(term: Seq<char>) -> spec_fn(Listing<C>) -> bool {
    |c: Listing<C>| is_infix(encode_utf8(lowercase(term)), encode_utf8(lowercase(c.name@)))
}

/// Keeps the commerces whose lower-case name holds the lower-case term.
struct NameSearch {
    lower_term: String,
}

impl<C> Selection<Listing<C>> for NameSearch {
    closed spec fn keeps(&self, c: Listing<C>) -> bool {
        is_infix(encode_utf8(self.lower_term@), encode_utf8(lowercase(c.name@)))
    }

    fn picks(&self, c: &Listing<C>) -> (b: bool) {
        let name = lowercased(c.name.as_str());
        bytes_contain(name.as_str().as_bytes(), self.lower_term.as_str().as_bytes())
    }
}

/// The commerces that a search for `term` lists, in their order.
pub fn search_commerces<'a, C>(commerces: &'a Vec<Listing<C>>, term: &str) -> (r: Vec<&'a Listing<C>>)
    ensures
        deref_all(r@) == commerces@.filter(found_by::<C>(term@)),
        term@.len() == 0 ==> deref_all(r@) == commerces@,
{
    let sel = NameSearch { lower_term: lowercased(term) };
    let r = select_refs(commerces, &sel);
    assert(kept_by::<Listing<C>, NameSearch>(sel) =~= found_by::<C>(term@));
    proof {
        if term@.len() == 0 {
            lemma_encode_utf8_empty(lowercase(term@));
            assert forall|i: int| 0 <= i < commerces@.len() implies found_by::<C>(term@)(#[trigger] commerces@[i]) by {
                lemma_empty_infix(encode_utf8(lowercase(term@)), encode_utf8(lowercase(commerces@[i].name@)));
            }
            lemma_filter_keeps_all(commerces@, found_by::<C>(term@));
        }
    }
    r
}

/// What the cart button on a product card does.
#[derive(Clone, Copy, Debug, PartialEq, Eq, Structural)]
pub enum CartButtonOutcome {
    /// Go to the sign-in page.
    ToLogin,
    /// Go to the registration page, for the profile or the address.
    ToRegister,
    /// Refuse: the cart holds products of another commerce.
    OtherStore,
    /// Add the product to the cart.
    Add,
}

/// The cart button of a product of `commerce_id`: a visitor signs in first,
/// a user without a profile or a default address registers first, a cart
/// tied to another commerce refuses, and otherwise the product is added.
pub fn cart_button_outcome<P>(logged_in: bool, has_profile_and_address: bool, cart: &Cart<P>, commerce_id: &str) -> (r: CartButtonOutcome)
    ensures
        r == if !logged_in {
            CartButtonOutcome::ToLogin
        } else if !has_profile_and_address {
            CartButtonOutcome::ToRegister
        } else if !accepts(cart.current_business, commerce_id@) {
            CartButtonOutcome::OtherStore
        } else {
            CartButtonOutcome::Add
        },
{
    if !logged_in {
        CartButtonOutcome::ToLogin
    } else if !has_profile_and_address {
        CartButtonOutcome::ToRegister
    } else if !cart.can_add_from_business(commerce_id) {
        CartButtonOutcome::OtherStore
    } else {
        CartButtonOutcome::Add
    }
}

/// Whether the header and the footer frame a route: every route but the
/// sign-in and the registration routes.
pub fn shows_frame(on_login_route: bool, on_register_route: bool) -> (r: bool)
    ensures
        r == (!on_login_route && !on_register_route),
{
    !on_login_route && !on_register_route
}

/// Where the settings page sends a user without a profile: on to
/// registration; a user with a profile stays on the page.
pub fn settings_redirect(has_profile: bool) -> (r: Option<EntryView>)
    ensures
        r == if has_profile { None } else { Some(EntryView::ToRegister) },
{
    if has_profile {
        None
    } else {
        Some(EntryView::ToRegister)
    }
}

} // verus!
