//! The consumer's cart: the products picked from one commerce and the id of
//! the last order sent.

use vstd::prelude::*;
use crate::keyed::without_key;
use crate::product::{ProductItem, ProductOrder, removed_one, count_id, lemma_add_then_remove_one};

verus! {

/// The cart: the id of the last order sent, the products, and the commerce
/// they come from.
#[derive(Clone, Debug)]
pub struct Cart<P> {
    pub order_id: Option<String>,
    pub cart_items: ProductOrder<P>,
    pub current_business: Option<String>,
}

/// The changes the cart receives.
pub enum CartAction<P> {
    SentOrder(String),
    AddProduct(ProductItem<P>, String),
    AddOne(ProductItem<P>),
    RemoveProduct(ProductItem<P>),
    ClearProduct(ProductItem<P>),
    ClearCart,
}

/// Whether a cart tied to `current` accepts products of `business_id`: a
/// cart tied to no commerce accepts any.
pub open spec fn accepts(current: Option<String>, business_id: Seq<char>) -> bool {
    match current {
        None => true,
        Some(c) => c@ == business_id,
    }
}

impl<P> Cart<P> {
    /// An empty cart tied to no commerce, with no order sent.
    pub fn new() -> (r: Self)
        ensures
            r.order_id is None,
            r.cart_items.products@.len() == 0,
            r.current_business is None,
    {
        Cart { order_id: None, cart_items: ProductOrder::new(Vec::new()), current_business: None }
    }

    /// The id of the last order sent.
    pub fn last_sent_order(&self) -> (r: Option<&String>)
        ensures
            match r {
                Some(s) => self.order_id == Some(*s),
                None => self.order_id is None,
            },
    {
        match &self.order_id {
            Some(s) => Some(s),
            None => None,
        }
    }

    /// Whether products of `business_id` can join the cart.
    pub fn can_add_from_business(&self, business_id: &str) -> (r: bool)
        ensures
            r == accepts(self.current_business, business_id@),
    {
        match &self.current_business {
            None => true,
            Some(current_id) => current_id.eq(&business_id.to_owned()),
        }
    }

    /// The products, one item per unit.
    pub fn cart(&self) -> (r: &Vec<ProductItem<P>>)
        ensures
            r@ == self.cart_items.products@,
    {
        self.cart_items.products()
    }

    /// The commerce the cart is tied to.
    pub fn business_id(&self) -> (r: Option<&String>)
        ensures
            match r {
                Some(s) => self.current_business == Some(*s),
                None => self.current_business is None,
            },
    {
        match &self.current_business {
            Some(s) => Some(s),
            None => None,
        }
    }

    /// Applies one change. Adding a product from a commerce ties an untied
    /// cart to it; taking away the last unit unties the cart; clearing the
    /// cart empties and unties it; sending an order records its id.
    pub fn reduce(&mut self, action: CartAction<P>)
        ensures
            match action {
                CartAction::SentOrder(id) => {
                    &&& final(self).order_id == Some(id)
                    &&& final(self).cart_items.products@ == old(self).cart_items.products@
                    &&& final(self).current_business == old(self).current_business
                },
                CartAction::AddProduct(p, b) => {
                    &&& final(self).order_id == old(self).order_id
                    &&& final(self).cart_items.products@ == old(self).cart_items.products@.push(p)
                    &&& final(self).current_business == match old(self).current_business {
                        None => Some(b),
                        Some(c) => Some(c),
                    }
                },
                CartAction::AddOne(p) => {
                    &&& final(self).order_id == old(self).order_id
                    &&& final(self).cart_items.products@ == old(self).cart_items.products@.push(p)
                    &&& final(self).current_business == old(self).current_business
                },
                CartAction::RemoveProduct(p) => {
                    &&& final(self).order_id == old(self).order_id
                    &&& final(self).cart_items.products@ == removed_one(old(self).cart_items.products@, p.id@)
                    &&& final(self).current_business == if final(self).cart_items.products@.len() == 0 {
                        None
                    } else {
                        old(self).current_business
                    }
                },
                CartAction::ClearProduct(p) => {
                    &&& final(self).order_id == old(self).order_id
                    &&& final(self).cart_items.products@ == without_key(old(self).cart_items.products@, p.id@)
                    &&& final(self).current_business == old(self).current_business
                },
                CartAction::ClearCart => {
                    &&& final(self).order_id == old(self).order_id
                    &&& final(self).cart_items.products@.len() == 0
                    &&& final(self).current_business is None
                },
            },
    {
        match action {
            CartAction::SentOrder(id) => {
                self.order_id = Some(id);
            },
            CartAction::AddProduct(p, b) => {
                if self.current_business.is_none() {
                    self.current_business = Some(b);
                }
                self.cart_items.add(p);
            },
            CartAction::AddOne(p) => {
                self.cart_items.add(p);
            },
            CartAction::RemoveProduct(p) => {
                self.cart_items.remove_one(&p.id);
                if self.cart_items.is_empty() {
                    self.current_business = None;
                }
            },
            CartAction::ClearProduct(p) => {
                self.cart_items.remove_all(&p.id);
            },
            CartAction::ClearCart => {
                self.cart_items = ProductOrder::new(Vec::new());
                self.current_business = None;
            },
        }
    }
}

/// Adding a product to an untied cart ties it to the product's commerce,
/// which then accepts more of its products; taking that unit away again
/// leaves every product's unit count as it was, and unties a cart that was
/// empty before.
pub proof fn lemma_cart_add_remove<P>(
    items: Seq<ProductItem<P>>,
    current: Option<String>,
    p: ProductItem<P>,
    b: String,
    k: Seq<char>,
)
    ensures
        current is None ==> accepts(Some(b), b@),
        count_id(removed_one(items.push(p), p.id@), k) == count_id(items, k),
        items.len() == 0 ==> removed_one(items.push(p), p.id@).len() == 0,
{
    lemma_add_then_remove_one(items, p, k);
    if items.len() == 0 {
        let t = items.push(p);
        assert(crate::keyed::is_first(t, p.id@, 0));
        let i = choose|i: int| crate::keyed::is_first(t, p.id@, i);
        crate::keyed::lemma_first_unique(t, p.id@, i, 0);
    }
}

} // verus!
