//! Plain-value models of the records the apps keep in their contexts.

use vstd::prelude::*;

verus! {

/// Where an order stands in its life cycle.
#[derive(Clone, Copy, Debug, PartialEq, Eq, Structural)]
pub enum OrderStatus {
    Pending,
    Preparing,
    ReadyForDelivery,
    InDelivery,
    Completed,
    Canceled,
}

/// Where the payment of an order stands.
#[derive(Clone, Copy, Debug, PartialEq, Eq, Structural)]
pub enum OrderPaymentStatus {
    PaymentPending,
    PaymentReceived,
    PaymentSuccess,
    PaymentFailed,
}

/// The party of an order that a rating is about.
#[derive(Clone, Copy, Debug, PartialEq, Eq, Structural)]
pub enum OrderParticipant {
    Consumer,
    Commerce,
    Courier,
}

/// An order is finished once it is completed or canceled.
pub open spec fn is_terminal(s: OrderStatus) -> bool {
    s == OrderStatus::Completed || s == OrderStatus::Canceled
}

/// Whether an order status is one of the two final ones.
pub fn status_is_terminal(s: OrderStatus) -> (r: bool)
    ensures
        r == is_terminal(s),
{
    s == OrderStatus::Completed || s == OrderStatus::Canceled
}

} // verus!

verus! {

/// A signed Nostr note, as plain values: the fields of the event that the
/// apps exchange with the relays.
#[derive(Clone, Debug)]
pub struct Note {
    pub id: Option<String>,
    pub pubkey: String,
    pub created_at: i64,
    pub kind: u32,
    pub tags: Vec<Vec<String>>,
    pub content: String,
    pub sig: Option<String>,
}

/// Notes are looked up by the public key of their author.
impl crate::keyed::Keyed for Note {
    open spec fn key_of(&self) -> Seq<char> {
        self.pubkey@
    }

    fn key(&self) -> (k: &String) {
        &self.pubkey
    }
}

/// An order as the contexts keep it: what the rules read of the order's
/// state (its id, status, payment, the public key of the courier who took
/// it, the commerce and the time), next to the record it was read from.
#[derive(Clone, Debug)]
pub struct OrderEntry<T> {
    pub order_id: String,
    pub order_status: OrderStatus,
    pub payment_status: OrderPaymentStatus,
    pub courier: Option<String>,
    pub commerce_pubkey: String,
    pub timestamp: u64,
    pub data: T,
}

/// Orders are looked up by their id.
impl<T> crate::keyed::Keyed for OrderEntry<T> {
    open spec fn key_of(&self) -> Seq<char> {
        self.order_id@
    }

    fn key(&self) -> (k: &String) {
        &self.order_id
    }
}

impl<T: Clone> OrderEntry<T> {
    /// A copy of the order: the same state, and a clone of the record.
    pub fn copy(&self) -> (r: Self)
        ensures
            r.order_id == self.order_id,
            r.order_status == self.order_status,
            r.payment_status == self.payment_status,
            r.courier == self.courier,
            r.commerce_pubkey == self.commerce_pubkey,
            r.timestamp == self.timestamp,
            cloned(self.data, r.data),
    {
        let courier = match &self.courier {
            Some(c) => Some(c.clone()),
            None => None,
        };
        OrderEntry {
            order_id: self.order_id.clone(),
            order_status: self.order_status,
            payment_status: self.payment_status,
            courier,
            commerce_pubkey: self.commerce_pubkey.clone(),
            timestamp: self.timestamp,
            data: self.data.clone(),
        }
    }
}

/// A commerce's published profile: the id it is found by, its owner, the
/// name it is shown and searched by, and the profile record.
#[derive(Clone, Debug)]
pub struct Listing<T> {
    pub id: String,
    pub owner: String,
    pub name: String,
    pub data: T,
}

/// Listings are looked up by their id.
impl<T> crate::keyed::Keyed for Listing<T> {
    open spec fn key_of(&self) -> Seq<char> {
        self.id@
    }

    fn key(&self) -> (k: &String) {
        &self.id
    }
}

/// The views of a list of strings.
pub open spec fn strings_view(s: Seq<String>) -> Seq<Seq<char>> {
    s.map_values(|x: String| x@)
}

/// Whether `k` is one of the strings of `v`.
pub fn list_contains(v: &Vec<String>, k: &String) -> (r: bool)
    ensures
        r == strings_view(v@).contains(k@),
{
    let mut i: usize = 0;
    while i < v.len()
        invariant
            i <= v.len(),
            forall|j: int| 0 <= j < i ==> #[trigger] v@[j]@ != k@,
        decreases v.len() - i,
    {
        if v[i].eq(k) {
            assert(strings_view(v@)[i as int] == k@);
            return true;
        }
        i += 1;
    }
    assert(!strings_view(v@).contains(k@)) by {
        assert forall|j: int| 0 <= j < v@.len() implies strings_view(v@)[j] != k@ by {
            assert(v@[j]@ != k@);
        }
    }
    false
}

} // verus!
