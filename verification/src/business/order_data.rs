//! The business's orders: those still being served and those finished.

use vstd::prelude::*;
use crate::keyed::{deref_all, upserted, upsert};
use crate::model::{OrderEntry, OrderStatus, OrderPaymentStatus};
use crate::orders::{OrderSelector, selected_by, select_orders, split_parsed, open_parsed, closed_parsed, parsed_count};

verus! {

/// The business's live orders and its order history, and whether the local
/// store and the relays were read.
#[derive(Clone, Debug)]
pub struct OrderData<T> {
    pub checked_db: bool,
    pub checked_relay: bool,
    pub live_orders: Vec<OrderEntry<T>>,
    pub order_history: Vec<OrderEntry<T>>,
}

/// The changes the order context receives. An order update is given as
/// the order read from its note, or `None` when the note did not read as an
/// order; a stored history as the stored orders, each read or not.
pub enum OrderDataAction<T> {
    CheckedDb,
    CheckedRelay,
    UpdateCommerceOrder(Option<OrderEntry<T>>),
    LoadOrderHistory(Vec<Option<OrderEntry<T>>>),
}

impl<T> OrderData<T> {
    /// Nothing read yet.
    pub fn new() -> (r: Self)
        ensures
            !r.checked_db,
            !r.checked_relay,
            r.live_orders@.len() == 0,
            r.order_history@.len() == 0,
    {
        OrderData { checked_db: false, checked_relay: false, live_orders: Vec::new(), order_history: Vec::new() }
    }

    /// Whether the local store was read.
    pub fn checked_db(&self) -> (r: bool)
        ensures
            r == self.checked_db,
    {
        self.checked_db
    }

    /// Whether the relays answered.
    pub fn checked_relay(&self) -> (r: bool)
        ensures
            r == self.checked_relay,
    {
        self.checked_relay
    }

    /// The live orders.
    pub fn live_orders(&self) -> (r: &Vec<OrderEntry<T>>)
        ensures
            r@ == self.live_orders@,
    {
        &self.live_orders
    }

    /// The live orders with payment status `status`, in their order.
    pub fn filter_by_payment_status(&self, status: OrderPaymentStatus) -> (r: Vec<&OrderEntry<T>>)
        ensures
            deref_all(r@) == self.live_orders@.filter(selected_by::<T>(OrderSelector::Payment(status))),
    {
        select_orders(&self.live_orders, OrderSelector::Payment(status))
    }

    /// The live orders with status `status`, in their order.
    pub fn filter_by_order_status(&self, status: OrderStatus) -> (r: Vec<&OrderEntry<T>>)
        ensures
            deref_all(r@) == self.live_orders@.filter(selected_by::<T>(OrderSelector::Status(status))),
    {
        select_orders(&self.live_orders, OrderSelector::Status(status))
    }

    /// The finished orders.
    pub fn order_history(&self) -> (r: &Vec<OrderEntry<T>>)
        ensures
            r@ == self.order_history@,
    {
        &self.order_history
    }

    /// Applies one change. An order update replaces the live order with the
    /// same id, and one that does not read as an order changes nothing; a
    /// loaded history puts the open orders among the live ones and the
    /// completed or canceled ones in the history; once made, a check stays
    /// made.
    pub fn reduce(&mut self, action: OrderDataAction<T>)
        ensures
            old(self).checked_db ==> final(self).checked_db,
            old(self).checked_relay ==> final(self).checked_relay,
            match action {
                OrderDataAction::CheckedDb => {
                    &&& final(self).checked_db
                    &&& final(self).checked_relay == old(self).checked_relay
                    &&& final(self).live_orders@ == old(self).live_orders@
                    &&& final(self).order_history@ == old(self).order_history@
                },
                OrderDataAction::CheckedRelay => {
                    &&& final(self).checked_db == old(self).checked_db
                    &&& final(self).checked_relay
                    &&& final(self).live_orders@ == old(self).live_orders@
                    &&& final(self).order_history@ == old(self).order_history@
                },
                OrderDataAction::UpdateCommerceOrder(o) => {
                    &&& final(self).checked_db == old(self).checked_db
                    &&& final(self).checked_relay == old(self).checked_relay
                    &&& final(self).live_orders@ == match o {
                        Some(e) => upserted(old(self).live_orders@, e),
                        None => old(self).live_orders@,
                    }
                    &&& final(self).order_history@ == old(self).order_history@
                },
                OrderDataAction::LoadOrderHistory(h) => {
                    &&& final(self).checked_db == old(self).checked_db
                    &&& final(self).checked_relay == old(self).checked_relay
                    &&& final(self).live_orders@ == h@.filter_map(open_parsed::<T>())
                    &&& final(self).order_history@ == h@.filter_map(closed_parsed::<T>())
                    &&& forall|i: int| 0 <= i < final(self).live_orders@.len() ==>
                        (#[trigger] final(self).live_orders@[i]).order_status != OrderStatus::Completed
                        && final(self).live_orders@[i].order_status != OrderStatus::Canceled
                    &&& forall|i: int| 0 <= i < final(self).order_history@.len() ==>
                        (#[trigger] final(self).order_history@[i]).order_status == OrderStatus::Completed
                        || final(self).order_history@[i].order_status == OrderStatus::Canceled
                    &&& final(self).live_orders@.len() + final(self).order_history@.len() == parsed_count(h@)
                },
            },
    {
        match action {
            OrderDataAction::CheckedDb => {
                self.checked_db = true;
            },
            OrderDataAction::CheckedRelay => {
                self.checked_relay = true;
            },
            OrderDataAction::UpdateCommerceOrder(o) => {
                match o {
                    Some(e) => upsert(&mut self.live_orders, e),
                    None => {},
                }
            },
            OrderDataAction::LoadOrderHistory(h) => {
                let (live, history) = split_parsed(h);
                self.live_orders = live;
                self.order_history = history;
            },
        }
    }
}

} // verus!
