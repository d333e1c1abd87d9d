//! The courier's view of the order hub: the open orders, the history, and
//! the order the courier took.

use vstd::prelude::*;
use crate::keyed::{Keyed, lookup, lacks_key, is_first, without_key, upserted, replaced_or_pushed,
    position_of_key, remove_key, upsert, replace_or_push, lemma_lookup, lemma_without_key,
    lemma_without_key_remove, lemma_without_absent_key};
use crate::model::{OrderEntry, OrderStatus, is_terminal, status_is_terminal};
use crate::orders::{OrderSelector, selected_by, split_open_closed};

verus! {

/// The orders the courier sees, the order the courier took, and whether the
/// relays answered.
#[derive(Clone, Debug)]
pub struct OrderHub<T> {
    pub order_history: Vec<OrderEntry<T>>,
    pub live_orders: Vec<OrderEntry<T>>,
    pub assigned_order: Option<OrderEntry<T>>,
    pub has_loaded: bool,
}

/// The changes the order hub receives.
pub enum OrderHubAction<T> {
    FinishedLoadingRelays,
    LoadOrders(Vec<OrderEntry<T>>),
    UpdateOrder(OrderEntry<T>),
    AssignOrder(OrderEntry<T>),
    OrderCompleted(String),
}

/// The order that `OrderCompleted(id)` moves into the history: the first
/// open order with that id, if any.
pub open spec fn history_after_completion<T>(history: Seq<OrderEntry<T>>, live: Seq<OrderEntry<T>>, id: Seq<char>) -> Seq<OrderEntry<T>> {
    match lookup(live, id) {
        Some(o) => history.push(o),
        None => history,
    }
}

/// `c` is a copy of `e`: the same state and a clone of its record.
pub open spec fn copy_of<T: Clone>(c: OrderEntry<T>, e: OrderEntry<T>) -> bool {
    &&& c.order_id == e.order_id
    &&& c.order_status == e.order_status
    &&& c.payment_status == e.payment_status
    &&& c.courier == e.courier
    &&& c.commerce_pubkey == e.commerce_pubkey
    &&& c.timestamp == e.timestamp
    &&& cloned(e.data, c.data)
}

impl<T: Clone> OrderHub<T> {
    /// No orders yet.
    pub fn new() -> (r: Self)
        ensures
            r.order_history@.len() == 0,
            r.live_orders@.len() == 0,
            r.assigned_order is None,
            !r.has_loaded,
    {
        OrderHub { order_history: Vec::new(), live_orders: Vec::new(), assigned_order: None, has_loaded: false }
    }

    /// The open orders.
    pub fn live_orders(&self) -> (r: &Vec<OrderEntry<T>>)
        ensures
            r@ == self.live_orders@,
    {
        &self.live_orders
    }

    /// The completed and canceled orders.
    pub fn order_history(&self) -> (r: &Vec<OrderEntry<T>>)
        ensures
            r@ == self.order_history@,
    {
        &self.order_history
    }

    /// Whether the courier has taken an order.
    pub fn has_live_order(&self) -> (r: bool)
        ensures
            r == self.assigned_order is Some,
    {
        self.assigned_order.is_some()
    }

    /// The order the courier took, if any.
    pub fn get_live_order(&self) -> (r: Option<&OrderEntry<T>>)
        ensures
            match r {
                Some(o) => self.assigned_order == Some(*o),
                None => self.assigned_order is None,
            },
    {
        match &self.assigned_order {
            Some(o) => Some(o),
            None => None,
        }
    }

    /// Whether the relays answered.
    pub fn finished_loading(&self) -> (r: bool)
        ensures
            r == self.has_loaded,
    {
        self.has_loaded
    }

    /// Applies one change. Loaded orders split into open ones and history;
    /// an update replaces the first open order with its id or joins the list;
    /// a taken order moves to the end of the open list and becomes the
    /// courier's; a completed order leaves the open list for the history and
    /// frees the courier.
    pub fn reduce(&mut self, action: OrderHubAction<T>)
        ensures
            old(self).has_loaded ==> final(self).has_loaded,
            match action {
                OrderHubAction::FinishedLoadingRelays => {
                    &&& final(self).has_loaded
                    &&& final(self).live_orders@ == old(self).live_orders@
                    &&& final(self).order_history@ == old(self).order_history@
                    &&& final(self).assigned_order == old(self).assigned_order
                },
                OrderHubAction::LoadOrders(v) => {
                    &&& final(self).has_loaded == old(self).has_loaded
                    &&& final(self).live_orders@ == v@.filter(selected_by::<T>(OrderSelector::Open))
                    &&& final(self).order_history@ == v@.filter(selected_by::<T>(OrderSelector::Closed))
                    &&& forall|i: int| 0 <= i < final(self).live_orders@.len() ==>
                        (#[trigger] final(self).live_orders@[i]).order_status != OrderStatus::Completed
                        && final(self).live_orders@[i].order_status != OrderStatus::Canceled
                    &&& forall|i: int| 0 <= i < final(self).order_history@.len() ==>
                        (#[trigger] final(self).order_history@[i]).order_status == OrderStatus::Completed
                        || final(self).order_history@[i].order_status == OrderStatus::Canceled
                    &&& final(self).live_orders@.len() + final(self).order_history@.len() == v@.len()
                    &&& final(self).assigned_order == old(self).assigned_order
                },
                OrderHubAction::UpdateOrder(e) => {
                    &&& final(self).has_loaded == old(self).has_loaded
                    &&& final(self).live_orders@ == replaced_or_pushed(old(self).live_orders@, e)
                    &&& final(self).order_history@ == old(self).order_history@
                    &&& final(self).assigned_order == old(self).assigned_order
                },
                OrderHubAction::AssignOrder(e) => {
                    &&& final(self).has_loaded == old(self).has_loaded
                    &&& final(self).live_orders@.len() == without_key(old(self).live_orders@, e.order_id@).len() + 1
                    &&& final(self).live_orders@.drop_last() == without_key(old(self).live_orders@, e.order_id@)
                    &&& copy_of(final(self).live_orders@.last(), e)
                    &&& final(self).order_history@ == old(self).order_history@
                    &&& final(self).assigned_order == Some(e)
                },
                OrderHubAction::OrderCompleted(id) => {
                    &&& final(self).has_loaded == old(self).has_loaded
                    &&& final(self).live_orders@ == without_key(old(self).live_orders@, id@)
                    &&& final(self).order_history@ == history_after_completion(
                        old(self).order_history@,
                        old(self).live_orders@,
                        id@,
                    )
                    &&& final(self).order_history@.len() == old(self).order_history@.len()
                        + if lacks_key(old(self).live_orders@, id@) { 0int } else { 1int }
                    &&& final(self).order_history@.subrange(0, old(self).order_history@.len() as int)
                        == old(self).order_history@
                    &&& !lacks_key(old(self).live_orders@, id@) ==> is_first(
                        old(self).live_orders@,
                        id@,
                        choose|k: int| is_first(old(self).live_orders@, id@, k),
                    ) && final(self).order_history@.last() == old(self).live_orders@[choose|k: int|
                        is_first(old(self).live_orders@, id@, k)]
                    &&& final(self).assigned_order is None
                },
            },
    {
        match action {
            OrderHubAction::FinishedLoadingRelays => {
                self.has_loaded = true;
            },
            OrderHubAction::LoadOrders(v) => {
                let (open, closed) = split_open_closed(v);
                self.live_orders = open;
                self.order_history = closed;
            },
            OrderHubAction::UpdateOrder(e) => {
                replace_or_push(&mut self.live_orders, e);
            },
            OrderHubAction::AssignOrder(e) => {
                let c = e.copy();
                remove_key(&mut self.live_orders, &e.order_id);
                self.live_orders.push(c);
                self.assigned_order = Some(e);
            },
            OrderHubAction::OrderCompleted(id) => {
                let ghost s = self.live_orders@;
                proof {
                    lemma_completion_extends_history(self.order_history@, s, id@);
                    lemma_lookup(s, id@);
                }
                match position_of_key(&self.live_orders, &id) {
                    Some(i) => {
                        proof {
                            lemma_lookup(s, id@);
                            lemma_without_key_remove(s, id@, i as int);
                        }
                        let done = self.live_orders.remove(i);
                        remove_key(&mut self.live_orders, &id);
                        self.order_history.push(done);
                    },
                    None => {
                        proof {
                            lemma_lookup(s, id@);
                            lemma_without_absent_key(s, id@);
                        }
                    },
                }
                self.assigned_order = None;
            },
        }
    }
}

/// What an order note from the hub changes for this courier: a completed or
/// canceled order is done; an order taken by this courier is assigned; one
/// taken by another courier changes nothing; an order nobody took yet is
/// updated in the open list.
pub fn hub_action_for<T>(e: OrderEntry<T>, own_pubkey: &String) -> (r: Option<OrderHubAction<T>>)
    ensures
        is_terminal(e.order_status) ==> r == Some(OrderHubAction::<T>::OrderCompleted(e.order_id)),
        !is_terminal(e.order_status) ==> match e.courier {
            Some(c) => if c@ == own_pubkey@ {
                r == Some(OrderHubAction::AssignOrder(e))
            } else {
                r is None
            },
            None => r == Some(OrderHubAction::UpdateOrder(e)),
        },
{
    if status_is_terminal(e.order_status) {
        return Some(OrderHubAction::OrderCompleted(e.order_id));
    }
    let mine = match &e.courier {
        Some(c) => Some(c.eq(own_pubkey)),
        None => None,
    };
    match mine {
        Some(true) => Some(OrderHubAction::AssignOrder(e)),
        Some(false) => None,
        None => Some(OrderHubAction::UpdateOrder(e)),
    }
}

/// Completing an order keeps the earlier history as it was, in front, and
/// adds to it the first open order with that id, if there is one, and
/// nothing else.
pub proof fn lemma_completion_extends_history<T>(history: Seq<OrderEntry<T>>, live: Seq<OrderEntry<T>>, id: Seq<char>)
    ensures
        history_after_completion(history, live, id).len() == history.len() + if lacks_key(live, id) {
            0int
        } else {
            1int
        },
        history_after_completion(history, live, id).subrange(0, history.len() as int) == history,
        forall|k: int| is_first(live, id, k) ==> history_after_completion(history, live, id).last() == live[k],
{
    lemma_lookup(live, id);
    let h = history_after_completion(history, live, id);
    if !lacks_key(live, id) {
        assert(h == history.push(lookup(live, id).unwrap()));
        assert(h.subrange(0, history.len() as int) =~= history);
    } else {
        assert(h.subrange(0, history.len() as int) =~= history);
    }
}

/// Once an order is completed, no open order has its id, the courier has
/// no order, and the order the courier saw open is the last in the history.
pub proof fn lemma_completed_order_leaves<T>(live: Seq<OrderEntry<T>>, history: Seq<OrderEntry<T>>, id: Seq<char>)
    ensures
        lookup(without_key(live, id), id) is None,
        lookup(live, id) is Some ==> history_after_completion(history, live, id).last()
            == lookup(live, id).unwrap(),
        lookup(live, id) is None ==> history_after_completion(history, live, id) == history,
{
    lemma_without_key(live, id);
    lemma_lookup(without_key(live, id), id);
}

} // verus!
