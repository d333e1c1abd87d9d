//! The consumer's orders in progress and what the live order page shows.

use vstd::prelude::*;
use crate::keyed::{upserted, upsert, without_key, remove_key};
use crate::model::{OrderEntry, OrderStatus, OrderPaymentStatus, is_terminal, status_is_terminal};

verus! {

/// The consumer's live orders, and whether the relays answered.
#[derive(Clone, Debug)]
pub struct LiveOrder<T> {
    pub live_orders: Vec<OrderEntry<T>>,
    pub has_loaded: bool,
}

/// The changes the live order context receives.
pub enum LiveOrderAction<T> {
    FinishedLoadingRelay,
    UpdateOrder(OrderEntry<T>),
    LoadOrders(Vec<OrderEntry<T>>),
    CompleteOrder(String),
}

impl<T> LiveOrder<T> {
    /// No orders yet.
    pub fn new() -> (r: Self)
        ensures
            r.live_orders@.len() == 0,
            !r.has_loaded,
    {
        LiveOrder { live_orders: Vec::new(), has_loaded: false }
    }

    /// Applies one change. An order update replaces the order with the same
    /// id; a completed order leaves the list; once loaded, the orders stay
    /// loaded.
    pub fn reduce(&mut self, action: LiveOrderAction<T>)
        ensures
            old(self).has_loaded ==> final(self).has_loaded,
            match action {
                LiveOrderAction::FinishedLoadingRelay => {
                    &&& final(self).has_loaded
                    &&& final(self).live_orders@ == old(self).live_orders@
                },
                LiveOrderAction::UpdateOrder(e) => {
                    &&& final(self).has_loaded == old(self).has_loaded
                    &&& final(self).live_orders@ == upserted(old(self).live_orders@, e)
                },
                LiveOrderAction::LoadOrders(v) => {
                    &&& final(self).has_loaded == old(self).has_loaded
                    &&& final(self).live_orders@ == v@
                },
                LiveOrderAction::CompleteOrder(id) => {
                    &&& final(self).has_loaded == old(self).has_loaded
                    &&& final(self).live_orders@ == without_key(old(self).live_orders@, id@)
                },
            },
    {
        match action {
            LiveOrderAction::FinishedLoadingRelay => {
                self.has_loaded = true;
            },
            LiveOrderAction::UpdateOrder(e) => {
                upsert(&mut self.live_orders, e);
            },
            LiveOrderAction::LoadOrders(v) => {
                self.live_orders = v;
            },
            LiveOrderAction::CompleteOrder(id) => {
                remove_key(&mut self.live_orders, &id);
            },
        }
    }
}

/// What an order state note received from the relays changes: an order
/// whose payment failed changes nothing; any other updates its order.
pub fn order_update_action<T>(e: OrderEntry<T>) -> (r: Option<LiveOrderAction<T>>)
    ensures
        match r {
            Some(LiveOrderAction::UpdateOrder(u)) => u == e && e.payment_status
                != OrderPaymentStatus::PaymentFailed,
            None => e.payment_status == OrderPaymentStatus::PaymentFailed,
            _ => false,
        },
{
    if e.payment_status == OrderPaymentStatus::PaymentFailed {
        None
    } else {
        Some(LiveOrderAction::UpdateOrder(e))
    }
}

/// Whether the rating prompt belongs on screen: the order is completed or
/// canceled and its payment succeeded.
pub open spec fn wants_rating(status: OrderStatus, payment: OrderPaymentStatus) -> bool {
    is_terminal(status) && payment == OrderPaymentStatus::PaymentSuccess
}

/// The new value of the "show rating" flag for an order, when it changes:
/// it turns on when a rating is wanted and off when it is not.
pub fn rating_visibility(showing: bool, status: OrderStatus, payment: OrderPaymentStatus) -> (r: Option<bool>)
    ensures
        r == (if wants_rating(status, payment) && !showing {
            Some(true)
        } else if !wants_rating(status, payment) && showing {
            Some(false)
        } else {
            None
        }),
{
    let wanted = status_is_terminal(status) && payment == OrderPaymentStatus::PaymentSuccess;
    if wanted && !showing {
        Some(true)
    } else if !wanted && showing {
        Some(false)
    } else {
        None
    }
}

/// What the live order page shows of an order.
#[derive(Clone, Copy, Debug, PartialEq, Eq, Structural)]
pub enum LiveOrderPanel {
    /// The invoice to pay.
    Invoice,
    /// The payment arrived and the commerce has yet to confirm.
    AwaitingConfirmation,
    /// The order is on its way: the tracking map.
    Tracking,
    /// The order is paid and a courier took it.
    CourierAssigned,
    /// The order is paid and no courier took it yet.
    Paid,
    /// Nothing but the rating prompt, if any.
    Closed,
}

/// The panel for an order with these statuses.
pub open spec fn panel_of(payment: OrderPaymentStatus, status: OrderStatus, has_courier: bool) -> LiveOrderPanel {
    match payment {
        OrderPaymentStatus::PaymentPending => LiveOrderPanel::Invoice,
        OrderPaymentStatus::PaymentReceived => LiveOrderPanel::AwaitingConfirmation,
        OrderPaymentStatus::PaymentSuccess => if is_terminal(status) {
            LiveOrderPanel::Closed
        } else if status == OrderStatus::InDelivery {
            LiveOrderPanel::Tracking
        } else if has_courier {
            LiveOrderPanel::CourierAssigned
        } else {
            LiveOrderPanel::Paid
        },
        OrderPaymentStatus::PaymentFailed => LiveOrderPanel::Closed,
    }
}

/// A paid order that is completed or canceled shows only its closing, never
/// an order in progress; the tracking map shows only for a paid order on its
/// way; an order shows as paid and in progress only while it is paid,
/// neither finished nor on its way; an unpaid invoice shows while payment
/// is pending, and a failed payment closes the order.
pub proof fn lemma_panel_meaning(payment: OrderPaymentStatus, status: OrderStatus, has_courier: bool)
    ensures
        payment == OrderPaymentStatus::PaymentSuccess && (status == OrderStatus::Completed || status
            == OrderStatus::Canceled) ==> panel_of(payment, status, has_courier) == LiveOrderPanel::Closed,
        panel_of(payment, status, has_courier) == LiveOrderPanel::Tracking <==> (payment
            == OrderPaymentStatus::PaymentSuccess && status == OrderStatus::InDelivery),
        (panel_of(payment, status, has_courier) == LiveOrderPanel::Paid || panel_of(payment, status, has_courier)
            == LiveOrderPanel::CourierAssigned) ==> payment == OrderPaymentStatus::PaymentSuccess && status
            != OrderStatus::Completed && status != OrderStatus::Canceled && status != OrderStatus::InDelivery,
        (panel_of(payment, status, has_courier) == LiveOrderPanel::Invoice) == (payment
            == OrderPaymentStatus::PaymentPending),
        payment == OrderPaymentStatus::PaymentFailed ==> panel_of(payment, status, has_courier)
            == LiveOrderPanel::Closed,
{
}

/// Picks the panel the live order page shows for an order.
pub fn live_order_panel(payment: OrderPaymentStatus, status: OrderStatus, has_courier: bool) -> (r: LiveOrderPanel)
    ensures
        r == panel_of(payment, status, has_courier),
        payment == OrderPaymentStatus::PaymentSuccess && (status == OrderStatus::Completed || status
            == OrderStatus::Canceled) ==> r == LiveOrderPanel::Closed,
        r == LiveOrderPanel::Tracking ==> payment == OrderPaymentStatus::PaymentSuccess && status
            == OrderStatus::InDelivery,
        (r == LiveOrderPanel::Paid || r == LiveOrderPanel::CourierAssigned) ==> payment
            == OrderPaymentStatus::PaymentSuccess && status != OrderStatus::Completed && status
            != OrderStatus::Canceled && status != OrderStatus::InDelivery,
{
    match payment {
        OrderPaymentStatus::PaymentPending => LiveOrderPanel::Invoice,
        OrderPaymentStatus::PaymentReceived => LiveOrderPanel::AwaitingConfirmation,
        OrderPaymentStatus::PaymentSuccess => if status_is_terminal(status) {
            LiveOrderPanel::Closed
        } else if status == OrderStatus::InDelivery {
            LiveOrderPanel::Tracking
        } else if has_courier {
            LiveOrderPanel::CourierAssigned
        } else {
            LiveOrderPanel::Paid
        },
        OrderPaymentStatus::PaymentFailed => LiveOrderPanel::Closed,
    }
}

/// What closing the rating prompt of an order does: the prompt hides, and
/// the order leaves the live orders.
pub fn rating_prompt_closed<T>(order_id: String) -> (r: (bool, LiveOrderAction<T>))
    ensures
        !r.0,
        r.1 == LiveOrderAction::<T>::CompleteOrder(order_id),
{
    (false, LiveOrderAction::CompleteOrder(order_id))
}

} // verus!
