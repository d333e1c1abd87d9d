//! Choices the courier app's pages make: what the home page shows, which
//! orders a courier can pick up, and the status a courier's button sends.

use vstd::prelude::*;
use crate::keyed::deref_all;
use crate::model::{OrderEntry, OrderStatus};
use crate::orders::{OrderSelector, selected_by, select_orders};
use crate::driver::commerce_data::CommerceData;
use crate::driver::order_hub::{OrderHub, OrderHubAction};
use crate::text::lemma_encode_utf8_empty;

verus! {

/// What the courier's home page shows.
#[derive(Clone, Copy, Debug, PartialEq, Eq, Structural)]
pub enum CourierHomeView {
    /// The commerces are still loading.
    Loading,
    /// No open order and none taken.
    NoOrders,
    /// The order the courier took.
    AssignedOrder,
    /// The orders waiting for a courier.
    OrderList,
}

/// The home page: a loading screen until the commerces are read, then the
/// courier's own order if there is one, else the open orders, or a notice
/// that there are none.
pub fn courier_home_view<T: Clone, C, P, M>(commerce: &CommerceData<C, P, M>, hub: &OrderHub<T>) -> (r: CourierHomeView)
    ensures
        r == if !(commerce.loaded_db && commerce.loaded_relays) {
            CourierHomeView::Loading
        } else if hub.live_orders@.len() == 0 && hub.assigned_order is None {
            CourierHomeView::NoOrders
        } else if hub.assigned_order is Some {
            CourierHomeView::AssignedOrder
        } else {
            CourierHomeView::OrderList
        },
{
    if !commerce.finished_loading() {
        CourierHomeView::Loading
    } else if hub.live_orders().len() == 0 && !hub.has_live_order() {
        CourierHomeView::NoOrders
    } else if hub.has_live_order() {
        CourierHomeView::AssignedOrder
    } else {
        CourierHomeView::OrderList
    }
}

/// The open orders a courier can pick up: ready for delivery and taken by
/// nobody, in their order.
pub fn pickable_orders<'a, T: Clone>(hub: &'a OrderHub<T>) -> (r: Vec<&'a OrderEntry<T>>)
    ensures
        deref_all(r@) == hub.live_orders@.filter(selected_by::<T>(OrderSelector::AwaitingCourier)),
{
    select_orders(hub.live_orders(), OrderSelector::AwaitingCourier)
}

/// The status the courier's button on a taken order sends: picked up when
/// it was ready, delivered when it was on its way; none otherwise.
pub fn courier_next_status(status: OrderStatus) -> (r: Option<OrderStatus>)
    ensures
        r == match status {
            OrderStatus::ReadyForDelivery => Some(OrderStatus::InDelivery),
            OrderStatus::InDelivery => Some(OrderStatus::Completed),
            _ => None,
        },
{
    match status {
        OrderStatus::ReadyForDelivery => Some(OrderStatus::InDelivery),
        OrderStatus::InDelivery => Some(OrderStatus::Completed),
        _ => None,
    }
}

/// Whether an order's delivery address has coordinates the map can show:
/// neither the latitude nor the longitude is empty.
pub fn has_coordinates(latitude: &str, longitude: &str) -> (r: bool)
    ensures
        r == (latitude@.len() > 0 && longitude@.len() > 0),
{
    proof {
        lemma_encode_utf8_empty(latitude@);
        lemma_encode_utf8_empty(longitude@);
    }
    latitude.as_bytes().len() > 0 && longitude.as_bytes().len() > 0
}

/// What the courier's button on a taken order does: the status it sends,
/// and, when that status is the delivery, the completion of the order in
/// the hub; nothing for an order in any other status.
pub fn courier_button_press<T>(status: OrderStatus, order_id: &String) -> (r: Option<(OrderStatus, Option<OrderHubAction<T>>)>)
    ensures
        r == match status {
            OrderStatus::ReadyForDelivery => Some((OrderStatus::InDelivery, None::<OrderHubAction<T>>)),
            OrderStatus::InDelivery => Some((OrderStatus::Completed, Some(OrderHubAction::<T>::OrderCompleted(*order_id)))),
            _ => None::<(OrderStatus, Option<OrderHubAction<T>>)>,
        },
{
    match courier_next_status(status) {
        Some(OrderStatus::Completed) => Some((OrderStatus::Completed, Some(OrderHubAction::OrderCompleted(order_id.clone())))),
        Some(next) => Some((next, None)),
        None => None,
    }
}

} // verus!
