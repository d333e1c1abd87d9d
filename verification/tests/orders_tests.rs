use fuente_state::model::{OrderEntry, OrderPaymentStatus, OrderStatus};
use fuente_state::orders::{history_lists, select_orders, sort_newest_first, split_open_closed, split_parsed, OrderSelector};

fn order(id: &str, status: OrderStatus, payment: OrderPaymentStatus, ts: u64) -> OrderEntry<u32> {
    OrderEntry {
        order_id: id.to_string(),
        order_status: status,
        payment_status: payment,
        courier: None,
        commerce_pubkey: "shop".to_string(),
        timestamp: ts,
        data: 0,
    }
}

fn ids(v: &[&OrderEntry<u32>]) -> Vec<String> {
    v.iter().map(|o| o.order_id.clone()).collect()
}

#[test]
fn open_and_closed_orders_split_in_order() {
    let v = vec![
        order("a", OrderStatus::Pending, OrderPaymentStatus::PaymentSuccess, 1),
        order("b", OrderStatus::Completed, OrderPaymentStatus::PaymentSuccess, 2),
        order("c", OrderStatus::InDelivery, OrderPaymentStatus::PaymentSuccess, 3),
        order("d", OrderStatus::Canceled, OrderPaymentStatus::PaymentFailed, 4),
    ];
    let (open, closed) = split_open_closed(v);
    let open_ids: Vec<_> = open.iter().map(|o| o.order_id.clone()).collect();
    let closed_ids: Vec<_> = closed.iter().map(|o| o.order_id.clone()).collect();
    assert_eq!(open_ids, vec!["a", "c"]);
    assert_eq!(closed_ids, vec!["b", "d"]);
}

#[test]
fn unparsed_entries_are_dropped_when_splitting() {
    let v = vec![
        None,
        Some(order("a", OrderStatus::Completed, OrderPaymentStatus::PaymentSuccess, 1)),
        Some(order("b", OrderStatus::Preparing, OrderPaymentStatus::PaymentSuccess, 2)),
        None,
    ];
    let (open, closed) = split_parsed(v);
    assert_eq!(open.len(), 1);
    assert_eq!(open[0].order_id, "b");
    assert_eq!(closed.len(), 1);
    assert_eq!(closed[0].order_id, "a");
}

#[test]
fn in_transit_orders_are_paid_and_open() {
    let v = vec![
        order("a", OrderStatus::Pending, OrderPaymentStatus::PaymentPending, 1),
        order("b", OrderStatus::InDelivery, OrderPaymentStatus::PaymentSuccess, 2),
        order("c", OrderStatus::Completed, OrderPaymentStatus::PaymentSuccess, 3),
        order("d", OrderStatus::Preparing, OrderPaymentStatus::PaymentSuccess, 4),
    ];
    let r = select_orders(&v, OrderSelector::InTransit);
    assert_eq!(ids(&r), vec!["b", "d"]);
}

#[test]
fn awaiting_courier_needs_readiness_and_no_courier() {
    let mut taken = order("b", OrderStatus::ReadyForDelivery, OrderPaymentStatus::PaymentSuccess, 2);
    taken.courier = Some("courier".to_string());
    let v = vec![
        order("a", OrderStatus::ReadyForDelivery, OrderPaymentStatus::PaymentSuccess, 1),
        taken,
        order("c", OrderStatus::Preparing, OrderPaymentStatus::PaymentSuccess, 3),
    ];
    let r = select_orders(&v, OrderSelector::AwaitingCourier);
    assert_eq!(ids(&r), vec!["a"]);
}

#[test]
fn status_on_day_uses_utc_days() {
    let v = vec![
        order("a", OrderStatus::Completed, OrderPaymentStatus::PaymentSuccess, 86399),
        order("b", OrderStatus::Completed, OrderPaymentStatus::PaymentSuccess, 86400),
        order("c", OrderStatus::Canceled, OrderPaymentStatus::PaymentSuccess, 86401),
    ];
    let day1 = select_orders(&v, OrderSelector::StatusOnDay(OrderStatus::Completed, Some(1)));
    assert_eq!(ids(&day1), vec!["b"]);
    let day0 = select_orders(&v, OrderSelector::StatusOnDay(OrderStatus::Completed, Some(0)));
    assert_eq!(ids(&day0), vec!["a"]);
    let any = select_orders(&v, OrderSelector::StatusOnDay(OrderStatus::Completed, None));
    assert_eq!(ids(&any), vec!["a", "b"]);
}

#[test]
fn newest_first_sort_is_stable() {
    let v = vec![
        order("a", OrderStatus::Completed, OrderPaymentStatus::PaymentSuccess, 5),
        order("b", OrderStatus::Completed, OrderPaymentStatus::PaymentSuccess, 9),
        order("c", OrderStatus::Completed, OrderPaymentStatus::PaymentSuccess, 5),
        order("d", OrderStatus::Completed, OrderPaymentStatus::PaymentSuccess, 1),
        order("e", OrderStatus::Completed, OrderPaymentStatus::PaymentSuccess, 9),
    ];
    let refs: Vec<&OrderEntry<u32>> = v.iter().collect();
    let sorted = sort_newest_first(refs);
    assert_eq!(ids(&sorted), vec!["b", "e", "a", "c", "d"]);
}

#[test]
fn history_lists_split_and_sort() {
    let v = vec![
        order("a", OrderStatus::Completed, OrderPaymentStatus::PaymentSuccess, 10),
        order("b", OrderStatus::Canceled, OrderPaymentStatus::PaymentSuccess, 20),
        order("c", OrderStatus::Completed, OrderPaymentStatus::PaymentSuccess, 30),
        order("d", OrderStatus::Pending, OrderPaymentStatus::PaymentSuccess, 40),
    ];
    let (done, canceled) = history_lists(&v, None);
    assert_eq!(ids(&done), vec!["c", "a"]);
    assert_eq!(ids(&canceled), vec!["b"]);
}
