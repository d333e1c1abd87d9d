use fuente_state::admin::subscriptions::PendingSubscriptions;
use fuente_state::admin::stats::{OrderStat, PlatformStats, PlatformStatsAction};
use fuente_state::business::order_data::{OrderData, OrderDataAction};
use fuente_state::model::{Note, OrderEntry, OrderPaymentStatus, OrderStatus};

fn stat(id: &str, status: OrderStatus) -> OrderStat {
    OrderStat { order_id: id.to_string(), status }
}

fn user(pk: &str) -> Note {
    Note { id: None, pubkey: pk.to_string(), created_at: 0, kind: 0, tags: vec![], content: String::new(), sig: None }
}

#[test]
fn order_counts_follow_the_latest_status() {
    let mut stats = PlatformStats::new();
    stats.reduce(PlatformStatsAction::LoadStats(
        vec![user("u1")],
        vec![stat("a", OrderStatus::Completed), stat("b", OrderStatus::Canceled), stat("a", OrderStatus::Canceled)],
    ));
    assert_eq!(stats.count_completed_orders(), 0);
    assert_eq!(stats.count_pending_orders(), 2);
    assert_eq!(stats.order_status("a"), Some(OrderStatus::Canceled));
    stats.reduce(PlatformStatsAction::AddOrder("b".to_string(), Some(OrderStatus::Completed)));
    assert_eq!(stats.count_completed_orders(), 1);
    assert_eq!(stats.count_pending_orders(), 1);
    stats.reduce(PlatformStatsAction::AddOrder("c".to_string(), None));
    assert_eq!(stats.order_status("c"), Some(OrderStatus::Pending));
    stats.reduce(PlatformStatsAction::AddUser(user("u2")));
    assert_eq!(stats.count_users(), 2);
    assert!(stats.loading());
    stats.reduce(PlatformStatsAction::FinishLoading);
    assert!(!stats.loading());
}

fn entry(id: &str, status: OrderStatus) -> OrderEntry<()> {
    OrderEntry {
        order_id: id.to_string(),
        order_status: status,
        payment_status: OrderPaymentStatus::PaymentSuccess,
        courier: None,
        commerce_pubkey: "shop".to_string(),
        timestamp: 0,
        data: (),
    }
}

#[test]
fn business_orders_split_and_filter() {
    let mut data: OrderData<()> = OrderData::new();
    data.reduce(OrderDataAction::LoadOrderHistory(vec![
        Some(entry("a", OrderStatus::Pending)),
        None,
        Some(entry("b", OrderStatus::Completed)),
        Some(entry("c", OrderStatus::Preparing)),
    ]));
    assert_eq!(data.live_orders().len(), 2);
    assert_eq!(data.order_history().len(), 1);
    data.reduce(OrderDataAction::UpdateCommerceOrder(Some(entry("a", OrderStatus::Preparing))));
    let preparing: Vec<_> = data.filter_by_order_status(OrderStatus::Preparing).iter().map(|o| o.order_id.clone()).collect();
    assert_eq!(preparing, vec!["c", "a"]);
    data.reduce(OrderDataAction::UpdateCommerceOrder(None));
    assert_eq!(data.live_orders().len(), 2);
    assert_eq!(data.filter_by_payment_status(OrderPaymentStatus::PaymentSuccess).len(), 2);
}

#[test]
fn loading_ends_with_the_last_pending_subscription() {
    let mut pending = PendingSubscriptions::new();
    assert!(pending.is_empty());
    pending.insert("users".to_string());
    pending.insert("orders".to_string());
    pending.insert("users".to_string());
    assert!(!pending.end(&"unknown".to_string()));
    assert!(!pending.end(&"users".to_string()));
    assert!(!pending.end(&"users".to_string()));
    assert!(pending.end(&"orders".to_string()));
    assert!(pending.is_empty());
    assert!(!pending.end(&"orders".to_string()));
}
