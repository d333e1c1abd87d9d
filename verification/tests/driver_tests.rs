use fuente_state::driver::commerce_data::{CommerceData, CommerceDataAction};
use fuente_state::driver::driver_data::{DriverData, DriverDataAction, SignedProfile};
use fuente_state::driver::order_hub::{hub_action_for, OrderHub, OrderHubAction};
use fuente_state::driver::pages::{courier_home_view, courier_next_status, has_coordinates, pickable_orders, CourierHomeView};
use fuente_state::model::{Listing, OrderEntry, OrderPaymentStatus, OrderStatus};

fn order(id: &str, status: OrderStatus, courier: Option<&str>, data: u32) -> OrderEntry<u32> {
    OrderEntry {
        order_id: id.to_string(),
        order_status: status,
        payment_status: OrderPaymentStatus::PaymentSuccess,
        courier: courier.map(|c| c.to_string()),
        commerce_pubkey: "shop".to_string(),
        timestamp: 1,
        data,
    }
}

fn live_ids(hub: &OrderHub<u32>) -> Vec<String> {
    hub.live_orders().iter().map(|o| o.order_id.clone()).collect()
}

#[test]
fn loading_orders_splits_live_and_history() {
    let mut hub: OrderHub<u32> = OrderHub::new();
    hub.reduce(OrderHubAction::LoadOrders(vec![
        order("a", OrderStatus::Pending, None, 0),
        order("b", OrderStatus::Completed, None, 0),
        order("c", OrderStatus::ReadyForDelivery, None, 0),
        order("d", OrderStatus::Canceled, None, 0),
    ]));
    assert_eq!(live_ids(&hub), vec!["a", "c"]);
    let hist: Vec<_> = hub.order_history().iter().map(|o| o.order_id.clone()).collect();
    assert_eq!(hist, vec!["b", "d"]);
    assert!(!hub.finished_loading());
    hub.reduce(OrderHubAction::FinishedLoadingRelays);
    assert!(hub.finished_loading());
}

#[test]
fn updates_replace_in_place_and_assignments_move_last() {
    let mut hub: OrderHub<u32> = OrderHub::new();
    hub.reduce(OrderHubAction::UpdateOrder(order("a", OrderStatus::Pending, None, 1)));
    hub.reduce(OrderHubAction::UpdateOrder(order("b", OrderStatus::Pending, None, 1)));
    hub.reduce(OrderHubAction::UpdateOrder(order("a", OrderStatus::ReadyForDelivery, None, 2)));
    assert_eq!(live_ids(&hub), vec!["a", "b"]);
    assert_eq!(hub.live_orders()[0].data, 2);
    hub.reduce(OrderHubAction::AssignOrder(order("a", OrderStatus::InDelivery, Some("me"), 3)));
    assert_eq!(live_ids(&hub), vec!["b", "a"]);
    assert_eq!(hub.live_orders()[1].data, 3);
    assert!(hub.has_live_order());
    assert_eq!(hub.get_live_order().map(|o| o.order_id.as_str()), Some("a"));
}

#[test]
fn completed_order_moves_to_history_and_frees_courier() {
    let mut hub: OrderHub<u32> = OrderHub::new();
    hub.reduce(OrderHubAction::UpdateOrder(order("a", OrderStatus::Pending, None, 1)));
    hub.reduce(OrderHubAction::AssignOrder(order("b", OrderStatus::InDelivery, Some("me"), 5)));
    hub.reduce(OrderHubAction::OrderCompleted("b".to_string()));
    assert_eq!(live_ids(&hub), vec!["a"]);
    assert_eq!(hub.order_history().len(), 1);
    assert_eq!(hub.order_history()[0].order_id, "b");
    assert_eq!(hub.order_history()[0].data, 5);
    assert!(!hub.has_live_order());
    hub.reduce(OrderHubAction::OrderCompleted("zzz".to_string()));
    assert_eq!(hub.order_history().len(), 1);
    assert_eq!(live_ids(&hub), vec!["a"]);
}

#[test]
fn hub_notes_turn_into_actions() {
    let me = "me".to_string();
    match hub_action_for(order("a", OrderStatus::Completed, Some("me"), 0), &me) {
        Some(OrderHubAction::OrderCompleted(id)) => assert_eq!(id, "a"),
        _ => panic!("expected completion"),
    }
    match hub_action_for(order("a", OrderStatus::InDelivery, Some("me"), 0), &me) {
        Some(OrderHubAction::AssignOrder(o)) => assert_eq!(o.order_id, "a"),
        _ => panic!("expected assignment"),
    }
    assert!(hub_action_for(order("a", OrderStatus::InDelivery, Some("other"), 0), &me).is_none());
    match hub_action_for(order("a", OrderStatus::ReadyForDelivery, None, 0), &me) {
        Some(OrderHubAction::UpdateOrder(o)) => assert_eq!(o.order_id, "a"),
        _ => panic!("expected update"),
    }
}

#[test]
fn courier_home_page_and_buttons() {
    let commerce: CommerceData<(), (), ()> = CommerceData::new();
    let mut hub: OrderHub<u32> = OrderHub::new();
    assert_eq!(courier_home_view(&commerce, &hub), CourierHomeView::NoOrders);
    hub.reduce(OrderHubAction::UpdateOrder(order("a", OrderStatus::ReadyForDelivery, None, 0)));
    hub.reduce(OrderHubAction::UpdateOrder(order("b", OrderStatus::Preparing, None, 0)));
    assert_eq!(courier_home_view(&commerce, &hub), CourierHomeView::OrderList);
    let pick: Vec<_> = pickable_orders(&hub).iter().map(|o| o.order_id.clone()).collect();
    assert_eq!(pick, vec!["a"]);
    hub.reduce(OrderHubAction::AssignOrder(order("a", OrderStatus::ReadyForDelivery, Some("me"), 0)));
    assert_eq!(courier_home_view(&commerce, &hub), CourierHomeView::AssignedOrder);
    let mut loading = CommerceData::<(), (), ()>::new();
    loading.loaded_relays = false;
    assert_eq!(courier_home_view(&loading, &hub), CourierHomeView::Loading);
    assert_eq!(courier_next_status(OrderStatus::ReadyForDelivery), Some(OrderStatus::InDelivery));
    assert_eq!(courier_next_status(OrderStatus::InDelivery), Some(OrderStatus::Completed));
    assert_eq!(courier_next_status(OrderStatus::Pending), None);
    assert!(has_coordinates("10.5", "-66.9"));
    assert!(!has_coordinates("", "-66.9"));
    assert!(!has_coordinates("10.5", ""));
}

#[test]
fn courier_commerce_data_updates_move_last() {
    let mut data: CommerceData<(), (), ()> = CommerceData::new();
    assert!(data.finished_loading());
    let l = |id: &str, name: &str| Listing { id: id.to_string(), owner: "o".to_string(), name: name.to_string(), data: () };
    data.reduce(CommerceDataAction::LoadCommerceData(vec![l("a", "A"), l("b", "B")]));
    data.reduce(CommerceDataAction::UpdateCommerceProfile(l("a", "A2")));
    let names: Vec<_> = data.commerces().iter().map(|c| c.name.as_str()).collect();
    assert_eq!(names, vec!["B", "A2"]);
    assert_eq!(data.find_commerce("a").map(|c| c.name.as_str()), Some("A2"));
    assert!(data.find_commerce("c").is_none());
}

#[test]
fn courier_profile_lifecycle() {
    let mut d: DriverData<String, u32> = DriverData::new();
    assert!(!d.finished_loading());
    d.reduce(DriverDataAction::FinishedLoadingRelays);
    assert!(!d.finished_loading());
    d.reduce(DriverDataAction::FinishedLoadingDb);
    assert!(d.finished_loading());
    d.reduce(DriverDataAction::NewProfile(SignedProfile { profile: "Ana".to_string(), note: 7 }));
    assert_eq!(d.get_profile().map(|p| p.as_str()), Some("Ana"));
    assert_eq!(d.get_profile_note(), Some(&7));
    d.reduce(DriverDataAction::DeleteProfile(SignedProfile { profile: "Ana".to_string(), note: 7 }));
    assert!(d.get_profile().is_none());
}
