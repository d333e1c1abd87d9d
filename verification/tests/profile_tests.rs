use fuente_state::address::{addresses_default_first, AddressEntry};
use fuente_state::consumer::auth::{require_auth, LoginState, LoginStateAction};
use fuente_state::consumer::consumer_data::{ConsumerData, ConsumerDataAction};
use fuente_state::consumer::favorites::{favorite_commerces, favorites_of_user, Favorite, FavoritesAction, FavoritesData};
use fuente_state::consumer::live_order::{
    live_order_panel, order_update_action, rating_visibility, LiveOrder, LiveOrderAction, LiveOrderPanel,
};
use fuente_state::consumer::ratings::{Rating, RatingsAction, RatingsData};
use fuente_state::model::{Listing, OrderEntry, OrderParticipant, OrderPaymentStatus, OrderStatus};

fn addr(id: &str, is_default: bool) -> AddressEntry<()> {
    AddressEntry { id: id.to_string(), is_default, address: () }
}

#[test]
fn address_list_shows_defaults_first_reversed() {
    let v = vec![addr("a", false), addr("b", true), addr("c", false), addr("d", true)];
    let shown: Vec<_> = addresses_default_first(&v).iter().map(|a| a.id.as_str()).collect();
    assert_eq!(shown, vec!["d", "b", "c", "a"]);
}

#[test]
fn setting_a_default_address_marks_only_that_id() {
    let mut data: ConsumerData<String, ()> = ConsumerData::new();
    data.reduce(ConsumerDataAction::LoadAddresses(vec![addr("a", true), addr("b", false), addr("c", false)]));
    assert_eq!(data.get_default_address().map(|a| a.id.as_str()), Some("a"));
    data.reduce(ConsumerDataAction::SetDefaultAddress(addr("c", false)));
    assert_eq!(data.get_default_address().map(|a| a.id.as_str()), Some("c"));
    let flags: Vec<_> = data.get_addresses().iter().map(|a| a.is_default).collect();
    assert_eq!(flags, vec![false, false, true]);
    data.reduce(ConsumerDataAction::DeleteAddress(addr("c", true)));
    assert!(data.get_default_address().is_none());
    assert!(data.get_profile().is_none());
    data.reduce(ConsumerDataAction::NewProfile("Eva".to_string()));
    assert_eq!(data.get_profile().map(|p| p.as_str()), Some("Eva"));
}

fn fav(commerce: &str, user: &str) -> Favorite<()> {
    Favorite { commerce_id: commerce.to_string(), user_id: user.to_string(), data: () }
}

#[test]
fn favorites_add_and_remove() {
    let mut favs: FavoritesData<()> = FavoritesData::new();
    favs.reduce(FavoritesAction::AddFavorite(fav("shop", "u1")));
    assert!(favs.is_favorite("shop"));
    favs.reduce(FavoritesAction::AddFavorite(fav("shop", "u1")));
    favs.reduce(FavoritesAction::AddFavorite(fav("bar", "u1")));
    favs.reduce(FavoritesAction::RemoveFavorite("shop".to_string()));
    assert!(!favs.is_favorite("shop"));
    assert!(favs.is_favorite("bar"));
    assert!(!favs.is_loaded());
    favs.reduce(FavoritesAction::SetLoaded);
    assert!(favs.is_loaded());
}

#[test]
fn favorites_by_user_and_favorite_commerces() {
    let mine = favorites_of_user(vec![fav("a", "u1"), fav("b", "u2"), fav("c", "u1")], &"u1".to_string());
    let ids: Vec<_> = mine.iter().map(|f| f.commerce_id.as_str()).collect();
    assert_eq!(ids, vec!["a", "c"]);
    let commerces: Vec<Listing<()>> = ["a", "b", "c"]
        .iter()
        .map(|id| Listing { id: id.to_string(), owner: "o".to_string(), name: id.to_uppercase(), data: () })
        .collect();
    let shown: Vec<_> = favorite_commerces(&commerces, &mine).iter().map(|c| c.name.as_str()).collect();
    assert_eq!(shown, vec!["A", "C"]);
}

#[test]
fn ratings_update_in_place() {
    let mut ratings: RatingsData<u8> = RatingsData::new();
    ratings.reduce(RatingsAction::UpdateRating(Rating { pubkey: "k".to_string(), participant: OrderParticipant::Courier, data: 1 }));
    ratings.reduce(RatingsAction::UpdateRating(Rating { pubkey: "s".to_string(), participant: OrderParticipant::Commerce, data: 4 }));
    ratings.reduce(RatingsAction::UpdateRating(Rating { pubkey: "k".to_string(), participant: OrderParticipant::Commerce, data: 5 }));
    assert_eq!(ratings.get_rating("k").map(|r| r.data), Some(5));
    assert_eq!(ratings.get_business_rating("s").map(|r| r.data), Some(4));
    assert_eq!(ratings.get_business_rating("k").map(|r| r.data), Some(5));
    assert!(ratings.get_business_rating("x").is_none());
}

fn entry(id: &str, status: OrderStatus, payment: OrderPaymentStatus) -> OrderEntry<()> {
    OrderEntry {
        order_id: id.to_string(),
        order_status: status,
        payment_status: payment,
        courier: None,
        commerce_pubkey: "shop".to_string(),
        timestamp: 0,
        data: (),
    }
}

#[test]
fn live_orders_and_their_panels() {
    let mut live: LiveOrder<()> = LiveOrder::new();
    let first = order_update_action(entry("a", OrderStatus::Pending, OrderPaymentStatus::PaymentPending)).unwrap();
    live.reduce(first);
    assert!(order_update_action(entry("a", OrderStatus::Pending, OrderPaymentStatus::PaymentFailed)).is_none());
    live.reduce(LiveOrderAction::UpdateOrder(entry("a", OrderStatus::Preparing, OrderPaymentStatus::PaymentSuccess)));
    assert_eq!(live.live_orders.len(), 1);
    assert_eq!(live.live_orders[0].order_status, OrderStatus::Preparing);
    live.reduce(LiveOrderAction::CompleteOrder("a".to_string()));
    assert!(live.live_orders.is_empty());
    assert_eq!(live_order_panel(OrderPaymentStatus::PaymentPending, OrderStatus::Pending, false), LiveOrderPanel::Invoice);
    assert_eq!(live_order_panel(OrderPaymentStatus::PaymentReceived, OrderStatus::Pending, false), LiveOrderPanel::AwaitingConfirmation);
    assert_eq!(live_order_panel(OrderPaymentStatus::PaymentSuccess, OrderStatus::InDelivery, true), LiveOrderPanel::Tracking);
    assert_eq!(live_order_panel(OrderPaymentStatus::PaymentSuccess, OrderStatus::ReadyForDelivery, true), LiveOrderPanel::CourierAssigned);
    assert_eq!(live_order_panel(OrderPaymentStatus::PaymentSuccess, OrderStatus::Preparing, false), LiveOrderPanel::Paid);
    assert_eq!(live_order_panel(OrderPaymentStatus::PaymentSuccess, OrderStatus::Completed, true), LiveOrderPanel::Closed);
    assert_eq!(rating_visibility(false, OrderStatus::Completed, OrderPaymentStatus::PaymentSuccess), Some(true));
    assert_eq!(rating_visibility(true, OrderStatus::Completed, OrderPaymentStatus::PaymentSuccess), None);
    assert_eq!(rating_visibility(true, OrderStatus::Preparing, OrderPaymentStatus::PaymentSuccess), Some(false));
    assert_eq!(rating_visibility(false, OrderStatus::Canceled, OrderPaymentStatus::PaymentFailed), None);
}

#[test]
fn sign_in_prompt() {
    assert_eq!(require_auth(true), None);
    assert_eq!(require_auth(false), Some(LoginStateAction::Show));
    let s = LoginState::new();
    assert!(!s.show_modal);
    assert!(s.reduce(LoginStateAction::Show).show_modal);
    assert!(!s.reduce(LoginStateAction::Show).reduce(LoginStateAction::Hide).show_modal);
}
