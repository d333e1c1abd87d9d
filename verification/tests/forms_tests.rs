use fuente_state::business::menu_form::{kept_discount, new_category_index, new_product_place, CategorySummary};
use fuente_state::consumer::cart::{Cart, CartAction};
use fuente_state::consumer::live_order::{rating_prompt_closed, LiveOrderAction};
use fuente_state::consumer::pages::{cart_button_outcome, search_commerces, settings_redirect, shows_frame, CartButtonOutcome, EntryView};
use fuente_state::json::encode_whitelist;
use fuente_state::model::Listing;
use fuente_state::text::search_matches;
use fuente_state::driver::order_hub::OrderHubAction;
use fuente_state::driver::pages::courier_button_press;
use fuente_state::model::OrderStatus;
use fuente_state::product::ProductItem;
use fuente_state::text::is_listed_line;

fn cat(name: &str, count: usize) -> CategorySummary {
    CategorySummary { id: name.to_lowercase(), name: name.to_string(), product_count: count }
}

#[test]
fn product_forms_place_new_products_and_categories() {
    let cats = vec![cat("Drinks", 3), cat("Bread", 0), cat("Drinks", 7)];
    assert_eq!(new_product_place(&cats, "Drinks"), Some((0, 3)));
    assert_eq!(new_product_place(&cats, "Bread"), Some((1, 0)));
    assert_eq!(new_product_place(&cats, "Meat"), None);
    assert_eq!(new_category_index(Some(3)), 3);
    assert_eq!(new_category_index(None), 0);
    assert_eq!(kept_discount(true, Some("0.5".to_string())), Some("0.5".to_string()));
    assert_eq!(kept_discount(false, Some("0.5".to_string())), None);
}

#[test]
fn cart_button_guards() {
    let mut cart: Cart<()> = Cart::new();
    assert_eq!(cart_button_outcome(false, true, &cart, "shop"), CartButtonOutcome::ToLogin);
    assert_eq!(cart_button_outcome(true, false, &cart, "shop"), CartButtonOutcome::ToRegister);
    assert_eq!(cart_button_outcome(true, true, &cart, "shop"), CartButtonOutcome::Add);
    cart.reduce(CartAction::AddProduct(
        ProductItem { id: "p".to_string(), name: "P".to_string(), price: "1".to_string(), data: () },
        "shop".to_string(),
    ));
    assert_eq!(cart_button_outcome(true, true, &cart, "other"), CartButtonOutcome::OtherStore);
    assert_eq!(cart_button_outcome(true, true, &cart, "shop"), CartButtonOutcome::Add);
}

#[test]
fn small_event_outcomes() {
    assert!(shows_frame(false, false));
    assert!(!shows_frame(true, false));
    assert!(!shows_frame(false, true));
    let (showing, action) = rating_prompt_closed::<()>("o1".to_string());
    assert!(!showing);
    assert!(matches!(action, LiveOrderAction::CompleteOrder(id) if id == "o1"));
    let id = "o2".to_string();
    match courier_button_press::<()>(OrderStatus::InDelivery, &id) {
        Some((OrderStatus::Completed, Some(OrderHubAction::OrderCompleted(done)))) => assert_eq!(done, "o2"),
        _ => panic!("expected a delivery"),
    }
    assert!(matches!(courier_button_press::<()>(OrderStatus::ReadyForDelivery, &id), Some((OrderStatus::InDelivery, None))));
    assert!(courier_button_press::<()>(OrderStatus::Canceled, &id).is_none());
}

#[test]
fn listed_lines_trim_unicode_space_and_crlf() {
    let list = "\u{3000}first\r\n\u{a0}second\u{2003}\r\nthird\r";
    assert!(is_listed_line(list, &"second".to_string()));
    assert!(is_listed_line(list, &"first".to_string()));
    assert!(is_listed_line(list, &"third".to_string()));
    assert!(!is_listed_line(list, &"fourth".to_string()));
    assert!(!is_listed_line("", &"".to_string()));
}

#[test]
fn settings_send_users_without_profile_to_registration() {
    assert_eq!(settings_redirect(false), Some(EntryView::ToRegister));
    assert_eq!(settings_redirect(true), None);
}

#[test]
fn whitelist_text_escapes_like_json() {
    let list = vec!["t\tn\nq\"b\\".to_string(), "\u{1}é".to_string()];
    assert_eq!(encode_whitelist(&list), "[\"t\\tn\\nq\\\"b\\\\\",\"\\u0001é\"]");
    assert_eq!(encode_whitelist(&vec![]), "[]");
}

#[test]
fn empty_search_lists_every_commerce() {
    let commerces: Vec<Listing<()>> = ["Zeta", "alpha", ""]
        .iter()
        .map(|n| Listing { id: n.to_string(), owner: "o".to_string(), name: n.to_string(), data: () })
        .collect();
    assert_eq!(search_commerces(&commerces, "").len(), 3);
    assert!(search_matches("", ""));
}
