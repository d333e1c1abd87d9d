use fuente_state::admin::config::{config_note_action, whitelist_update_content, AdminConfigurationType, ServerConfigs, ServerConfigsAction};
use fuente_state::gates::{admin_login_gate, business_login_gate, consumer_loading_gate, courier_login_gate, courier_profile_gate, GateView};
use fuente_state::json::{decode_commerce_whitelist, decode_courier_whitelist, encode_whitelist};
use fuente_state::model::Note;
use fuente_state::nostr::{config_type_tag, order_tag_fields};
use fuente_state::text::{bytes_contain, bytes_less, is_listed_line, search_matches};

fn note(tags: Vec<Vec<&str>>) -> Note {
    Note {
        id: None,
        pubkey: "pk".to_string(),
        created_at: 0,
        kind: 1,
        tags: tags.into_iter().map(|r| r.into_iter().map(|c| c.to_string()).collect()).collect(),
        content: String::new(),
        sig: None,
    }
}

#[test]
fn whitelist_json_reads_back() {
    let list = vec!["a\"b".to_string(), "c".to_string()];
    let text = encode_whitelist(&list);
    assert_eq!(text, "[\"a\\\"b\",\"c\"]");
    assert_eq!(decode_commerce_whitelist(&text), Some(list.clone()));
    assert_eq!(decode_courier_whitelist(&text), Some(list));
}

#[test]
fn courier_whitelist_object_and_bad_text() {
    assert_eq!(decode_courier_whitelist("{\"active\":[\"x\",\"y\"]}"), Some(vec!["x".to_string(), "y".to_string()]));
    assert_eq!(decode_courier_whitelist("{\"other\":[]}"), None);
    assert_eq!(decode_courier_whitelist("7"), None);
    assert_eq!(decode_courier_whitelist("not json"), None);
    assert_eq!(decode_commerce_whitelist("{\"active\":[]}"), None);
}

#[test]
fn registering_and_unregistering_update_the_list() {
    let wl = vec!["a".to_string(), "b".to_string(), "a".to_string()];
    assert_eq!(whitelist_update_content(&wl, "c", true), "[\"a\",\"b\",\"a\",\"c\"]");
    assert_eq!(whitelist_update_content(&wl, "a", false), "[\"b\"]");
    let content = whitelist_update_content(&wl, "c", true);
    match config_note_action::<()>(AdminConfigurationType::CommerceWhitelist, &content) {
        Some(ServerConfigsAction::UpdateCommerceWhitelist(w)) => assert_eq!(w.len(), 4),
        _ => panic!("expected a commerce whitelist"),
    }
    assert!(config_note_action::<()>(AdminConfigurationType::ExchangeRate, "1.0").is_none());
}

#[test]
fn server_configs_take_published_whitelists() {
    let mut configs: ServerConfigs<()> = ServerConfigs::new();
    configs.reduce(ServerConfigsAction::UpdateCommerceWhitelist(vec!["shop".to_string()]));
    assert!(configs.check_commerce_whitelist("shop"));
    assert!(!configs.check_commerce_whitelist("other"));
    configs.reduce(ServerConfigsAction::AddCommerce(note(vec![])));
    assert_eq!(configs.get_unregistered_commerces().len(), 1);
    assert!(configs.loading());
    configs.reduce(ServerConfigsAction::FinishLoading);
    assert!(!configs.loading());
}

#[test]
fn tags_give_order_fields_and_config_type() {
    let n = note(vec![vec!["d", "order-1", "x", "exchange_rate"], vec!["status", "Pending"], vec!["status", "Other"]]);
    let (id, status) = order_tag_fields(&n);
    assert_eq!(id, "order-1");
    assert_eq!(status, "Pending");
    assert_eq!(config_type_tag(&n), Some("exchange_rate".to_string()));
    let empty = note(vec![vec!["p", "k"]]);
    let (id, status) = order_tag_fields(&empty);
    assert_eq!(id, "");
    assert_eq!(status, "");
    assert_eq!(config_type_tag(&empty), None);
}

#[test]
fn gates_for_each_app() {
    let wl = vec!["me".to_string()];
    let me = "me".to_string();
    let other = "other".to_string();
    assert_eq!(courier_login_gate(false, true, Some(&me), &wl), GateView::Loading);
    assert_eq!(courier_login_gate(true, true, None, &wl), GateView::SignIn);
    assert_eq!(courier_login_gate(true, true, Some(&other), &wl), GateView::AwaitingApproval);
    assert_eq!(courier_login_gate(true, true, Some(&me), &wl), GateView::Pages);
    assert_eq!(courier_profile_gate(true, false, true), GateView::Loading);
    assert_eq!(courier_profile_gate(true, true, false), GateView::NewProfile);
    assert_eq!(business_login_gate(true, true, Some(&me), false, true, false, &wl), GateView::Loading);
    assert_eq!(business_login_gate(true, true, Some(&me), true, true, false, &wl), GateView::NewProfile);
    assert_eq!(business_login_gate(true, true, Some(&me), true, false, false, &wl), GateView::Pages);
    assert_eq!(business_login_gate(true, true, Some(&other), true, true, true, &wl), GateView::AwaitingApproval);
    let admins = "  first\n   me  \r\nthird\n";
    assert_eq!(admin_login_gate(true, Some(&me), false, false, admins), GateView::Pages);
    assert_eq!(admin_login_gate(true, Some(&other), false, false, admins), GateView::NotAuthorized);
    assert_eq!(admin_login_gate(true, Some(&me), true, false, admins), GateView::Loading);
    assert_eq!(admin_login_gate(true, None, true, false, admins), GateView::SignIn);
    assert_eq!(consumer_loading_gate(true, true, false), GateView::Loading);
    assert_eq!(consumer_loading_gate(true, true, true), GateView::Pages);
}

#[test]
fn text_helpers() {
    assert!(bytes_less(b"abc", b"abd"));
    assert!(bytes_less(b"ab", b"abc"));
    assert!(!bytes_less(b"abc", b"abc"));
    assert!(!bytes_less(b"b", b"abc"));
    assert!(bytes_contain(b"hello", b"ell"));
    assert!(bytes_contain(b"hello", b""));
    assert!(!bytes_contain(b"he", b"hello"));
    assert!(search_matches("ÁRBOL Verde", "árbol v"));
    assert!(!search_matches("Rojo", "verde"));
    assert!(is_listed_line("a\n b \nc", &"b".to_string()));
    assert!(!is_listed_line("a\nbb\nc", &"b".to_string()));
}
