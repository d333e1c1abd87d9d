use fuente_state::consumer::cart::{Cart, CartAction};
use fuente_state::consumer::commerce_data::{CommerceData, CommerceDataAction, MenuListing, whitelist_filter_action};
use fuente_state::consumer::pages::{
    brand_filter_clicked, listed_products, login_route_view, price_filter_clicked, register_route_view,
    search_commerces, sort_products, EntryView, ProductFilter,
};
use fuente_state::model::Listing;
use fuente_state::product::{ProductItem, ProductOrder};

fn item(id: &str, name: &str, price: &str) -> ProductItem<()> {
    ProductItem { id: id.to_string(), name: name.to_string(), price: price.to_string(), data: () }
}

fn listing(id: &str, owner: &str, name: &str) -> Listing<()> {
    Listing { id: id.to_string(), owner: owner.to_string(), name: name.to_string(), data: () }
}

fn menu(id: &str, owner: &str, cats: Vec<Vec<ProductItem<()>>>) -> MenuListing<(), ()> {
    MenuListing { id: id.to_string(), owner: owner.to_string(), categories: cats, data: () }
}

#[test]
fn cart_add_then_remove_unties_an_empty_cart() {
    let mut cart: Cart<()> = Cart::new();
    cart.reduce(CartAction::AddProduct(item("p1", "Soap", "2.00"), "shop".to_string()));
    assert_eq!(cart.business_id().map(|s| s.as_str()), Some("shop"));
    assert!(cart.can_add_from_business("shop"));
    assert!(!cart.can_add_from_business("other"));
    cart.reduce(CartAction::RemoveProduct(item("p1", "Soap", "2.00")));
    assert!(cart.cart().is_empty());
    assert!(cart.business_id().is_none());
    assert!(cart.can_add_from_business("other"));
}

#[test]
fn cart_keeps_its_commerce_and_records_sent_orders() {
    let mut cart: Cart<()> = Cart::new();
    cart.reduce(CartAction::AddProduct(item("p1", "Soap", "2.00"), "shop".to_string()));
    cart.reduce(CartAction::AddProduct(item("p2", "Rice", "1.00"), "other".to_string()));
    assert_eq!(cart.business_id().map(|s| s.as_str()), Some("shop"));
    cart.reduce(CartAction::AddOne(item("p1", "Soap", "2.00")));
    assert_eq!(cart.cart().len(), 3);
    cart.reduce(CartAction::ClearProduct(item("p1", "Soap", "2.00")));
    assert_eq!(cart.cart().len(), 1);
    assert_eq!(cart.cart()[0].id, "p2");
    cart.reduce(CartAction::SentOrder("order-9".to_string()));
    assert_eq!(cart.last_sent_order().map(|s| s.as_str()), Some("order-9"));
    cart.reduce(CartAction::ClearCart);
    assert!(cart.cart().is_empty());
    assert!(cart.business_id().is_none());
}

#[test]
fn counted_products_group_units_in_first_seen_order() {
    let order = ProductOrder::new(vec![
        item("b", "Bread", "1"),
        item("a", "Apple", "2"),
        item("b", "Bread", "1"),
        item("b", "Bread", "1"),
    ]);
    let counted = order.counted_products();
    let summary: Vec<(String, usize)> = counted.iter().map(|(p, n)| (p.id.clone(), *n)).collect();
    assert_eq!(summary, vec![("b".to_string(), 3), ("a".to_string(), 1)]);
}

#[test]
fn remove_one_takes_only_the_first_unit() {
    let mut order = ProductOrder::new(vec![item("a", "A", "1"), item("b", "B", "1"), item("a", "A", "1")]);
    order.remove_one(&"a".to_string());
    let ids: Vec<_> = order.products().iter().map(|p| p.id.clone()).collect();
    assert_eq!(ids, vec!["b", "a"]);
    order.remove_all(&"a".to_string());
    assert_eq!(order.products().len(), 1);
}

#[test]
fn filter_buttons_toggle_direction() {
    assert_eq!(price_filter_clicked(None), Some(ProductFilter::Price(true)));
    assert_eq!(price_filter_clicked(Some(ProductFilter::Price(true))), Some(ProductFilter::Price(false)));
    assert_eq!(price_filter_clicked(Some(ProductFilter::Brand(false))), Some(ProductFilter::Price(true)));
    assert_eq!(brand_filter_clicked(Some(ProductFilter::Brand(false))), Some(ProductFilter::Brand(true)));
    assert_eq!(brand_filter_clicked(Some(ProductFilter::Price(true))), Some(ProductFilter::Brand(true)));
}

#[test]
fn products_sort_by_price_text_stably() {
    let items = vec![item("1", "b", "10"), item("2", "a", "9"), item("3", "c", "10"), item("4", "d", "1")];
    let refs: Vec<&ProductItem<()>> = items.iter().collect();
    let asc = sort_products(refs.clone(), Some(ProductFilter::Price(true)));
    let ids: Vec<_> = asc.iter().map(|p| p.id.as_str()).collect();
    // "1" < "10" < "9" as texts; the two "10" keep their order
    assert_eq!(ids, vec!["4", "1", "3", "2"]);
    let desc = sort_products(refs.clone(), Some(ProductFilter::Price(false)));
    let ids: Vec<_> = desc.iter().map(|p| p.id.as_str()).collect();
    assert_eq!(ids, vec!["2", "1", "3", "4"]);
    let none = sort_products(refs, None);
    let ids: Vec<_> = none.iter().map(|p| p.id.as_str()).collect();
    assert_eq!(ids, vec!["1", "2", "3", "4"]);
}

#[test]
fn menu_products_follow_categories_then_sort_by_name() {
    let m = menu("shop", "owner", vec![vec![item("1", "pear", "1"), item("2", "apple", "1")], vec![], vec![item("3", "fig", "1")]]);
    let listed = listed_products(Some(&m), None);
    let ids: Vec<_> = listed.iter().map(|p| p.id.as_str()).collect();
    assert_eq!(ids, vec!["1", "2", "3"]);
    let by_name = listed_products(Some(&m), Some(ProductFilter::Brand(true)));
    let names: Vec<_> = by_name.iter().map(|p| p.name.as_str()).collect();
    assert_eq!(names, vec!["apple", "fig", "pear"]);
    assert!(listed_products::<(), ()>(None, None).is_empty());
}

#[test]
fn sign_in_and_registration_routes() {
    assert_eq!(login_route_view(false, true, true), EntryView::LoginForm);
    assert_eq!(login_route_view(true, false, true), EntryView::ToRegister);
    assert_eq!(login_route_view(true, true, false), EntryView::ToRegister);
    assert_eq!(login_route_view(true, true, true), EntryView::ToHome);
    assert_eq!(register_route_view(false, true), EntryView::NewProfileForm);
    assert_eq!(register_route_view(false, false), EntryView::NewProfileForm);
    assert_eq!(register_route_view(true, false), EntryView::NewAddressForm);
    assert_eq!(register_route_view(true, true), EntryView::ToHome);
}

#[test]
fn search_ignores_case() {
    let commerces = vec![listing("1", "o1", "Farmacia Central"), listing("2", "o2", "Panadería"), listing("3", "o3", "CENTRO")];
    let found = search_commerces(&commerces, "cEnTr");
    let ids: Vec<_> = found.iter().map(|c| c.id.as_str()).collect();
    assert_eq!(ids, vec!["1", "3"]);
    let all = search_commerces(&commerces, "");
    assert_eq!(all.len(), 3);
    let accented = search_commerces(&commerces, "DERÍA");
    assert_eq!(accented.len(), 1);
    assert!(search_commerces(&commerces, "zz").is_empty());
}

#[test]
fn commerce_data_upserts_and_filters_by_whitelist() {
    let mut data: CommerceData<(), (), ()> = CommerceData::new();
    data.reduce(CommerceDataAction::UpdateCommerceProfile(listing("a", "ka", "A")));
    data.reduce(CommerceDataAction::UpdateCommerceProfile(listing("b", "kb", "B")));
    data.reduce(CommerceDataAction::UpdateCommerceProfile(listing("a", "ka", "A2")));
    let names: Vec<_> = data.commerces().iter().map(|c| c.name.as_str()).collect();
    assert_eq!(names, vec!["B", "A2"]);
    data.reduce(CommerceDataAction::UpdateProductList(menu("a", "ka", vec![vec![item("x", "X", "1")]])));
    assert_eq!(data.find_product("a", "x").map(|p| p.name.as_str()), Some("X"));
    assert!(data.find_product("a", "y").is_none());
    assert!(data.find_product("b", "x").is_none());
    assert!(whitelist_filter_action::<(), (), ()>(vec![]).is_none());
    let action = whitelist_filter_action(vec!["ka".to_string()]).unwrap();
    data.reduce(action);
    assert_eq!(data.commerces().len(), 1);
    assert_eq!(data.commerces()[0].id, "a");
    assert!(!data.finished_loading());
    data.reduce(CommerceDataAction::FinishedLoadingRelays);
    assert!(data.finished_loading());
}
