//! The consumer app: sign-in prompt, cart, commerces and their menus, the
//! consumer's profile and addresses, favorites, live orders, ratings, and
//! the choices its pages make.

pub mod auth;
pub mod cart;
pub mod commerce_data;
pub mod consumer_data;
pub mod favorites;
pub mod live_order;
pub mod ratings;
pub mod pages;
