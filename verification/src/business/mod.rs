//! The business app: the commerce's own profile and menu, the consumers it
//! serves, its orders, and the choices its product forms make.

pub mod commerce_data;
pub mod consumer_data;
pub mod order_data;
pub mod menu_form;
