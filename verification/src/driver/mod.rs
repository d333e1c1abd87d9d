//! The courier app: the commerces it delivers for, the courier's profile,
//! the order hub, and the choices its pages make.

pub mod commerce_data;
pub mod driver_data;
pub mod order_hub;
pub mod pages;
