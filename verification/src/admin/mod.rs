//! The admin app: the platform configuration, the platform statistics, and
//! the relay subscriptions they wait for while loading.

pub mod config;
pub mod stats;
pub mod subscriptions;
