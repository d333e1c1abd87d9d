//! Verified state and rules of the Fuente marketplace apps: the reducers
//! behind each app's contexts, the decisions the pages make on that state,
//! and the decoding of the notes that feed it.

pub mod keyed;
pub mod model;
pub mod nostr;
pub mod json;
pub mod address;
pub mod orders;
pub mod product;
pub mod sorting;
pub mod text;
pub mod admin;
pub mod business;
pub mod consumer;
pub mod driver;
pub mod gates;
