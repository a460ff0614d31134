//! A small marketplace: items of a few kinds in an ordered registry, and the
//! tagged records in which the registry is stored.

pub mod command;
pub mod input;
pub mod items;
pub mod json;
pub mod market;
pub mod store;

pub use crate::market::MarketPlace;
