//! The shapes of the data that the APIs exchange.

pub mod azure;
pub mod json;
