//! The administrative side of the ticketing service.

pub mod client;
pub mod meta;
