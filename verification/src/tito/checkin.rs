//! The check-in side of the ticketing service.

pub mod client;
