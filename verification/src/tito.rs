//! The ticketing service, as far as the raffle reads it.

pub mod admin;
pub mod checkin;
