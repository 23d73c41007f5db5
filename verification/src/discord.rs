//! The raffle as the chat bot runs it.

pub mod commands;
pub mod interaction;
pub mod type_map_keys;
