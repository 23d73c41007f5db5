//! A raffle roster engine: entrants are imported from a ticketing
//! service, kept unique, and drawn at random without replacement.
//!
//! A roster is two structures in a key-value store: the set of names
//! ever admitted, and the list of entries that can still be drawn.
//!
//! The engine itself never talks to anybody. Each command is a small
//! state machine ([`draw`], [`import`], [`admission`], [`admin`]) that
//! names what it needs next as an [`session::Effect`] and is handed the
//! outcome as an [`session::Input`]. Whoever runs a command carries the
//! effects out: on the real store and chat, or on the roster held in
//! memory of [`roster`], as the functions of [`discord::commands`] do.
//! What those functions promise of the roster is what the commands do
//! to any store that answers as the roster in memory does.

pub mod admin;
pub mod admission;
pub mod discord;
pub mod draw;
pub mod import;
pub mod markup;
pub mod messages;
pub mod names;
pub mod roster;
pub mod session;
pub mod store;
pub mod text;
pub mod tito;
