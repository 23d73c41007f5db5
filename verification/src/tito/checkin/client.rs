//! Requests to the check-in service.

pub mod checkin_lists_handler;

use vstd::prelude::*;

verus! {

/// Where the check-in service is found unless told otherwise.
pub const TITO_API_BASE: &'static str = "https://checkin.tito.io";

} // verus!
