//! Requests to the administrative service.

pub mod tickets_handler;

use vstd::prelude::*;
use vstd::string::StringExecFns;

verus! {

/// Where the administrative service is found unless told otherwise.
pub const TITO_API_BASE: &'static str = "https://api.tito.io/v3/";

/// What a request says to show that it may ask.
pub open spec fn authorization_text(api_token: Seq<char>) -> Seq<char> {
    "Token token="@ + api_token
}

/// What a request made with `api_token` says to show that it may ask.
pub fn authorization(api_token: &str) -> (value: String)
    ensures
        value@ == authorization_text(api_token@),
{
    let mut value = String::from_str("Token token=");
    value.append(api_token);
    value
}

} // verus!
