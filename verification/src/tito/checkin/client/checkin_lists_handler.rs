//! The tickets of a check-in list.

use vstd::prelude::*;
use vstd::string::StringExecFns;

verus! {

/// A ticket of a check-in list, as far as the raffle reads it.
#[derive(Clone, Debug, PartialEq)]
pub struct Ticket {
    pub id: u32,
    pub first_name: Option<String>,
    pub last_name: Option<String>,
    pub release_title: String,
}

/// A `Ticket`, its texts read as sequences of characters.
pub struct TicketView {
    pub id: u32,
    pub first_name: Option<Seq<char>>,
    pub last_name: Option<Seq<char>>,
    pub release_title: Seq<char>,
}

impl View for Ticket {
    type V = TicketView;

    open spec fn view(&self) -> TicketView {
        TicketView {
            id: self.id,
            first_name: self.first_name.deep_view(),
            last_name: self.last_name.deep_view(),
            release_title: self.release_title@,
        }
    }
}

impl DeepView for Ticket {
    type V = TicketView;

    open spec fn deep_view(&self) -> TicketView {
        self@
    }
}

/// The address that lists the tickets of a check-in list.
pub open spec fn tickets_url_text(base_url: Seq<char>, checkin_list_slug: Seq<char>) -> Seq<char> {
    base_url + "/checkin_lists/"@ + checkin_list_slug + "/tickets"@
}

/// The address that lists the check-ins of a check-in list.
pub open spec fn checkins_url_text(base_url: Seq<char>, checkin_list_slug: Seq<char>) -> Seq<
    char,
> {
    base_url + "/checkin_lists/"@ + checkin_list_slug + "/checkins"@
}

/// The address that lists the tickets of the check-in list
/// `checkin_list_slug`, at the service found under `base_url`.
pub fn tickets_url(base_url: &str, checkin_list_slug: &str) -> (url: String)
    ensures
        url@ == tickets_url_text(base_url@, checkin_list_slug@),
{
    let mut url = String::from_str(base_url);
    url.append("/checkin_lists/");
    url.append(checkin_list_slug);
    url.append("/tickets");
    url
}

/// The address that lists the check-ins of the check-in list
/// `checkin_list_slug`, at the service found under `base_url`.
pub fn checkins_url(base_url: &str, checkin_list_slug: &str) -> (url: String)
    ensures
        url@ == checkins_url_text(base_url@, checkin_list_slug@),
{
    let mut url = String::from_str(base_url);
    url.append("/checkin_lists/");
    url.append(checkin_list_slug);
    url.append("/checkins");
    url
}

} // verus!
