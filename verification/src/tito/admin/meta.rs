//! Paging through a listing.

use vstd::prelude::*;

verus! {

/// What the service says of a page of a listing.
#[derive(Debug)]
pub struct Meta {
    pub current_page: u32,
    pub next_page: Option<u32>,
    pub prev_page: Option<u32>,
    pub total_pages: u32,
    pub total_count: u32,
    pub per_page: u32,
    pub overall_total: u32,
}

/// The number of the page that a listing begins with.
pub const FIRST_PAGE: u32 = 1;

/// A listing read page by page: the items so far, and the page to ask
/// for next.
pub struct Pages<T> {
    items: Vec<T>,
    next: Option<u32>,
}

impl<T> Pages<T> {
    /// The items read so far, in order.
    pub closed spec fn items(&self) -> Seq<T> {
        self.items@
    }

    /// The page to ask for next; `None` once the last page is read.
    pub closed spec fn next(&self) -> Option<u32> {
        self.next
    }

    /// A listing of which nothing is read yet: the first page is next.
    pub fn new() -> (pages: Pages<T>)
        ensures
            pages.items() == Seq::<T>::empty(),
            pages.next() == Some(FIRST_PAGE),
    {
        Pages { items: Vec::new(), next: Some(FIRST_PAGE) }
    }

    /// The page to ask for next; `None` once the last page is read.
    pub fn next_page(&self) -> (page: Option<u32>)
        ensures
            page == self.next(),
    {
        self.next
    }

    /// Takes a page in: its items follow those read so far, and the
    /// page that it names is next.
    pub fn receive(&mut self, items: Vec<T>, meta: &Meta)
        ensures
            final(self).items() == old(self).items() + items@,
            final(self).next() == meta.next_page,
    {
        let mut items = items;
        self.items.append(&mut items);
        self.next = meta.next_page;
    }

    /// Ends the listing and hands out what was read.
    pub fn into_items(self) -> (items: Vec<T>)
        ensures
            items@ == self.items(),
    {
        self.items
    }
}

} // verus!
