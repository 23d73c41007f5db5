//! What the engine asks of the key-value store that keeps a roster, and
//! what the store answers.
//!
//! A roster is two structures: the names ever admitted (a set) and the
//! entries that can still be drawn (a list).

use vstd::prelude::*;

verus! {

/// One operation on the store.
#[derive(Debug, PartialEq)]
pub enum StoreRequest {
    /// All names ever admitted.
    SeenMembers,
    /// Admit these names, in one write.
    SeenInsert(Vec<String>),
    /// Put these entries at the end of the list, in one write.
    ListAppend(Vec<String>),
    /// The number of entries in the list.
    ListLength,
    /// The entry at this position of the list.
    ListIndex(usize),
    /// Take the first entry equal to this name out of the list.
    ListRemove(String),
    /// All entries of the list, in order.
    ListRange,
    /// Forget the admitted names.
    DeleteSeen,
    /// Forget the list.
    DeleteList,
}

/// What the store answers to one operation.
#[derive(Debug, PartialEq)]
pub enum StoreReply {
    /// The admitted names, each once, in no particular order.
    Members(Vec<String>),
    /// The number of entries in the list.
    Length(usize),
    /// The entry at the position asked for; `None` past the end.
    Entry(Option<String>),
    /// The entries of the list, in order.
    Range(Vec<String>),
    /// The write was carried out.
    Done,
    /// The store refused the operation.
    Rejected,
}

/// A `StoreRequest`, its names read as sequences of characters.
pub enum StoreRequestView {
    SeenMembers,
    SeenInsert(Seq<Seq<char>>),
    ListAppend(Seq<Seq<char>>),
    ListLength,
    ListIndex(nat),
    ListRemove(Seq<char>),
    ListRange,
    DeleteSeen,
    DeleteList,
}

/// A `StoreReply`, its names read as sequences of characters.
pub enum StoreReplyView {
    Members(Seq<Seq<char>>),
    Length(nat),
    Entry(Option<Seq<char>>),
    Range(Seq<Seq<char>>),
    Done,
    Rejected,
}

/// The names under which the store keeps the two structures of a
/// roster.
pub struct RosterKey<'a> {
    /// The key of the set of names ever admitted.
    pub seen_key: &'a str,
    /// The key of the list of entries.
    pub list_key: &'a str,
}

impl StoreRequestView {
    /// Whether the request is about the list of entries; else it is
    /// about the set of names ever admitted.
    pub open spec fn on_list(self) -> bool {
        !(self is SeenMembers || self is SeenInsert || self is DeleteSeen)
    }
}

impl StoreRequest {
    /// The key of the structure that the request is about.
    pub fn key<'a>(&self, keys: &RosterKey<'a>) -> (key: &'a str)
        ensures
            key@ == if self@.on_list() {
                keys.list_key@
            } else {
                keys.seen_key@
            },
    {
        match self {
            StoreRequest::SeenMembers
            | StoreRequest::SeenInsert(_)
            | StoreRequest::DeleteSeen => keys.seen_key,
            _ => keys.list_key,
        }
    }
}

impl View for StoreRequest {
    type V = StoreRequestView;

    open spec fn view(&self) -> StoreRequestView {
        match self {
            StoreRequest::SeenMembers => StoreRequestView::SeenMembers,
            StoreRequest::SeenInsert(names) => StoreRequestView::SeenInsert(names.deep_view()),
            StoreRequest::ListAppend(names) => StoreRequestView::ListAppend(names.deep_view()),
            StoreRequest::ListLength => StoreRequestView::ListLength,
            StoreRequest::ListIndex(at) => StoreRequestView::ListIndex(*at as nat),
            StoreRequest::ListRemove(name) => StoreRequestView::ListRemove(name@),
            StoreRequest::ListRange => StoreRequestView::ListRange,
            StoreRequest::DeleteSeen => StoreRequestView::DeleteSeen,
            StoreRequest::DeleteList => StoreRequestView::DeleteList,
        }
    }
}

impl View for StoreReply {
    type V = StoreReplyView;

    open spec fn view(&self) -> StoreReplyView {
        match self {
            StoreReply::Members(names) => StoreReplyView::Members(names.deep_view()),
            StoreReply::Length(n) => StoreReplyView::Length(*n as nat),
            StoreReply::Entry(entry) => StoreReplyView::Entry(entry.deep_view()),
            StoreReply::Range(names) => StoreReplyView::Range(names.deep_view()),
            StoreReply::Done => StoreReplyView::Done,
            StoreReply::Rejected => StoreReplyView::Rejected,
        }
    }
}

} // verus!
