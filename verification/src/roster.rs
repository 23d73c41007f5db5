//! A roster held in memory: the names ever admitted and the list of
//! entries that can still be drawn. It answers the store's operations as
//! the key-value store does.

use crate::names::{
    clone_all, contains, lemma_remove_first_absent, lemma_remove_first_at, position,
    remove_first,
};
use crate::store::{StoreReply, StoreReplyView, StoreRequest, StoreRequestView};
use vstd::prelude::*;

verus! {

/// A roster as mathematics: a set of admitted names and a sequence of
/// entries.
pub struct RosterView {
    pub seen: Set<Seq<char>>,
    pub entries: Seq<Seq<char>>,
}

impl RosterView {
    /// The roster that `request` leaves behind.
    ///
    /// A write of no names is refused and changes nothing.
    pub open spec fn after(self, request: StoreRequestView) -> RosterView {
        match request {
            StoreRequestView::SeenInsert(names) => RosterView {
                seen: self.seen.union(names.to_set()),
                entries: self.entries,
            },
            StoreRequestView::ListAppend(names) => RosterView {
                seen: self.seen,
                entries: self.entries + names,
            },
            StoreRequestView::ListRemove(name) => RosterView {
                seen: self.seen,
                entries: remove_first(self.entries, name),
            },
            StoreRequestView::DeleteSeen => RosterView {
                seen: Set::empty(),
                entries: self.entries,
            },
            StoreRequestView::DeleteList => RosterView { seen: self.seen, entries: Seq::empty() },
            _ => self,
        }
    }

    /// The roster once `name` is admitted by hand: seen, and one more
    /// entry at the end of the list, whether or not it was there before.
    pub open spec fn added(self, name: Seq<char>) -> RosterView {
        RosterView { seen: self.seen.insert(name), entries: self.entries.push(name) }
    }

    /// The roster once `names` are imported: all seen, and all at the
    /// end of the list.
    pub open spec fn imported(self, names: Seq<Seq<char>>) -> RosterView {
        RosterView { seen: self.seen.union(names.to_set()), entries: self.entries + names }
    }

    /// The roster once it is cleared: nobody seen, no entry.
    pub open spec fn cleared(self) -> RosterView {
        RosterView { seen: Set::empty(), entries: Seq::empty() }
    }

    /// Whether every name on the list is among the names seen.
    pub open spec fn every_entry_seen(self) -> bool {
        forall|i: int|
            0 <= i < self.entries.len() ==> self.seen.contains(#[trigger] self.entries[i])
    }

    /// The number of entries that can still be drawn.
    pub open spec fn size(self) -> nat {
        self.entries.len()
    }

    /// Whether `reply` is an answer of this roster to `request`.
    ///
    /// Every request but `SeenMembers` has exactly one answer; the
    /// admitted names may come in any order, each once.
    pub open spec fn answers(self, request: StoreRequestView, reply: StoreReplyView) -> bool {
        match request {
            StoreRequestView::SeenMembers => reply matches StoreReplyView::Members(names)
                && names.no_duplicates() && names.to_set() == self.seen,
            StoreRequestView::SeenInsert(names) | StoreRequestView::ListAppend(names) => {
                if names.len() == 0 {
                    reply == StoreReplyView::Rejected
                } else {
                    reply == StoreReplyView::Done
                }
            },
            StoreRequestView::ListLength => reply == StoreReplyView::Length(self.entries.len()),
            StoreRequestView::ListIndex(at) => reply == StoreReplyView::Entry(
                if at < self.entries.len() {
                    Some(self.entries[at as int])
                } else {
                    None
                },
            ),
            StoreRequestView::ListRange => reply == StoreReplyView::Range(self.entries),
            StoreRequestView::ListRemove(_)
            | StoreRequestView::DeleteSeen
            | StoreRequestView::DeleteList => reply == StoreReplyView::Done,
        }
    }
}

/// A roster held in memory.
pub struct Roster {
    seen: Vec<String>,
    entries: Vec<String>,
}

impl View for Roster {
    type V = RosterView;

    closed spec fn view(&self) -> RosterView {
        RosterView { seen: self.seen.deep_view().to_set(), entries: self.entries.deep_view() }
    }
}

/// Adds to `seen` each name of `names` that it does not hold yet.
fn insert_new(seen: &mut Vec<String>, names: &Vec<String>)
    requires
        old(seen).deep_view().no_duplicates(),
    ensures
        final(seen).deep_view().no_duplicates(),
        final(seen).deep_view().to_set() == old(seen).deep_view().to_set().union(
            names.deep_view().to_set(),
        ),
{
    let mut i: usize = 0;
    while i < names.len()
        invariant
            i <= names.len(),
            seen.deep_view().no_duplicates(),
            forall|name: Seq<char>|
                seen.deep_view().contains(name) <==> old(seen).deep_view().contains(name) || exists|
                    j: int,
                | 0 <= j < i && names.deep_view()[j] == name,
        decreases names.len() - i,
    {
        let ghost before = seen.deep_view();
        if !contains(seen, names[i].as_str()) {
            seen.push(names[i].clone());
            assert(seen.deep_view() =~= before.push(names.deep_view()[i as int]));
        }
        assert forall|name: Seq<char>|
            seen.deep_view().contains(name) <==> old(seen).deep_view().contains(name) || exists|
                j: int,
            | 0 <= j < i + 1 && names.deep_view()[j] == name by {
            if before.contains(name) {
                let k = choose|k: int| 0 <= k < before.len() && before[k] == name;
                assert(seen.deep_view()[k] == name);
            }
            if names.deep_view()[i as int] == name && !before.contains(name) {
                assert(seen.deep_view()[before.len() as int] == name);
            }
        }
        i += 1;
    }
}

/// Puts a copy of each name of `names` at the end of `entries`.
fn append_all(entries: &mut Vec<String>, names: &Vec<String>)
    ensures
        final(entries).deep_view() == old(entries).deep_view() + names.deep_view(),
{
    let mut i: usize = 0;
    while i < names.len()
        invariant
            i <= names.len(),
            entries.deep_view() == old(entries).deep_view() + names.deep_view().take(i as int),
        decreases names.len() - i,
    {
        let ghost before = entries.deep_view();
        entries.push(names[i].clone());
        assert(entries.deep_view() =~= before.push(names.deep_view()[i as int]));
        i += 1;
    }
}

impl Roster {
    #[verifier::type_invariant]
    spec fn names_admitted_once(self) -> bool {
        self.seen.deep_view().no_duplicates()
    }

    /// A roster without names.
    pub fn new() -> (roster: Roster)
        ensures
            roster@.seen == Set::<Seq<char>>::empty(),
            roster@.entries == Seq::<Seq<char>>::empty(),
    {
        let roster = Roster { seen: Vec::new(), entries: Vec::new() };
        roster
    }

    /// The entries that can still be drawn, in order.
    pub fn entries(&self) -> (entries: Vec<String>)
        ensures
            entries.deep_view() == self@.entries,
    {
        clone_all(&self.entries)
    }

    /// The names ever admitted, each once.
    pub fn seen(&self) -> (seen: Vec<String>)
        ensures
            seen.deep_view().no_duplicates(),
            seen.deep_view().to_set() == self@.seen,
    {
        proof {
            use_type_invariant(self);
        }
        clone_all(&self.seen)
    }

    /// Carries out `request` and answers it.
    pub fn apply(&mut self, request: &StoreRequest) -> (reply: StoreReply)
        ensures
            final(self)@ == old(self)@.after(request@),
            old(self)@.answers(request@, reply@),
    {
        proof {
            use_type_invariant(&*self);
        }
        match request {
            StoreRequest::SeenMembers => StoreReply::Members(clone_all(&self.seen)),
            StoreRequest::SeenInsert(names) => {
                if names.len() == 0 {
                    assert(self@.seen.union(names.deep_view().to_set()) =~= self@.seen);
                    StoreReply::Rejected
                } else {
                    let mut seen: Vec<String> = Vec::new();
                    core::mem::swap(&mut self.seen, &mut seen);
                    insert_new(&mut seen, names);
                    self.seen = seen;
                    StoreReply::Done
                }
            },
            StoreRequest::ListAppend(names) => {
                if names.len() == 0 {
                    StoreReply::Rejected
                } else {
                    let mut entries: Vec<String> = Vec::new();
                    core::mem::swap(&mut self.entries, &mut entries);
                    append_all(&mut entries, names);
                    self.entries = entries;
                    StoreReply::Done
                }
            },
            StoreRequest::ListLength => StoreReply::Length(self.entries.len()),
            StoreRequest::ListIndex(at) => {
                if *at < self.entries.len() {
                    StoreReply::Entry(Some(self.entries[*at].clone()))
                } else {
                    StoreReply::Entry(None)
                }
            },
            StoreRequest::ListRemove(name) => {
                let ghost before = self.entries.deep_view();
                match position(&self.entries, name.as_str()) {
                    Some(at) => {
                        let mut entries: Vec<String> = Vec::new();
                        core::mem::swap(&mut self.entries, &mut entries);
                        entries.remove(at);
                        self.entries = entries;
                        proof {
                            lemma_remove_first_at(before, name@, at as int);
                            assert(self.entries.deep_view() =~= before.remove(at as int));
                        }
                    },
                    None => {
                        proof {
                            lemma_remove_first_absent(before, name@);
                        }
                    },
                }
                StoreReply::Done
            },
            StoreRequest::ListRange => StoreReply::Range(clone_all(&self.entries)),
            StoreRequest::DeleteSeen => {
                self.seen = Vec::new();
                assert(self.seen.deep_view().to_set() =~= Set::empty());
                StoreReply::Done
            },
            StoreRequest::DeleteList => {
                self.entries = Vec::new();
                assert(self.entries.deep_view() =~= Seq::empty());
                StoreReply::Done
            },
        }
    }
}

} // verus!
