//! Importing entrants from the ticketing service: who is eligible, who
//! is new, and the requests that admit them.

use crate::discord::commands::LoadParams;
use crate::messages::{loaded, loaded_text};
use crate::names::{clone_all, contains};
use crate::session::{Effect, EffectView, Input, InputView};
use crate::store::{StoreReply, StoreReplyView, StoreRequest, StoreRequestView};
use crate::tito::checkin::client::checkin_lists_handler::{Ticket, TicketView};
use std::collections::HashSet;
use vstd::prelude::*;
use vstd::string::StringExecFns;

verus! {

broadcast use vstd::std_specs::hash::group_hash_axioms;

/// The name under which a person enters the raffle.
pub open spec fn full_name(first: Seq<char>, last: Seq<char>) -> Seq<char> {
    first + " "@ + last
}

/// Whether `ticket` lets its holder enter: its title is among the
/// accepted ones, it is checked in, and it bears both names.
pub open spec fn eligible(ticket: TicketView, checkins: Set<u32>, slugs: Seq<Seq<char>>) -> bool {
    &&& slugs.contains(ticket.release_title)
    &&& checkins.contains(ticket.id)
    &&& ticket.first_name is Some
    &&& ticket.last_name is Some
}

/// The name of the holder of `ticket`.
pub open spec fn identity(ticket: TicketView) -> Seq<char> {
    full_name(ticket.first_name.unwrap(), ticket.last_name.unwrap())
}

/// Whether `ticket` brings a name that `seen` does not hold.
pub open spec fn candidate(
    ticket: TicketView,
    checkins: Set<u32>,
    slugs: Seq<Seq<char>>,
    seen: Set<Seq<char>>,
) -> bool {
    eligible(ticket, checkins, slugs) && !seen.contains(identity(ticket))
}

/// The names that an import admits: those of the eligible tickets that
/// `seen` does not hold, each once, in the order of their first ticket.
pub open spec fn admitted(
    tickets: Seq<TicketView>,
    checkins: Set<u32>,
    slugs: Seq<Seq<char>>,
    seen: Set<Seq<char>>,
) -> Seq<Seq<char>>
    decreases tickets.len(),
{
    if tickets.len() == 0 {
        Seq::empty()
    } else {
        let earlier = admitted(tickets.drop_last(), checkins, slugs, seen);
        let ticket = tickets.last();
        if candidate(ticket, checkins, slugs, seen) && !earlier.contains(identity(ticket)) {
            earlier.push(identity(ticket))
        } else {
            earlier
        }
    }
}

/// An import admits no name twice, none that was seen before, and every
/// other name that an eligible ticket bears.
pub proof fn lemma_admitted(
    tickets: Seq<TicketView>,
    checkins: Set<u32>,
    slugs: Seq<Seq<char>>,
    seen: Set<Seq<char>>,
)
    ensures
        admitted(tickets, checkins, slugs, seen).no_duplicates(),
        admitted(tickets, checkins, slugs, seen).len() <= tickets.len(),
        forall|name: Seq<char>| #[trigger]
            admitted(tickets, checkins, slugs, seen).contains(name) <==> !seen.contains(name)
                && exists|i: int|
                0 <= i < tickets.len() && eligible(#[trigger] tickets[i], checkins, slugs)
                    && identity(tickets[i]) == name,
    decreases tickets.len(),
{
    let names = admitted(tickets, checkins, slugs, seen);
    if tickets.len() > 0 {
        let before = tickets.drop_last();
        let earlier = admitted(before, checkins, slugs, seen);
        let ticket = tickets.last();
        lemma_admitted(before, checkins, slugs, seen);
        assert forall|name: Seq<char>| #[trigger]
            names.contains(name) <==> !seen.contains(name) && exists|i: int|
                0 <= i < tickets.len() && eligible(#[trigger] tickets[i], checkins, slugs)
                    && identity(tickets[i]) == name by {
            if names.contains(name) {
                if earlier.contains(name) {
                    let i = choose|i: int|
                        0 <= i < before.len() && eligible(#[trigger] before[i], checkins, slugs)
                            && identity(before[i]) == name;
                    assert(tickets[i] == before[i]);
                } else {
                    let k = choose|k: int| 0 <= k < names.len() && names[k] == name;
                    assert(k == earlier.len());
                    assert(eligible(tickets[tickets.len() - 1], checkins, slugs));
                }
            }
            if !seen.contains(name) && exists|i: int|
                0 <= i < tickets.len() && eligible(#[trigger] tickets[i], checkins, slugs)
                    && identity(tickets[i]) == name {
                let i = choose|i: int|
                    0 <= i < tickets.len() && eligible(#[trigger] tickets[i], checkins, slugs)
                        && identity(tickets[i]) == name;
                if i < before.len() {
                    assert(before[i] == tickets[i]);
                    assert(earlier.contains(name));
                    let k = choose|k: int| 0 <= k < earlier.len() && earlier[k] == name;
                    assert(names[k] == name);
                } else {
                    if earlier.contains(name) {
                        let k = choose|k: int| 0 <= k < earlier.len() && earlier[k] == name;
                        assert(names[k] == name);
                    } else {
                        assert(names[earlier.len() as int] == name);
                    }
                }
            }
        }
    }
}

/// No name is admitted twice: what a later import admits was not
/// admitted by an earlier one, whatever the two sources hold.
pub proof fn lemma_imports_admit_disjoint(
    first: Seq<TicketView>,
    first_checkins: Set<u32>,
    first_slugs: Seq<Seq<char>>,
    second: Seq<TicketView>,
    second_checkins: Set<u32>,
    second_slugs: Seq<Seq<char>>,
    seen: Set<Seq<char>>,
)
    ensures
        ({
            let earlier = admitted(first, first_checkins, first_slugs, seen);
            let later = admitted(
                second,
                second_checkins,
                second_slugs,
                seen.union(earlier.to_set()),
            );
            &&& earlier.no_duplicates()
            &&& later.no_duplicates()
            &&& earlier.to_set().disjoint(later.to_set())
            &&& seen.disjoint(earlier.to_set())
            &&& seen.disjoint(later.to_set())
        }),
{
    let earlier = admitted(first, first_checkins, first_slugs, seen);
    let between = seen.union(earlier.to_set());
    let later = admitted(second, second_checkins, second_slugs, between);
    lemma_admitted(first, first_checkins, first_slugs, seen);
    lemma_admitted(second, second_checkins, second_slugs, between);
}

/// An import run again on the same source admits nobody.
pub proof fn lemma_import_again_admits_none(
    tickets: Seq<TicketView>,
    checkins: Set<u32>,
    slugs: Seq<Seq<char>>,
    seen: Set<Seq<char>>,
)
    ensures
        admitted(
            tickets,
            checkins,
            slugs,
            seen.union(admitted(tickets, checkins, slugs, seen).to_set()),
        ).len() == 0,
{
    let earlier = admitted(tickets, checkins, slugs, seen);
    let between = seen.union(earlier.to_set());
    let later = admitted(tickets, checkins, slugs, between);
    lemma_admitted(tickets, checkins, slugs, seen);
    lemma_admitted(tickets, checkins, slugs, between);
    if later.len() > 0 {
        let name = later[0];
        assert(later.contains(name));
    }
}

/// The ids of `checkins`, as a set.
fn checked_in(checkins: &Vec<u32>) -> (ids: HashSet<u32>)
    ensures
        ids@ == checkins@.to_set(),
{
    let mut ids: HashSet<u32> = HashSet::new();
    let mut i: usize = 0;
    while i < checkins.len()
        invariant
            i <= checkins.len(),
            ids@ == checkins@.take(i as int).to_set(),
        decreases checkins.len() - i,
    {
        ids.insert(checkins[i]);
        assert(checkins@.take(i + 1) =~= checkins@.take(i as int).push(checkins@[i as int]));
        assert(checkins@.take(i + 1).to_set() =~= checkins@.take(i as int).to_set().insert(
            checkins@[i as int],
        )) by {
            checkins@.take(i as int).lemma_push_to_set_commute(checkins@[i as int]);
        }
        i += 1;
    }
    assert(checkins@.take(checkins.len() as int) =~= checkins@);
    ids
}

/// The names that an import of `tickets` admits, when `checkins` are the
/// ids of the tickets checked in, `slugs` the accepted titles and
/// `already` the names seen before.
pub fn select_attendees(
    tickets: &Vec<Ticket>,
    checkins: &Vec<u32>,
    slugs: &Vec<String>,
    already: &Vec<String>,
) -> (names: Vec<String>)
    ensures
        names.deep_view() == admitted(
            tickets.deep_view(),
            checkins@.to_set(),
            slugs.deep_view(),
            already.deep_view().to_set(),
        ),
{
    let ids = checked_in(checkins);
    let mut names: Vec<String> = Vec::new();
    let mut i: usize = 0;
    while i < tickets.len()
        invariant
            i <= tickets.len(),
            ids@ == checkins@.to_set(),
            names.deep_view() == admitted(
                tickets.deep_view().take(i as int),
                checkins@.to_set(),
                slugs.deep_view(),
                already.deep_view().to_set(),
            ),
        decreases tickets.len() - i,
    {
        let ticket = &tickets[i];
        let ghost before = names.deep_view();
        proof {
            assert(tickets.deep_view().take(i + 1).drop_last() =~= tickets.deep_view().take(
                i as int,
            ));
        }
        if contains(slugs, ticket.release_title.as_str()) && ids.contains(&ticket.id) {
            if let Some(first_name) = &ticket.first_name {
                if let Some(last_name) = &ticket.last_name {
                    let mut name = first_name.clone();
                    name.append(" ");
                    name.append(last_name.as_str());
                    if !contains(already, name.as_str()) && !contains(&names, name.as_str()) {
                        names.push(name);
                    }
                }
            }
        }
        i += 1;
    }
    assert(tickets.deep_view().take(tickets.len() as int) =~= tickets.deep_view());
    names
}

/// Where an import stands: what it last asked for.
pub enum ImportPhase {
    /// The check-ins and tickets of the list.
    Fetching,
    /// The names seen before; it holds what was fetched.
    Recalling { checkins: Vec<u32>, tickets: Vec<Ticket> },
    /// That these new names be put on the list.
    Listing(Vec<String>),
    /// That the new names be remembered as seen.
    Marking,
    /// All entries of the list.
    Counting,
    /// That the command be answered.
    Closing,
    /// Nothing more.
    Finished,
}

/// An `ImportPhase`, its texts read as sequences of characters.
pub enum ImportPhaseView {
    Fetching,
    Recalling { checkins: Seq<u32>, tickets: Seq<TicketView> },
    Listing(Seq<Seq<char>>),
    Marking,
    Counting,
    Closing,
    Finished,
}

impl View for ImportPhase {
    type V = ImportPhaseView;

    open spec fn view(&self) -> ImportPhaseView {
        match self {
            ImportPhase::Fetching => ImportPhaseView::Fetching,
            ImportPhase::Recalling { checkins, tickets } => ImportPhaseView::Recalling {
                checkins: checkins@,
                tickets: tickets.deep_view(),
            },
            ImportPhase::Listing(names) => ImportPhaseView::Listing(names.deep_view()),
            ImportPhase::Marking => ImportPhaseView::Marking,
            ImportPhase::Counting => ImportPhaseView::Counting,
            ImportPhase::Closing => ImportPhaseView::Closing,
            ImportPhase::Finished => ImportPhaseView::Finished,
        }
    }
}

/// An import under way.
pub struct Import {
    phase: ImportPhase,
    slugs: Vec<String>,
    new: usize,
    total: usize,
}

/// An `Import` as mathematics.
pub struct ImportView {
    /// What the import last asked for.
    pub phase: ImportPhaseView,
    /// The accepted ticket titles.
    pub slugs: Seq<Seq<char>>,
    /// How many names this import admitted, once it knows.
    pub new: nat,
    /// How many entries the list has after the import, once it knows.
    pub total: nat,
}

impl View for Import {
    type V = ImportView;

    closed spec fn view(&self) -> ImportView {
        ImportView {
            phase: self.phase@,
            slugs: self.slugs.deep_view(),
            new: self.new as nat,
            total: self.total as nat,
        }
    }
}

impl ImportView {
    /// This import, now in `phase`.
    pub open spec fn at(self, phase: ImportPhaseView) -> ImportView {
        ImportView { phase, ..self }
    }

    /// The import as it begins: it asks for the check-in list.
    pub open spec fn begin(checkin_list: Seq<char>, slugs: Seq<Seq<char>>) -> (
        ImportView,
        EffectView,
    ) {
        (
            ImportView { phase: ImportPhaseView::Fetching, slugs, new: 0, total: 0 },
            EffectView::Fetch(checkin_list),
        )
    }

    /// The import after `input`, and what it asks for next.
    ///
    /// It reads the source, then the names seen before. The new names go
    /// on the list first and are then remembered as seen, each in one
    /// write; with no new name it writes nothing. At last it reads the
    /// list and answers with both counts. An input that does not answer
    /// what was asked ends the import.
    pub open spec fn step(self, input: InputView) -> (ImportView, EffectView) {
        match (self.phase, input) {
            (ImportPhaseView::Fetching, InputView::Attendance { checkins, tickets }) => (
                self.at(ImportPhaseView::Recalling { checkins, tickets }),
                EffectView::Store(StoreRequestView::SeenMembers),
            ),
            (
                ImportPhaseView::Recalling { checkins, tickets },
                InputView::Store(StoreReplyView::Members(already)),
            ) => {
                let names = admitted(tickets, checkins.to_set(), self.slugs, already.to_set());
                let counted = ImportView { new: names.len(), ..self };
                if names.len() > 0 {
                    (
                        counted.at(ImportPhaseView::Listing(names)),
                        EffectView::Store(StoreRequestView::ListAppend(names)),
                    )
                } else {
                    (
                        counted.at(ImportPhaseView::Counting),
                        EffectView::Store(StoreRequestView::ListRange),
                    )
                }
            },
            (ImportPhaseView::Listing(names), InputView::Store(StoreReplyView::Done)) => (
                self.at(ImportPhaseView::Marking),
                EffectView::Store(StoreRequestView::SeenInsert(names)),
            ),
            (ImportPhaseView::Marking, InputView::Store(StoreReplyView::Done)) => (
                self.at(ImportPhaseView::Counting),
                EffectView::Store(StoreRequestView::ListRange),
            ),
            (ImportPhaseView::Counting, InputView::Store(StoreReplyView::Range(entries))) => (
                ImportView { phase: ImportPhaseView::Closing, total: entries.len(), ..self },
                EffectView::Respond(loaded_text(self.new, entries.len())),
            ),
            (ImportPhaseView::Closing, InputView::Delivered) => (
                self.at(ImportPhaseView::Finished),
                EffectView::Finish,
            ),
            _ => (self.at(ImportPhaseView::Finished), EffectView::Abort),
        }
    }
}

impl ImportView {
    /// Whether the import has new names in hand only where there are
    /// some.
    pub open spec fn never_empty_handed(self) -> bool {
        self.phase matches ImportPhaseView::Listing(names) ==> names.len() > 0
    }
}

/// An import never asks the store to write an empty list of names: with
/// nobody new it goes on to count.
pub proof fn lemma_import_writes_no_empty_list(import: ImportView, input: InputView)
    requires
        import.never_empty_handed(),
    ensures
        import.step(input).0.never_empty_handed(),
        match import.step(input).1 {
            EffectView::Store(StoreRequestView::ListAppend(names)) => names.len() > 0,
            EffectView::Store(StoreRequestView::SeenInsert(names)) => names.len() > 0,
            _ => true,
        },
{
}

impl Import {
    /// Begins an import.
    pub fn begin(params: LoadParams<'_>) -> (next: (Import, Effect))
        ensures
            (next.0@, next.1@) == ImportView::begin(
                params.checkin_list_slug@,
                params.ticket_slugs.deep_view(),
            ),
            next.0@.never_empty_handed(),
    {
        let list = String::from_str(params.checkin_list_slug);
        (
            Import { phase: ImportPhase::Fetching, slugs: params.ticket_slugs, new: 0, total: 0 },
            Effect::Fetch(list),
        )
    }

    /// How many names this import admitted; zero until it knows.
    pub fn new_entries(&self) -> (new: usize)
        ensures
            new == self@.new,
    {
        self.new
    }

    /// How many entries the list has after this import; zero until it
    /// knows.
    pub fn total_entries(&self) -> (total: usize)
        ensures
            total == self@.total,
    {
        self.total
    }

    /// Takes the outcome of what the import last asked for, and says
    /// what it asks for next.
    pub fn step(self, input: Input) -> (next: (Import, Effect))
        ensures
            (next.0@, next.1@) == self@.step(input@),
    {
        let Import { phase, slugs, new, total } = self;
        match phase {
            ImportPhase::Fetching => match input {
                Input::Attendance { checkins, tickets } => (
                    Import {
                        phase: ImportPhase::Recalling { checkins, tickets },
                        slugs,
                        new,
                        total,
                    },
                    Effect::Store(StoreRequest::SeenMembers),
                ),
                _ => (Import { phase: ImportPhase::Finished, slugs, new, total }, Effect::Abort),
            },
            ImportPhase::Recalling { checkins, tickets } => match input {
                Input::Store(StoreReply::Members(already)) => {
                    let names = select_attendees(&tickets, &checkins, &slugs, &already);
                    let new = names.len();
                    if new > 0 {
                        let asked = clone_all(&names);
                        (
                            Import { phase: ImportPhase::Listing(names), slugs, new, total },
                            Effect::Store(StoreRequest::ListAppend(asked)),
                        )
                    } else {
                        (
                            Import { phase: ImportPhase::Counting, slugs, new, total },
                            Effect::Store(StoreRequest::ListRange),
                        )
                    }
                },
                _ => (Import { phase: ImportPhase::Finished, slugs, new, total }, Effect::Abort),
            },
            ImportPhase::Listing(names) => match input {
                Input::Store(StoreReply::Done) => (
                    Import { phase: ImportPhase::Marking, slugs, new, total },
                    Effect::Store(StoreRequest::SeenInsert(names)),
                ),
                _ => (Import { phase: ImportPhase::Finished, slugs, new, total }, Effect::Abort),
            },
            ImportPhase::Marking => match input {
                Input::Store(StoreReply::Done) => (
                    Import { phase: ImportPhase::Counting, slugs, new, total },
                    Effect::Store(StoreRequest::ListRange),
                ),
                _ => (Import { phase: ImportPhase::Finished, slugs, new, total }, Effect::Abort),
            },
            ImportPhase::Counting => match input {
                Input::Store(StoreReply::Range(entries)) => {
                    let total = entries.len();
                    (
                        Import { phase: ImportPhase::Closing, slugs, new, total },
                        Effect::Respond(loaded(new, total)),
                    )
                },
                _ => (Import { phase: ImportPhase::Finished, slugs, new, total }, Effect::Abort),
            },
            ImportPhase::Closing => match input {
                Input::Delivered => (
                    Import { phase: ImportPhase::Finished, slugs, new, total },
                    Effect::Finish,
                ),
                _ => (Import { phase: ImportPhase::Finished, slugs, new, total }, Effect::Abort),
            },
            ImportPhase::Finished => (
                Import { phase: ImportPhase::Finished, slugs, new, total },
                Effect::Abort,
            ),
        }
    }
}

} // verus!
