//! The commands of the raffle, run on a roster held in memory.

use crate::admin::{Clear, Size};
use crate::admission::{
    Admission, AdmissionPhaseView, AdmissionView, Emoji, EmojiView, Notice, Watch, APPROVAL,
};
use crate::discord::type_map_keys::{ChannelId, Rng, UserId};
use crate::draw::{
    drawn_in_turn, lemma_drawn_without_replacement, lemma_strike_within, strike, Draw,
    DrawPhaseView, DrawView,
};
use crate::import::{admitted, Import, ImportPhaseView, ImportView};
use crate::markup::bold_name_in;
use crate::messages::{
    added_text, cleared_text, found_winners_text, loaded_text, no_entries_text, readding_text,
    size_text, winner_is_text, winner_line_text,
};
use crate::roster::{Roster, RosterView};
use crate::session::{Effect, EffectView, Input, InputView, Reply, ReplyView};
use crate::store::{RosterKey, StoreRequestView};
use crate::tito::checkin::client::checkin_lists_handler::{Ticket, TicketView};
use vstd::prelude::*;
use vstd::string::StringExecFns;

verus! {

/// What an import needs: the check-in list to read, the keys under
/// which the store keeps the names seen and the list, and the accepted
/// ticket titles.
pub struct LoadParams<'a> {
    pub checkin_list_slug: &'a str,
    pub loaded_redis_key: &'a str,
    pub raffle_redis_key: &'a str,
    pub ticket_slugs: Vec<String>,
}

impl<'a> LoadParams<'a> {
    /// The keys under which the store keeps the roster.
    pub fn keys(&self) -> (keys: RosterKey<'a>)
        ensures
            keys.seen_key@ == self.loaded_redis_key@,
            keys.list_key@ == self.raffle_redis_key@,
    {
        RosterKey { seen_key: self.loaded_redis_key, list_key: self.raffle_redis_key }
    }
}

/// Whether carrying out `effect` on the roster `before` can have given
/// `input`, left the roster `after`, and turned the texts sent so far
/// from `sent` into `now_sent`.
pub open spec fn performed(
    effect: EffectView,
    before: RosterView,
    sent: Seq<ReplyView>,
    input: InputView,
    after: RosterView,
    now_sent: Seq<ReplyView>,
) -> bool {
    match effect {
        EffectView::Store(request) => {
            &&& input matches InputView::Store(reply)
            &&& before.answers(request, reply)
            &&& after == before.after(request)
            &&& now_sent == sent
        },
        EffectView::Pick(bound) => {
            &&& input matches InputView::Index(at)
            &&& at < bound
            &&& after == before
            &&& now_sent == sent
        },
        EffectView::Respond(text) => {
            &&& input == InputView::Delivered
            &&& after == before
            &&& now_sent == sent.push(ReplyView::Respond(text))
        },
        EffectView::Announce(text) => {
            &&& input == InputView::Delivered
            &&& after == before
            &&& now_sent == sent.push(ReplyView::Announce(text))
        },
        _ => false,
    }
}

/// Carries out what a command asks of the store or the chat: on the
/// roster, or by adding to the texts sent. What a command asks of
/// another collaborator is not carried out.
fn carry_out(roster: &mut Roster, replies: &mut Vec<Reply>, effect: Effect) -> (input: Option<
    Input,
>)
    ensures
        match input {
            Some(input) => performed(
                effect@,
                old(roster)@,
                old(replies).deep_view(),
                input@,
                final(roster)@,
                final(replies).deep_view(),
            ),
            None => {
                &&& !(effect@ is Store || effect@ is Respond || effect@ is Announce)
                &&& final(roster)@ == old(roster)@
                &&& final(replies).deep_view() == old(replies).deep_view()
            },
        },
{
    let ghost sent = replies.deep_view();
    match effect {
        Effect::Store(request) => Some(Input::Store(roster.apply(&request))),
        Effect::Respond(text) => {
            let ghost reply = ReplyView::Respond(text@);
            replies.push(Reply::Respond(text));
            assert(replies.deep_view() =~= sent.push(reply));
            Some(Input::Delivered)
        },
        Effect::Announce(text) => {
            let ghost reply = ReplyView::Announce(text@);
            replies.push(Reply::Announce(text));
            assert(replies.deep_view() =~= sent.push(reply));
            Some(Input::Delivered)
        },
        _ => None,
    }
}

/// One message for each winner, in the order drawn.
pub open spec fn winner_lines(winners: Seq<Seq<char>>) -> Seq<ReplyView> {
    winners.map_values(|name: Seq<char>| ReplyView::Announce(winner_line_text(name)))
}

/// The number of winners that a draw of `amount` from `size` entries has.
pub open spec fn expected_winners(size: nat, amount: nat) -> nat {
    if size <= amount {
        size
    } else {
        amount
    }
}

/// What a draw of `amount` from `size` entries sends when `winners` are
/// drawn: with more than one winner to expect, their number and then
/// each of them; else the one winner, or that there was none.
pub open spec fn raffle_replies(size: nat, amount: nat, winners: Seq<Seq<char>>) -> Seq<
    ReplyView,
> {
    if expected_winners(size, amount) > 1 {
        seq![ReplyView::Respond(found_winners_text(expected_winners(size, amount)))]
            + winner_lines(winners)
    } else if winners.len() > 0 {
        seq![ReplyView::Respond(winner_is_text(winners[0]))]
    } else {
        seq![ReplyView::Respond(no_entries_text())]
    }
}

/// What is drawn and what is sent by one run of `raffle`.
pub struct Drawn {
    /// The winners, in the order drawn.
    pub winners: Vec<String>,
    /// The texts sent, in order.
    pub replies: Vec<Reply>,
}

spec fn draw_rank(phase: DrawPhaseView) -> nat {
    match phase {
        DrawPhaseView::Sizing => 15,
        DrawPhaseView::Heralding => 14,
        DrawPhaseView::Telling => 7,
        DrawPhaseView::Measuring => 6,
        DrawPhaseView::Picking(_) => 5,
        DrawPhaseView::Reading => 4,
        DrawPhaseView::Removing(_) => 3,
        DrawPhaseView::Closing => 1,
        DrawPhaseView::Finished => 0,
    }
}

spec fn draw_measure(draw: DrawView) -> nat {
    draw.remaining * 16 + draw_rank(draw.phase)
}

/// What holds of a draw between its first request and its last winner.
spec fn drawing(draw: DrawView, expected: nat, sent: Seq<ReplyView>) -> bool {
    &&& draw.remaining >= 1
    &&& if draw.several {
        &&& expected > 1
        &&& sent == seq![ReplyView::Respond(found_winners_text(expected))] + winner_lines(
            draw.winners,
        )
    } else {
        &&& expected <= 1
        &&& draw.winners.len() == 0
        &&& sent.len() == 0
    }
}

/// What holds of a draw of `amount`, begun on the roster `start`, when
/// it has asked for `effect`, the roster is `now` and `sent` was sent.
spec fn raffle_inv(
    draw: DrawView,
    effect: EffectView,
    start: RosterView,
    amount: nat,
    now: RosterView,
    sent: Seq<ReplyView>,
) -> bool {
    let expected = expected_winners(start.entries.len(), amount);
    &&& now.seen == start.seen
    &&& now.entries == strike(start.entries, draw.winners)
    &&& drawn_in_turn(start.entries, draw.winners)
    &&& draw.remaining + draw.winners.len() == amount
    &&& match draw.phase {
        DrawPhaseView::Sizing => {
            &&& effect == EffectView::Store(StoreRequestView::ListLength)
            &&& !draw.several
            &&& draw.winners.len() == 0
            &&& sent.len() == 0
        },
        DrawPhaseView::Heralding => {
            &&& effect == EffectView::Respond(found_winners_text(expected))
            &&& draw.several
            &&& expected > 1
            &&& draw.winners.len() == 0
            &&& sent.len() == 0
        },
        DrawPhaseView::Measuring => {
            &&& effect == EffectView::Store(StoreRequestView::ListLength)
            &&& drawing(draw, expected, sent)
        },
        DrawPhaseView::Picking(length) => {
            &&& effect == EffectView::Pick(length)
            &&& length == now.entries.len()
            &&& length > 0
            &&& drawing(draw, expected, sent)
        },
        DrawPhaseView::Reading => {
            &&& effect matches EffectView::Store(StoreRequestView::ListIndex(at))
            &&& at < now.entries.len()
            &&& drawing(draw, expected, sent)
        },
        DrawPhaseView::Removing(name) => {
            &&& effect == EffectView::Store(StoreRequestView::ListRemove(name))
            &&& now.entries.contains(name)
            &&& drawing(draw, expected, sent)
        },
        DrawPhaseView::Telling => {
            &&& draw.several
            &&& expected > 1
            &&& draw.winners.len() >= 1
            &&& effect == EffectView::Announce(winner_line_text(draw.winners.last()))
            &&& sent == seq![ReplyView::Respond(found_winners_text(expected))] + winner_lines(
                draw.winners.drop_last(),
            )
        },
        DrawPhaseView::Closing => {
            &&& !draw.several
            &&& expected <= 1
            &&& draw.winners.len() == expected
            &&& sent.len() == 0
            &&& effect == EffectView::Respond(
                if draw.winners.len() > 0 {
                    winner_is_text(draw.winners[0])
                } else {
                    no_entries_text()
                },
            )
        },
        DrawPhaseView::Finished => {
            &&& effect == EffectView::Finish
            &&& draw.winners.len() == expected
            &&& sent == raffle_replies(start.entries.len(), amount, draw.winners)
        },
    }
}

proof fn lemma_raffle_step(
    draw: DrawView,
    effect: EffectView,
    start: RosterView,
    amount: nat,
    now: RosterView,
    sent: Seq<ReplyView>,
    input: InputView,
    after: RosterView,
    now_sent: Seq<ReplyView>,
)
    requires
        raffle_inv(draw, effect, start, amount, now, sent),
        performed(effect, now, sent, input, after, now_sent),
    ensures
        raffle_inv(draw.step(input).0, draw.step(input).1, start, amount, after, now_sent),
        draw_measure(draw.step(input).0) < draw_measure(draw),
{
    let expected = expected_winners(start.entries.len(), amount);
    let found = seq![ReplyView::Respond(found_winners_text(expected))];
    lemma_drawn_without_replacement(start.entries, draw.winners);
    match draw.phase {
        DrawPhaseView::Heralding => {
            assert(now_sent =~= found + winner_lines(draw.winners));
        },
        DrawPhaseView::Removing(name) => {
            let winners = draw.winners.push(name);
            assert(winners.drop_last() =~= draw.winners);
            assert forall|k: int| 0 <= k < winners.len() implies (#[trigger] strike(
                start.entries,
                winners.take(k),
            )).contains(winners[k]) by {
                if k < draw.winners.len() {
                    assert(winners.take(k) =~= draw.winners.take(k));
                }
            }
        },
        DrawPhaseView::Telling => {
            let earlier = draw.winners.drop_last();
            assert(winner_lines(draw.winners) =~= winner_lines(earlier).push(
                ReplyView::Announce(winner_line_text(draw.winners.last())),
            ));
        },
        DrawPhaseView::Closing => {
            assert(sent =~= Seq::empty());
        },
        _ => {},
    }
}

/// Draws up to `amount` winners from the roster, each at random among
/// the entries that are left, and takes them out of the list.
///
/// As many are drawn as were asked for, or all entries if there are
/// fewer. The names ever admitted stay as they are.
pub fn raffle(roster: &mut Roster, rng: &mut Rng, amount: u64) -> (drawn: Drawn)
    ensures
        drawn.winners.len() == expected_winners(old(roster)@.entries.len(), amount as nat),
        drawn_in_turn(old(roster)@.entries, drawn.winners.deep_view()),
        final(roster)@.entries == strike(old(roster)@.entries, drawn.winners.deep_view()),
        final(roster)@.entries.len() == old(roster)@.entries.len() - drawn.winners.len(),
        old(roster)@.entries.to_multiset() == final(roster)@.entries.to_multiset().add(
            drawn.winners.deep_view().to_multiset(),
        ),
        final(roster)@.seen == old(roster)@.seen,
        drawn.replies.deep_view() == raffle_replies(
            old(roster)@.entries.len(),
            amount as nat,
            drawn.winners.deep_view(),
        ),
{
    let begun = Draw::begin(amount);
    let mut draw = begun.0;
    let mut effect = begun.1;
    let mut replies: Vec<Reply> = Vec::new();
    loop
        invariant
            raffle_inv(
                draw@,
                effect@,
                old(roster)@,
                amount as nat,
                roster@,
                replies.deep_view(),
            ),
        ensures
            draw@.phase is Finished,
        decreases draw_measure(draw@),
    {
        let ghost before = roster@;
        let ghost sent = replies.deep_view();
        let ghost asked = effect@;
        let input = match effect {
            Effect::Pick(bound) => Input::Index(rng.rand(bound)),
            other => match carry_out(roster, &mut replies, other) {
                Some(input) => input,
                None => {
                    break ;
                },
            },
        };
        proof {
            lemma_raffle_step(
                draw@,
                asked,
                old(roster)@,
                amount as nat,
                before,
                sent,
                input@,
                roster@,
                replies.deep_view(),
            );
        }
        let next = draw.step(input);
        draw = next.0;
        effect = next.1;
    }
    let winners = draw.into_winners();
    proof {
        lemma_drawn_without_replacement(old(roster)@.entries, winners.deep_view());
    }
    Drawn { winners, replies }
}

/// A draw of as many as there are entries, or fewer, takes exactly that
/// many; a draw of more takes every entry and stops.
pub proof fn lemma_draw_counts(list: Seq<Seq<char>>, drawn: Seq<Seq<char>>, amount: nat)
    requires
        drawn_in_turn(list, drawn),
        drawn.len() == expected_winners(list.len(), amount),
    ensures
        amount <= list.len() ==> drawn.len() == amount && strike(list, drawn).len() == list.len()
            - amount,
        amount > list.len() ==> drawn.len() == list.len() && strike(list, drawn).len() == 0,
{
    lemma_drawn_without_replacement(list, drawn);
}

/// A draw from an empty roster has no winner and says so; it is no
/// failure.
pub proof fn lemma_empty_roster_draw(amount: nat)
    ensures
        expected_winners(0, amount) == 0,
        strike(Seq::empty(), Seq::empty()) == Seq::<Seq<char>>::empty(),
        raffle_replies(0, amount, Seq::empty()) == seq![ReplyView::Respond(no_entries_text())],
{
}

/// What an import reports and what it sent.
pub struct Loaded {
    /// How many names were admitted.
    pub new: usize,
    /// How many entries the list has afterwards.
    pub total: usize,
    /// The texts sent, in order.
    pub replies: Vec<Reply>,
}

spec fn import_rank(phase: ImportPhaseView) -> nat {
    match phase {
        ImportPhaseView::Fetching => 6,
        ImportPhaseView::Recalling { .. } => 5,
        ImportPhaseView::Listing(_) => 4,
        ImportPhaseView::Marking => 3,
        ImportPhaseView::Counting => 2,
        ImportPhaseView::Closing => 1,
        ImportPhaseView::Finished => 0,
    }
}

/// What holds of an import from `tickets` and `checkins`, begun on the
/// roster `start`, when it has asked for `effect`, the roster is `now`
/// and `sent` was sent.
spec fn load_inv(
    import: ImportView,
    effect: EffectView,
    list: Seq<char>,
    checkins: Seq<u32>,
    tickets: Seq<TicketView>,
    start: RosterView,
    now: RosterView,
    sent: Seq<ReplyView>,
) -> bool {
    let names = admitted(tickets, checkins.to_set(), import.slugs, start.seen);
    let report = ReplyView::Respond(loaded_text(names.len(), start.entries.len() + names.len()));
    match import.phase {
        ImportPhaseView::Fetching => {
            &&& effect == EffectView::Fetch(list)
            &&& now == start
            &&& sent.len() == 0
        },
        ImportPhaseView::Recalling { checkins: held_checkins, tickets: held_tickets } => {
            &&& held_checkins == checkins
            &&& held_tickets == tickets
            &&& effect == EffectView::Store(StoreRequestView::SeenMembers)
            &&& now == start
            &&& sent.len() == 0
        },
        ImportPhaseView::Listing(held) => {
            &&& held == names
            &&& names.len() > 0
            &&& import.new == names.len()
            &&& effect == EffectView::Store(StoreRequestView::ListAppend(names))
            &&& now == start
            &&& sent.len() == 0
        },
        ImportPhaseView::Marking => {
            &&& names.len() > 0
            &&& import.new == names.len()
            &&& effect == EffectView::Store(StoreRequestView::SeenInsert(names))
            &&& now == RosterView { seen: start.seen, entries: start.entries + names }
            &&& sent.len() == 0
        },
        ImportPhaseView::Counting => {
            &&& import.new == names.len()
            &&& effect == EffectView::Store(StoreRequestView::ListRange)
            &&& now == start.imported(names)
            &&& sent.len() == 0
        },
        ImportPhaseView::Closing => {
            &&& import.new == names.len()
            &&& import.total == start.entries.len() + names.len()
            &&& effect == EffectView::Respond(
                loaded_text(names.len(), start.entries.len() + names.len()),
            )
            &&& now == start.imported(names)
            &&& sent.len() == 0
        },
        ImportPhaseView::Finished => {
            &&& import.new == names.len()
            &&& import.total == start.entries.len() + names.len()
            &&& effect == EffectView::Finish
            &&& now == start.imported(names)
            &&& sent == seq![report]
        },
    }
}

proof fn lemma_load_step(
    import: ImportView,
    effect: EffectView,
    list: Seq<char>,
    checkins: Seq<u32>,
    tickets: Seq<TicketView>,
    start: RosterView,
    now: RosterView,
    sent: Seq<ReplyView>,
    input: InputView,
    after: RosterView,
    now_sent: Seq<ReplyView>,
)
    requires
        load_inv(import, effect, list, checkins, tickets, start, now, sent),
        performed(effect, now, sent, input, after, now_sent) || (effect is Fetch && input
            == InputView::Attendance { checkins, tickets } && after == now && now_sent == sent),
    ensures
        load_inv(
            import.step(input).0,
            import.step(input).1,
            list,
            checkins,
            tickets,
            start,
            after,
            now_sent,
        ),
        import.step(input).0.slugs == import.slugs,
        import_rank(import.step(input).0.phase) < import_rank(import.phase),
{
    let names = admitted(tickets, checkins.to_set(), import.slugs, start.seen);
    match import.phase {
        ImportPhaseView::Recalling { .. } => {
            if names.len() == 0 {
                assert(start.seen.union(names.to_set()) =~= start.seen);
            }
        },
        ImportPhaseView::Closing => {
            assert(sent =~= Seq::empty());
        },
        _ => {},
    }
}

/// Imports the holders of `tickets` into the roster: those whose ticket
/// bears an accepted title and both names and is among `checkins`, and
/// whose name the roster has not seen. Each new name is admitted once,
/// at the end of the list, in the order of its first ticket.
pub fn load(
    roster: &mut Roster,
    checkins: Vec<u32>,
    tickets: Vec<Ticket>,
    params: LoadParams<'_>,
) -> (loaded: Loaded)
    ensures
        ({
            let names = admitted(
                tickets.deep_view(),
                checkins@.to_set(),
                params.ticket_slugs.deep_view(),
                old(roster)@.seen,
            );
            &&& final(roster)@ == old(roster)@.imported(names)
            &&& loaded.new == names.len()
            &&& loaded.total == final(roster)@.size()
            &&& loaded.replies.deep_view() == seq![
                ReplyView::Respond(loaded_text(loaded.new as nat, loaded.total as nat)),
            ]
        }),
{
    let ghost list = params.checkin_list_slug@;
    let ghost slugs = params.ticket_slugs.deep_view();
    let ghost all_checkins = checkins@;
    let ghost all_tickets = tickets.deep_view();
    let mut checkins = checkins;
    let mut tickets = tickets;
    let begun = Import::begin(params);
    let mut import = begun.0;
    let mut effect = begun.1;
    let mut replies: Vec<Reply> = Vec::new();
    loop
        invariant
            import@.slugs == slugs,
            load_inv(
                import@,
                effect@,
                list,
                all_checkins,
                all_tickets,
                old(roster)@,
                roster@,
                replies.deep_view(),
            ),
            import@.phase is Fetching ==> checkins@ == all_checkins && tickets.deep_view()
                == all_tickets,
        ensures
            import@.phase is Finished,
        decreases import_rank(import@.phase),
    {
        let ghost before = roster@;
        let ghost sent = replies.deep_view();
        let ghost asked = effect@;
        let input = match effect {
            Effect::Fetch(_) => {
                let mut fetched_checkins: Vec<u32> = Vec::new();
                let mut fetched_tickets: Vec<Ticket> = Vec::new();
                core::mem::swap(&mut checkins, &mut fetched_checkins);
                core::mem::swap(&mut tickets, &mut fetched_tickets);
                Input::Attendance { checkins: fetched_checkins, tickets: fetched_tickets }
            },
            other => match carry_out(roster, &mut replies, other) {
                Some(input) => input,
                None => {
                    break ;
                },
            },
        };
        proof {
            lemma_load_step(
                import@,
                asked,
                list,
                all_checkins,
                all_tickets,
                old(roster)@,
                before,
                sent,
                input@,
                roster@,
                replies.deep_view(),
            );
        }
        let next = import.step(input);
        import = next.0;
        effect = next.1;
    }
    Loaded { new: import.new_entries(), total: import.total_entries(), replies }
}

/// What an admission sends: nothing, the answer to the command, or a
/// message in the channel.
pub open spec fn notice_replies(notice: Notice, name: Seq<char>) -> Seq<ReplyView> {
    match notice {
        Notice::Silent => Seq::empty(),
        Notice::Added => seq![ReplyView::Respond(added_text(name))],
        Notice::Readding => seq![ReplyView::Announce(readding_text(name))],
    }
}

spec fn admission_rank(phase: AdmissionPhaseView) -> nat {
    match phase {
        AdmissionPhaseView::Reading { .. } => 4,
        AdmissionPhaseView::Marking(_) => 3,
        AdmissionPhaseView::Listing(_) => 2,
        AdmissionPhaseView::Closing => 1,
        AdmissionPhaseView::Finished => 0,
    }
}

/// What holds of the admission of `name`, begun on the roster `start`,
/// when it has asked for `effect`, the roster is `now` and `sent` was
/// sent.
spec fn admission_inv(
    admission: AdmissionView,
    effect: EffectView,
    name: Seq<char>,
    start: RosterView,
    now: RosterView,
    sent: Seq<ReplyView>,
) -> bool {
    match admission.phase {
        AdmissionPhaseView::Reading { .. } => false,
        AdmissionPhaseView::Marking(held) => {
            &&& held == name
            &&& effect == EffectView::Store(StoreRequestView::SeenInsert(seq![name]))
            &&& now == start
            &&& sent.len() == 0
        },
        AdmissionPhaseView::Listing(held) => {
            &&& held == name
            &&& effect == EffectView::Store(StoreRequestView::ListAppend(seq![name]))
            &&& now == RosterView { seen: start.seen.insert(name), entries: start.entries }
            &&& sent.len() == 0
        },
        AdmissionPhaseView::Closing => {
            &&& notice_replies(admission.notice, name).len() == 1
            &&& effect == match admission.notice {
                Notice::Readding => EffectView::Announce(readding_text(name)),
                _ => EffectView::Respond(added_text(name)),
            }
            &&& now == start.added(name)
            &&& sent.len() == 0
        },
        AdmissionPhaseView::Finished => {
            &&& effect == EffectView::Finish
            &&& now == start.added(name)
            &&& sent == notice_replies(admission.notice, name)
        },
    }
}

proof fn lemma_admission_step(
    admission: AdmissionView,
    effect: EffectView,
    name: Seq<char>,
    start: RosterView,
    now: RosterView,
    sent: Seq<ReplyView>,
    input: InputView,
    after: RosterView,
    now_sent: Seq<ReplyView>,
)
    requires
        admission_inv(admission, effect, name, start, now, sent),
        performed(effect, now, sent, input, after, now_sent),
    ensures
        admission_inv(
            admission.step(input).0,
            admission.step(input).1,
            name,
            start,
            after,
            now_sent,
        ),
        admission.step(input).0.notice == admission.notice,
        admission_rank(admission.step(input).0.phase) < admission_rank(admission.phase),
{
    match admission.phase {
        AdmissionPhaseView::Marking(_) => {
            assert(seq![name][0] == name);
            assert(start.seen.union(seq![name].to_set()) =~= start.seen.insert(name));
        },
        AdmissionPhaseView::Listing(_) => {
            assert(start.entries + seq![name] =~= start.entries.push(name));
            assert(sent =~= Seq::empty());
        },
        AdmissionPhaseView::Closing => {
            assert(sent =~= Seq::empty());
        },
        _ => {},
    }
}

/// Runs an admission that has just begun to its end.
fn admit_name(roster: &mut Roster, admission: Admission, effect: Effect) -> (replies: Vec<Reply>)
    requires
        admission@.phase is Marking,
        effect@ == EffectView::Store(
            StoreRequestView::SeenInsert(seq![admission@.phase->Marking_0]),
        ),
    ensures
        final(roster)@ == old(roster)@.added(admission@.phase->Marking_0),
        replies.deep_view() == notice_replies(admission@.notice, admission@.phase->Marking_0),
{
    let ghost name = admission@.phase->Marking_0;
    let ghost notice = admission@.notice;
    let mut admission = admission;
    let mut effect = effect;
    let mut replies: Vec<Reply> = Vec::new();
    loop
        invariant
            admission@.notice == notice,
            admission_inv(admission@, effect@, name, old(roster)@, roster@, replies.deep_view()),
        ensures
            admission@.phase is Finished,
        decreases admission_rank(admission@.phase),
    {
        let ghost before = roster@;
        let ghost sent = replies.deep_view();
        let ghost asked = effect@;
        let input = match carry_out(roster, &mut replies, effect) {
            Some(input) => input,
            None => {
                break ;
            },
        };
        proof {
            lemma_admission_step(
                admission@,
                asked,
                name,
                old(roster)@,
                before,
                sent,
                input@,
                roster@,
                replies.deep_view(),
            );
        }
        let next = admission.step(input);
        admission = next.0;
        effect = next.1;
    }
    replies
}

/// Enters `name` by hand and confirms it: the name is seen from now on,
/// and the list has one more entry of it at its end, whether or not it
/// held the name before.
pub fn add(roster: &mut Roster, name: &str) -> (replies: Vec<Reply>)
    ensures
        final(roster)@ == old(roster)@.added(name@),
        replies.deep_view() == seq![ReplyView::Respond(added_text(name@))],
{
    let begun = Admission::begin(name, Notice::Added);
    admit_name(roster, begun.0, begun.1)
}

/// Enters `name` by hand, without a word: the name is seen from now on,
/// and the list has one more entry of it at its end, whether or not it
/// held the name before.
pub fn add_name(roster: &mut Roster, name: &str)
    ensures
        final(roster)@ == old(roster)@.added(name@),
{
    let begun = Admission::begin(name, Notice::Silent);
    let _ = admit_name(roster, begun.0, begun.1);
}

/// Entering a name by hand twice leaves it on the list twice more: two
/// more entries, both of that name.
pub proof fn lemma_added_twice(roster: RosterView, name: Seq<char>)
    ensures
        roster.added(name).added(name).size() == roster.size() + 2,
        roster.added(name).added(name).entries == roster.entries + seq![name, name],
        roster.added(name).added(name).entries.to_multiset().count(name)
            == roster.entries.to_multiset().count(name) + 2,
        roster.added(name).added(name).seen == roster.seen.insert(name),
{
    vstd::seq_lib::to_multiset_build(roster.entries, name);
    vstd::seq_lib::to_multiset_build(roster.added(name).entries, name);
}

/// The name that a reaction puts back: the one that the message sets in
/// bold, where the reaction is in the watched channel, approves, and is
/// to a message of the watched author.
pub open spec fn recovered_name(
    watch: Watch,
    channel: ChannelId,
    emoji: EmojiView,
    author: UserId,
    content: Seq<char>,
) -> Option<Seq<char>> {
    if channel == watch.channel && author == watch.author && emoji == EmojiView::Unicode(
        APPROVAL@,
    ) {
        bold_name_in(content)
    } else {
        None
    }
}

/// Handles a reaction with `emoji` in `channel` to the message that
/// `author` wrote with the text `content`: a winner that an approved
/// announcement names is entered again and the channel is told; any
/// other reaction changes nothing.
pub fn reaction_add(
    roster: &mut Roster,
    watch: &Watch,
    channel: ChannelId,
    emoji: Emoji,
    author: UserId,
    content: &str,
) -> (replies: Vec<Reply>)
    ensures
        match recovered_name(*watch, channel, emoji@, author, content@) {
            Some(name) => {
                &&& final(roster)@ == old(roster)@.added(name)
                &&& replies.deep_view() == seq![ReplyView::Announce(readding_text(name))]
            },
            None => {
                &&& final(roster)@ == old(roster)@
                &&& replies.deep_view() == Seq::<ReplyView>::empty()
            },
        },
{
    let begun = Admission::react(watch, channel, emoji);
    let read = match begun.1 {
        Effect::ReadMessage => begun.0.step(
            Input::Message { author: author.0, content: String::from_str(content) },
        ),
        _ => begun,
    };
    match read.1 {
        Effect::Store(request) => admit_name(roster, read.0, Effect::Store(request)),
        _ => {
            let replies: Vec<Reply> = Vec::new();
            replies
        },
    }
}

spec fn clear_rank(clear: Clear) -> nat {
    match clear {
        Clear::Forgetting => 3,
        Clear::Emptying => 2,
        Clear::Closing => 1,
        Clear::Finished => 0,
    }
}

spec fn clear_inv(
    clear: Clear,
    effect: EffectView,
    start: RosterView,
    now: RosterView,
    sent: Seq<ReplyView>,
) -> bool {
    match clear {
        Clear::Forgetting => {
            &&& effect == EffectView::Store(StoreRequestView::DeleteSeen)
            &&& now == start
            &&& sent.len() == 0
        },
        Clear::Emptying => {
            &&& effect == EffectView::Store(StoreRequestView::DeleteList)
            &&& now == RosterView { seen: Set::empty(), entries: start.entries }
            &&& sent.len() == 0
        },
        Clear::Closing => {
            &&& effect == EffectView::Respond(cleared_text())
            &&& now == start.cleared()
            &&& sent.len() == 0
        },
        Clear::Finished => {
            &&& effect == EffectView::Finish
            &&& now == start.cleared()
            &&& sent == seq![ReplyView::Respond(cleared_text())]
        },
    }
}

proof fn lemma_clear_step(
    clear: Clear,
    effect: EffectView,
    start: RosterView,
    now: RosterView,
    sent: Seq<ReplyView>,
    input: InputView,
    after: RosterView,
    now_sent: Seq<ReplyView>,
)
    requires
        clear_inv(clear, effect, start, now, sent),
        performed(effect, now, sent, input, after, now_sent),
    ensures
        clear_inv(clear.spec_step(input).0, clear.spec_step(input).1, start, after, now_sent),
        clear_rank(clear.spec_step(input).0) < clear_rank(clear),
{
    if clear is Closing {
        assert(sent =~= Seq::empty());
    }
}

/// Clears the roster and confirms it: nobody is seen and the list is
/// empty afterwards, whatever it held.
pub fn clear(roster: &mut Roster) -> (replies: Vec<Reply>)
    ensures
        final(roster)@ == old(roster)@.cleared(),
        final(roster)@.size() == 0,
        replies.deep_view() == seq![ReplyView::Respond(cleared_text())],
{
    let begun = Clear::begin();
    let mut clear = begun.0;
    let mut effect = begun.1;
    let mut replies: Vec<Reply> = Vec::new();
    loop
        invariant
            clear_inv(clear, effect@, old(roster)@, roster@, replies.deep_view()),
        ensures
            clear is Finished,
        decreases clear_rank(clear),
    {
        let ghost before = roster@;
        let ghost sent = replies.deep_view();
        let ghost asked = effect@;
        let input = match carry_out(roster, &mut replies, effect) {
            Some(input) => input,
            None => {
                break ;
            },
        };
        proof {
            lemma_clear_step(
                clear,
                asked,
                old(roster)@,
                before,
                sent,
                input@,
                roster@,
                replies.deep_view(),
            );
        }
        let next = clear.step(input);
        clear = next.0;
        effect = next.1;
    }
    replies
}

/// What a count reports and what it sent.
pub struct Counted {
    /// The number of entries in the list.
    pub entries: usize,
    /// The texts sent, in order.
    pub replies: Vec<Reply>,
}

spec fn size_rank(size: Size) -> nat {
    match size {
        Size::Measuring => 2,
        Size::Closing(_) => 1,
        Size::Finished(_) => 0,
    }
}

spec fn size_inv(size: Size, effect: EffectView, now: RosterView, sent: Seq<ReplyView>) -> bool {
    match size {
        Size::Measuring => {
            &&& effect == EffectView::Store(StoreRequestView::ListLength)
            &&& sent.len() == 0
        },
        Size::Closing(entries) => {
            &&& entries == now.size()
            &&& effect == EffectView::Respond(size_text(now.size()))
            &&& sent.len() == 0
        },
        Size::Finished(entries) => {
            &&& entries == now.size()
            &&& effect == EffectView::Finish
            &&& sent == seq![ReplyView::Respond(size_text(now.size()))]
        },
    }
}

proof fn lemma_size_step(
    size: Size,
    effect: EffectView,
    now: RosterView,
    sent: Seq<ReplyView>,
    input: InputView,
    after: RosterView,
    now_sent: Seq<ReplyView>,
)
    requires
        size_inv(size, effect, now, sent),
        now.size() <= usize::MAX,
        performed(effect, now, sent, input, after, now_sent),
    ensures
        after == now,
        size_inv(size.spec_step(input).0, size.spec_step(input).1, after, now_sent),
        size_rank(size.spec_step(input).0) < size_rank(size),
{
    if size is Closing {
        assert(sent =~= Seq::empty());
    }
}

/// Counts the entries that can still be drawn and reports the number.
/// The roster stays as it is.
pub fn size(roster: &mut Roster) -> (counted: Counted)
    ensures
        final(roster)@ == old(roster)@,
        counted.entries == old(roster)@.size(),
        counted.replies.deep_view() == seq![
            ReplyView::Respond(size_text(old(roster)@.size())),
        ],
{
    let begun = Size::begin();
    let mut size = begun.0;
    let mut effect = begun.1;
    let mut replies: Vec<Reply> = Vec::new();
    loop
        invariant
            roster@ == old(roster)@,
            size_inv(size, effect@, roster@, replies.deep_view()),
        ensures
            size is Finished,
        decreases size_rank(size),
    {
        let ghost before = roster@;
        let ghost sent = replies.deep_view();
        let ghost asked = effect@;
        let input = match carry_out(roster, &mut replies, effect) {
            Some(input) => input,
            None => {
                break ;
            },
        };
        proof {
            lemma_size_step(size, asked, before, sent, input@, roster@, replies.deep_view());
        }
        let next = size.step(input);
        size = next.0;
        effect = next.1;
    }
    let entries = match size {
        Size::Finished(entries) => entries,
        _ => 0,
    };
    Counted { entries, replies }
}

/// No command puts a name on the list that is not among the names seen:
/// not an import, not an entry by hand, not clearing, not a draw.
pub proof fn lemma_every_entry_stays_seen(
    roster: RosterView,
    names: Seq<Seq<char>>,
    name: Seq<char>,
    drawn: Seq<Seq<char>>,
)
    requires
        roster.every_entry_seen(),
    ensures
        roster.imported(names).every_entry_seen(),
        roster.added(name).every_entry_seen(),
        roster.cleared().every_entry_seen(),
        (RosterView { seen: roster.seen, entries: strike(roster.entries, drawn) })
            .every_entry_seen(),
{
    let left = strike(roster.entries, drawn);
    assert forall|i: int| 0 <= i < left.len() implies roster.seen.contains(#[trigger] left[i]) by {
        lemma_strike_within(roster.entries, drawn, left[i]);
    }
}

/// Once the roster is cleared it has no entries, whatever it held.
pub proof fn lemma_cleared_is_empty(roster: RosterView)
    ensures
        roster.cleared().size() == 0,
        roster.cleared().seen.is_empty(),
{
}

} // verus!
