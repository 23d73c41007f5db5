//! Drawing winners: entries leave the list one by one, each chosen at
//! random among those that are left.

use crate::messages::{
    found_winners, found_winners_text, no_entries, no_entries_text, winner_is, winner_is_text,
    winner_line, winner_line_text,
};
use crate::names::{lemma_remove_first_present, lemma_remove_first_within, remove_first};
use crate::session::{Effect, EffectView, Input, InputView};
use crate::store::{StoreReply, StoreReplyView, StoreRequest, StoreRequestView};
use vstd::multiset::Multiset;
use vstd::prelude::*;

verus! {

/// Where a draw stands: what it last asked for.
pub enum DrawPhase {
    /// The length of the list, to decide how the draw is announced.
    Sizing,
    /// That the number of winners be told.
    Heralding,
    /// The length of the list, to choose among that many.
    Measuring,
    /// An index below this length.
    Picking(usize),
    /// The entry at the chosen index.
    Reading,
    /// That this entry leave the list.
    Removing(String),
    /// That one winner among several be told.
    Telling,
    /// That the command be answered.
    Closing,
    /// Nothing more.
    Finished,
}

/// A `DrawPhase`, its name read as a sequence of characters.
pub enum DrawPhaseView {
    Sizing,
    Heralding,
    Measuring,
    Picking(nat),
    Reading,
    Removing(Seq<char>),
    Telling,
    Closing,
    Finished,
}

/// `list` after the names of `drawn` left it one after the other, each
/// taking the first entry of its name with it.
pub open spec fn strike(list: Seq<Seq<char>>, drawn: Seq<Seq<char>>) -> Seq<Seq<char>>
    decreases drawn.len(),
{
    if drawn.len() == 0 {
        list
    } else {
        remove_first(strike(list, drawn.drop_last()), drawn.last())
    }
}

/// Whether each name of `drawn` was an entry of the list when its turn
/// came.
pub open spec fn drawn_in_turn(list: Seq<Seq<char>>, drawn: Seq<Seq<char>>) -> bool {
    forall|k: int|
        0 <= k < drawn.len() ==> (#[trigger] strike(list, drawn.take(k))).contains(drawn[k])
}

/// Drawing is without replacement: each name drawn in turn takes exactly
/// one entry out of the list, so the list shrinks by the number of
/// draws, and what is left together with what was drawn is what was
/// there.
pub proof fn lemma_drawn_without_replacement(list: Seq<Seq<char>>, drawn: Seq<Seq<char>>)
    requires
        drawn_in_turn(list, drawn),
    ensures
        drawn.len() <= list.len(),
        strike(list, drawn).len() == list.len() - drawn.len(),
        list.to_multiset() == strike(list, drawn).to_multiset().add(drawn.to_multiset()),
    decreases drawn.len(),
{
    if drawn.len() == 0 {
        assert(drawn.to_multiset() =~= Multiset::empty()) by {
            drawn.to_multiset_ensures();
        }
    } else {
        let before = drawn.drop_last();
        let name = drawn.last();
        assert forall|k: int| 0 <= k < before.len() implies (#[trigger] strike(
            list,
            before.take(k),
        )).contains(before[k]) by {
            assert(before.take(k) =~= drawn.take(k));
        }
        lemma_drawn_without_replacement(list, before);
        let left = strike(list, before);
        lemma_remove_first_present(left, name);
        assert(drawn =~= before.push(name));
        vstd::seq_lib::to_multiset_build(before, name);
    }
}

/// Drawing brings no entry into the list.
pub proof fn lemma_strike_within(list: Seq<Seq<char>>, drawn: Seq<Seq<char>>, entry: Seq<char>)
    requires
        strike(list, drawn).contains(entry),
    ensures
        list.contains(entry),
    decreases drawn.len(),
{
    if drawn.len() > 0 {
        lemma_remove_first_within(strike(list, drawn.drop_last()), drawn.last(), entry);
        lemma_strike_within(list, drawn.drop_last(), entry);
    }
}

impl View for DrawPhase {
    type V = DrawPhaseView;

    open spec fn view(&self) -> DrawPhaseView {
        match self {
            DrawPhase::Sizing => DrawPhaseView::Sizing,
            DrawPhase::Heralding => DrawPhaseView::Heralding,
            DrawPhase::Measuring => DrawPhaseView::Measuring,
            DrawPhase::Picking(length) => DrawPhaseView::Picking(*length as nat),
            DrawPhase::Reading => DrawPhaseView::Reading,
            DrawPhase::Removing(name) => DrawPhaseView::Removing(name@),
            DrawPhase::Telling => DrawPhaseView::Telling,
            DrawPhase::Closing => DrawPhaseView::Closing,
            DrawPhase::Finished => DrawPhaseView::Finished,
        }
    }
}

/// A draw of up to a given number of winners, under way.
pub struct Draw {
    phase: DrawPhase,
    several: bool,
    remaining: u64,
    winners: Vec<String>,
}

/// A `Draw` as mathematics.
pub struct DrawView {
    /// What the draw last asked for.
    pub phase: DrawPhaseView,
    /// Whether each winner gets a message of their own.
    pub several: bool,
    /// How many winners are still to be drawn.
    pub remaining: nat,
    /// The winners so far, in the order drawn.
    pub winners: Seq<Seq<char>>,
}

impl View for Draw {
    type V = DrawView;

    closed spec fn view(&self) -> DrawView {
        DrawView {
            phase: self.phase@,
            several: self.several,
            remaining: self.remaining as nat,
            winners: self.winners.deep_view(),
        }
    }
}

impl DrawView {
    /// This draw, now in `phase`.
    pub open spec fn at(self, phase: DrawPhaseView) -> DrawView {
        DrawView { phase, ..self }
    }

    /// The draw as it begins: it asks for the length of the list.
    pub open spec fn begin(amount: nat) -> (DrawView, EffectView) {
        (
            DrawView {
                phase: DrawPhaseView::Sizing,
                several: false,
                remaining: amount,
                winners: Seq::empty(),
            },
            EffectView::Store(StoreRequestView::ListLength),
        )
    }

    /// The draw after `input`, and what it asks for next.
    ///
    /// The winners to expect are as many as were asked for, or as many
    /// as the list has if those are fewer. With no more than one to
    /// expect, the draw takes one entry, or none where none was asked
    /// for or the list is empty, and answers the command with the
    /// winner or with the word that there is none. With more, it tells
    /// their number first, then takes entries until it has as many as
    /// were asked for or the list is empty, and posts each. Each entry
    /// is taken in four steps: the length of the list, an index below
    /// it, the entry there, and the removal of the first entry of that
    /// name. An input that does not answer what was asked ends the
    /// draw.
    pub open spec fn step(self, input: InputView) -> (DrawView, EffectView) {
        match (self.phase, input) {
            (DrawPhaseView::Sizing, InputView::Store(StoreReplyView::Length(size))) => {
                let expected = if size <= self.remaining {
                    size
                } else {
                    self.remaining
                };
                if expected > 1 {
                    (
                        DrawView { phase: DrawPhaseView::Heralding, several: true, ..self },
                        EffectView::Respond(found_winners_text(expected)),
                    )
                } else if self.remaining == 0 {
                    (self.at(DrawPhaseView::Closing), EffectView::Respond(no_entries_text()))
                } else {
                    (
                        self.at(DrawPhaseView::Measuring),
                        EffectView::Store(StoreRequestView::ListLength),
                    )
                }
            },
            (DrawPhaseView::Heralding, InputView::Delivered) => (
                self.at(DrawPhaseView::Measuring),
                EffectView::Store(StoreRequestView::ListLength),
            ),
            (DrawPhaseView::Measuring, InputView::Store(StoreReplyView::Length(length))) => {
                if length > 0 {
                    (self.at(DrawPhaseView::Picking(length)), EffectView::Pick(length))
                } else if self.several {
                    (self.at(DrawPhaseView::Finished), EffectView::Finish)
                } else {
                    (self.at(DrawPhaseView::Closing), EffectView::Respond(no_entries_text()))
                }
            },
            (DrawPhaseView::Picking(length), InputView::Index(at)) => {
                if at < length {
                    (
                        self.at(DrawPhaseView::Reading),
                        EffectView::Store(StoreRequestView::ListIndex(at)),
                    )
                } else {
                    (self.at(DrawPhaseView::Finished), EffectView::Abort)
                }
            },
            (DrawPhaseView::Reading, InputView::Store(StoreReplyView::Entry(Some(name)))) => (
                self.at(DrawPhaseView::Removing(name)),
                EffectView::Store(StoreRequestView::ListRemove(name)),
            ),
            (DrawPhaseView::Removing(name), InputView::Store(StoreReplyView::Done)) => {
                let drawn = DrawView {
                    phase: if self.several {
                        DrawPhaseView::Telling
                    } else {
                        DrawPhaseView::Closing
                    },
                    several: self.several,
                    remaining: if self.remaining > 0 {
                        (self.remaining - 1) as nat
                    } else {
                        0
                    },
                    winners: self.winners.push(name),
                };
                if self.several {
                    (drawn, EffectView::Announce(winner_line_text(name)))
                } else {
                    (drawn, EffectView::Respond(winner_is_text(name)))
                }
            },
            (DrawPhaseView::Telling, InputView::Delivered) => {
                if self.remaining == 0 {
                    (self.at(DrawPhaseView::Finished), EffectView::Finish)
                } else {
                    (
                        self.at(DrawPhaseView::Measuring),
                        EffectView::Store(StoreRequestView::ListLength),
                    )
                }
            },
            (DrawPhaseView::Closing, InputView::Delivered) => (
                self.at(DrawPhaseView::Finished),
                EffectView::Finish,
            ),
            _ => (self.at(DrawPhaseView::Finished), EffectView::Abort),
        }
    }
}

/// A draw asks for a random index only where there is a choice: below a
/// bound greater than zero.
pub proof fn lemma_pick_has_a_choice(draw: DrawView, input: InputView)
    ensures
        draw.step(input).1 matches EffectView::Pick(bound) ==> bound > 0,
{
}

impl Draw {
    /// Begins a draw of up to `amount` winners.
    pub fn begin(amount: u64) -> (next: (Draw, Effect))
        ensures
            (next.0@, next.1@) == DrawView::begin(amount as nat),
    {
        let draw = Draw {
            phase: DrawPhase::Sizing,
            several: false,
            remaining: amount,
            winners: Vec::new(),
        };
        assert(draw.winners.deep_view() =~= Seq::empty());
        (draw, Effect::Store(StoreRequest::ListLength))
    }

    /// The winners so far, in the order drawn.
    pub fn winners(&self) -> (winners: &Vec<String>)
        ensures
            winners.deep_view() == self@.winners,
    {
        &self.winners
    }

    /// Ends the draw and hands out its winners, in the order drawn.
    pub fn into_winners(self) -> (winners: Vec<String>)
        ensures
            winners.deep_view() == self@.winners,
    {
        self.winners
    }

    /// Takes the outcome of what the draw last asked for, and says what
    /// it asks for next.
    pub fn step(self, input: Input) -> (next: (Draw, Effect))
        ensures
            (next.0@, next.1@) == self@.step(input@),
    {
        let Draw { phase, several, remaining, winners } = self;
        match phase {
            DrawPhase::Sizing => match input {
                Input::Store(StoreReply::Length(size)) => {
                    let expected: usize = if size as u64 <= remaining {
                        size
                    } else {
                        remaining as usize
                    };
                    if expected > 1 {
                        (
                            Draw { phase: DrawPhase::Heralding, several: true, remaining, winners },
                            Effect::Respond(found_winners(expected)),
                        )
                    } else if remaining == 0 {
                        (
                            Draw { phase: DrawPhase::Closing, several, remaining, winners },
                            Effect::Respond(no_entries()),
                        )
                    } else {
                        (
                            Draw { phase: DrawPhase::Measuring, several, remaining, winners },
                            Effect::Store(StoreRequest::ListLength),
                        )
                    }
                },
                _ => (
                    Draw { phase: DrawPhase::Finished, several, remaining, winners },
                    Effect::Abort,
                ),
            },
            DrawPhase::Heralding => match input {
                Input::Delivered => (
                    Draw { phase: DrawPhase::Measuring, several, remaining, winners },
                    Effect::Store(StoreRequest::ListLength),
                ),
                _ => (
                    Draw { phase: DrawPhase::Finished, several, remaining, winners },
                    Effect::Abort,
                ),
            },
            DrawPhase::Measuring => match input {
                Input::Store(StoreReply::Length(length)) => {
                    if length > 0 {
                        (
                            Draw { phase: DrawPhase::Picking(length), several, remaining, winners },
                            Effect::Pick(length),
                        )
                    } else if several {
                        (
                            Draw { phase: DrawPhase::Finished, several, remaining, winners },
                            Effect::Finish,
                        )
                    } else {
                        (
                            Draw { phase: DrawPhase::Closing, several, remaining, winners },
                            Effect::Respond(no_entries()),
                        )
                    }
                },
                _ => (
                    Draw { phase: DrawPhase::Finished, several, remaining, winners },
                    Effect::Abort,
                ),
            },
            DrawPhase::Picking(length) => match input {
                Input::Index(at) => {
                    if at < length {
                        (
                            Draw { phase: DrawPhase::Reading, several, remaining, winners },
                            Effect::Store(StoreRequest::ListIndex(at)),
                        )
                    } else {
                        (
                            Draw { phase: DrawPhase::Finished, several, remaining, winners },
                            Effect::Abort,
                        )
                    }
                },
                _ => (
                    Draw { phase: DrawPhase::Finished, several, remaining, winners },
                    Effect::Abort,
                ),
            },
            DrawPhase::Reading => match input {
                Input::Store(StoreReply::Entry(Some(name))) => {
                    let asked = name.clone();
                    (
                        Draw { phase: DrawPhase::Removing(name), several, remaining, winners },
                        Effect::Store(StoreRequest::ListRemove(asked)),
                    )
                },
                _ => (
                    Draw { phase: DrawPhase::Finished, several, remaining, winners },
                    Effect::Abort,
                ),
            },
            DrawPhase::Removing(name) => match input {
                Input::Store(StoreReply::Done) => {
                    let mut winners = winners;
                    let ghost before = winners.deep_view();
                    let effect = if several {
                        Effect::Announce(winner_line(name.as_str()))
                    } else {
                        Effect::Respond(winner_is(name.as_str()))
                    };
                    let ghost drawn = name@;
                    winners.push(name);
                    assert(winners.deep_view() =~= before.push(drawn));
                    let left: u64 = if remaining > 0 {
                        remaining - 1
                    } else {
                        0
                    };
                    let phase = if several {
                        DrawPhase::Telling
                    } else {
                        DrawPhase::Closing
                    };
                    (Draw { phase, several, remaining: left, winners }, effect)
                },
                _ => (
                    Draw { phase: DrawPhase::Finished, several, remaining, winners },
                    Effect::Abort,
                ),
            },
            DrawPhase::Telling => match input {
                Input::Delivered => {
                    if remaining == 0 {
                        (
                            Draw { phase: DrawPhase::Finished, several, remaining, winners },
                            Effect::Finish,
                        )
                    } else {
                        (
                            Draw { phase: DrawPhase::Measuring, several, remaining, winners },
                            Effect::Store(StoreRequest::ListLength),
                        )
                    }
                },
                _ => (
                    Draw { phase: DrawPhase::Finished, several, remaining, winners },
                    Effect::Abort,
                ),
            },
            DrawPhase::Closing => match input {
                Input::Delivered => (
                    Draw { phase: DrawPhase::Finished, several, remaining, winners },
                    Effect::Finish,
                ),
                _ => (
                    Draw { phase: DrawPhase::Finished, several, remaining, winners },
                    Effect::Abort,
                ),
            },
            DrawPhase::Finished => (
                Draw { phase: DrawPhase::Finished, several, remaining, winners },
                Effect::Abort,
            ),
        }
    }
}

} // verus!
