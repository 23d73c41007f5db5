//! Looking after the roster: clearing it, and counting its entries.

use crate::messages::{cleared, cleared_text, size, size_text};
use crate::session::{Effect, EffectView, Input, InputView};
use crate::store::{StoreReply, StoreReplyView, StoreRequest, StoreRequestView};
use vstd::prelude::*;

verus! {

/// Clearing the roster, under way: what it last asked for.
#[derive(Debug, PartialEq)]
pub enum Clear {
    /// That the names seen be forgotten.
    Forgetting,
    /// That the list be forgotten.
    Emptying,
    /// That the command be answered.
    Closing,
    /// Nothing more.
    Finished,
}

impl Clear {
    /// Clearing as it begins: it asks that the names seen be forgotten.
    pub open spec fn spec_begin() -> (Clear, EffectView) {
        (Clear::Forgetting, EffectView::Store(StoreRequestView::DeleteSeen))
    }

    /// Clearing after `input`, and what it asks for next: the names seen
    /// go first, then the list, then the command is answered. An input
    /// that does not answer what was asked ends it.
    pub open spec fn spec_step(self, input: InputView) -> (Clear, EffectView) {
        match (self, input) {
            (Clear::Forgetting, InputView::Store(StoreReplyView::Done)) => (
                Clear::Emptying,
                EffectView::Store(StoreRequestView::DeleteList),
            ),
            (Clear::Emptying, InputView::Store(StoreReplyView::Done)) => (
                Clear::Closing,
                EffectView::Respond(cleared_text()),
            ),
            (Clear::Closing, InputView::Delivered) => (Clear::Finished, EffectView::Finish),
            _ => (Clear::Finished, EffectView::Abort),
        }
    }

    /// Begins to clear the roster.
    pub fn begin() -> (next: (Clear, Effect))
        ensures
            (next.0, next.1@) == Clear::spec_begin(),
    {
        (Clear::Forgetting, Effect::Store(StoreRequest::DeleteSeen))
    }

    /// Takes the outcome of what was last asked for, and says what is
    /// asked for next.
    pub fn step(self, input: Input) -> (next: (Clear, Effect))
        ensures
            (next.0, next.1@) == self.spec_step(input@),
    {
        match self {
            Clear::Forgetting => match input {
                Input::Store(StoreReply::Done) => (
                    Clear::Emptying,
                    Effect::Store(StoreRequest::DeleteList),
                ),
                _ => (Clear::Finished, Effect::Abort),
            },
            Clear::Emptying => match input {
                Input::Store(StoreReply::Done) => (Clear::Closing, Effect::Respond(cleared())),
                _ => (Clear::Finished, Effect::Abort),
            },
            Clear::Closing => match input {
                Input::Delivered => (Clear::Finished, Effect::Finish),
                _ => (Clear::Finished, Effect::Abort),
            },
            Clear::Finished => (Clear::Finished, Effect::Abort),
        }
    }
}

/// Counting the entries, under way: what it last asked for.
#[derive(Debug, PartialEq)]
pub enum Size {
    /// The length of the list.
    Measuring,
    /// That the command be answered with this number of entries.
    Closing(usize),
    /// Nothing more; this many entries were counted.
    Finished(usize),
}

impl Size {
    /// Counting as it begins: it asks for the length of the list.
    pub open spec fn spec_begin() -> (Size, EffectView) {
        (Size::Measuring, EffectView::Store(StoreRequestView::ListLength))
    }

    /// Counting after `input`, and what it asks for next: the command is
    /// answered with the length. An input that does not answer what was
    /// asked ends it, with nothing counted.
    pub open spec fn spec_step(self, input: InputView) -> (Size, EffectView) {
        match (self, input) {
            (Size::Measuring, InputView::Store(StoreReplyView::Length(entries))) => (
                Size::Closing(entries as usize),
                EffectView::Respond(size_text(entries)),
            ),
            (Size::Closing(entries), InputView::Delivered) => (
                Size::Finished(entries),
                EffectView::Finish,
            ),
            _ => (Size::Finished(0), EffectView::Abort),
        }
    }

    /// Begins to count the entries.
    pub fn begin() -> (next: (Size, Effect))
        ensures
            (next.0, next.1@) == Size::spec_begin(),
    {
        (Size::Measuring, Effect::Store(StoreRequest::ListLength))
    }

    /// Takes the outcome of what was last asked for, and says what is
    /// asked for next.
    pub fn step(self, input: Input) -> (next: (Size, Effect))
        ensures
            (next.0, next.1@) == self.spec_step(input@),
    {
        match self {
            Size::Measuring => match input {
                Input::Store(StoreReply::Length(entries)) => (
                    Size::Closing(entries),
                    Effect::Respond(size(entries)),
                ),
                _ => (Size::Finished(0), Effect::Abort),
            },
            Size::Closing(entries) => match input {
                Input::Delivered => (Size::Finished(entries), Effect::Finish),
                _ => (Size::Finished(0), Effect::Abort),
            },
            Size::Finished(_) => (Size::Finished(0), Effect::Abort),
        }
    }
}

} // verus!
