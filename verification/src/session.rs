//! The conversation between a command and its collaborators.
//!
//! A command never reaches the store, the ticketing service, the random
//! source or the chat itself. It names the next thing it needs as an
//! `Effect`; whoever runs the command carries that out and hands the
//! outcome back as an `Input`.

use crate::store::{StoreReply, StoreReplyView, StoreRequest, StoreRequestView};
use crate::tito::checkin::client::checkin_lists_handler::{Ticket, TicketView};
use vstd::prelude::*;

verus! {

/// What a command needs next.
#[derive(Debug, PartialEq)]
pub enum Effect {
    /// The check-ins and the tickets of the check-in list of this name.
    Fetch(String),
    /// One operation on the store.
    Store(StoreRequest),
    /// A random index below this bound, which is greater than zero.
    Pick(usize),
    /// The message that a reaction was added to.
    ReadMessage,
    /// Answer the command with this text.
    Respond(String),
    /// Post this text to the channel.
    Announce(String),
    /// Nothing: the command is complete.
    Finish,
    /// Nothing: a collaborator answered what was not asked, and the
    /// command gave up.
    Abort,
}

/// The outcome of an `Effect`.
#[derive(Debug, PartialEq)]
pub enum Input {
    /// Of `Fetch`: the ids of the tickets that are checked in, and all
    /// tickets of the list.
    Attendance { checkins: Vec<u32>, tickets: Vec<Ticket> },
    /// Of `Store`.
    Store(StoreReply),
    /// Of `Pick`.
    Index(usize),
    /// Of `ReadMessage`: who wrote the message, and its text.
    Message { author: u64, content: String },
    /// Of `Respond` and `Announce`: the text went out.
    Delivered,
}

/// An `Effect`, its texts read as sequences of characters.
pub enum EffectView {
    Fetch(Seq<char>),
    Store(StoreRequestView),
    Pick(nat),
    ReadMessage,
    Respond(Seq<char>),
    Announce(Seq<char>),
    Finish,
    Abort,
}

/// An `Input`, its texts read as sequences of characters.
pub enum InputView {
    Attendance { checkins: Seq<u32>, tickets: Seq<TicketView> },
    Store(StoreReplyView),
    Index(nat),
    Message { author: u64, content: Seq<char> },
    Delivered,
}

impl View for Effect {
    type V = EffectView;

    open spec fn view(&self) -> EffectView {
        match self {
            Effect::Fetch(list) => EffectView::Fetch(list@),
            Effect::Store(request) => EffectView::Store(request@),
            Effect::Pick(bound) => EffectView::Pick(*bound as nat),
            Effect::ReadMessage => EffectView::ReadMessage,
            Effect::Respond(text) => EffectView::Respond(text@),
            Effect::Announce(text) => EffectView::Announce(text@),
            Effect::Finish => EffectView::Finish,
            Effect::Abort => EffectView::Abort,
        }
    }
}

impl View for Input {
    type V = InputView;

    open spec fn view(&self) -> InputView {
        match self {
            Input::Attendance { checkins, tickets } => InputView::Attendance {
                checkins: checkins@,
                tickets: tickets.deep_view(),
            },
            Input::Store(reply) => InputView::Store(reply@),
            Input::Index(at) => InputView::Index(*at as nat),
            Input::Message { author, content } => InputView::Message {
                author: *author,
                content: content@,
            },
            Input::Delivered => InputView::Delivered,
        }
    }
}

/// A text that a command sent to the chat.
#[derive(Debug, PartialEq)]
pub enum Reply {
    /// The answer to the command.
    Respond(String),
    /// A message of its own in the channel.
    Announce(String),
}

/// A `Reply`, its text read as a sequence of characters.
pub enum ReplyView {
    Respond(Seq<char>),
    Announce(Seq<char>),
}

impl View for Reply {
    type V = ReplyView;

    open spec fn view(&self) -> ReplyView {
        match self {
            Reply::Respond(text) => ReplyView::Respond(text@),
            Reply::Announce(text) => ReplyView::Announce(text@),
        }
    }
}

impl DeepView for Reply {
    type V = ReplyView;

    open spec fn deep_view(&self) -> ReplyView {
        self@
    }
}

} // verus!
