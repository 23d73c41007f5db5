//! Admitting one name past the import: an entry made by hand, or a
//! winner put back because somebody approved of the announcement.

use crate::discord::type_map_keys::{ChannelId, UserId};
use crate::markup::{bold_name, bold_name_in};
use crate::messages::{added, added_text, readding, readding_text};
use crate::session::{Effect, EffectView, Input, InputView};
use crate::store::{StoreReply, StoreReplyView, StoreRequest, StoreRequestView};
use vstd::prelude::*;
use vstd::string::StringExecFns;

verus! {

/// The emoji that approves of an announcement: a thumb held up.
pub const APPROVAL: &'static str = "\u{1F44D}";

/// The emoji of a reaction.
#[derive(Debug, PartialEq)]
pub enum Emoji {
    /// One that Unicode defines, as text.
    Unicode(String),
    /// One that a server made for itself.
    Custom,
}

/// An `Emoji`, its text read as a sequence of characters.
pub enum EmojiView {
    Unicode(Seq<char>),
    Custom,
}

impl View for Emoji {
    type V = EmojiView;

    open spec fn view(&self) -> EmojiView {
        match self {
            Emoji::Unicode(text) => EmojiView::Unicode(text@),
            Emoji::Custom => EmojiView::Custom,
        }
    }
}

/// Whose reactions count, and where.
pub struct Watch {
    /// The channel of the announcements.
    pub channel: ChannelId,
    /// The author of the announcements.
    pub author: UserId,
}

/// How an admission is made known.
#[derive(Clone, Copy, Debug, PartialEq)]
pub enum Notice {
    /// Not at all.
    Silent,
    /// As the answer to the command that asked for it.
    Added,
    /// As a message in the channel.
    Readding,
}

/// Where an admission stands: what it last asked for.
pub enum AdmissionPhase {
    /// The message that was reacted to with this emoji, to see whether
    /// this author wrote it.
    Reading { author: UserId, emoji: Emoji },
    /// That this name be remembered as seen.
    Marking(String),
    /// That this name be put on the list.
    Listing(String),
    /// That the admission be made known.
    Closing,
    /// Nothing more.
    Finished,
}

/// An `AdmissionPhase`, its texts read as sequences of characters.
pub enum AdmissionPhaseView {
    Reading { author: UserId, emoji: EmojiView },
    Marking(Seq<char>),
    Listing(Seq<char>),
    Closing,
    Finished,
}

impl View for AdmissionPhase {
    type V = AdmissionPhaseView;

    open spec fn view(&self) -> AdmissionPhaseView {
        match self {
            AdmissionPhase::Reading { author, emoji } => AdmissionPhaseView::Reading {
                author: *author,
                emoji: emoji@,
            },
            AdmissionPhase::Marking(name) => AdmissionPhaseView::Marking(name@),
            AdmissionPhase::Listing(name) => AdmissionPhaseView::Listing(name@),
            AdmissionPhase::Closing => AdmissionPhaseView::Closing,
            AdmissionPhase::Finished => AdmissionPhaseView::Finished,
        }
    }
}

/// An admission under way.
pub struct Admission {
    phase: AdmissionPhase,
    notice: Notice,
}

/// An `Admission` as mathematics.
pub struct AdmissionView {
    /// What the admission last asked for.
    pub phase: AdmissionPhaseView,
    /// How it will be made known.
    pub notice: Notice,
}

impl View for Admission {
    type V = AdmissionView;

    closed spec fn view(&self) -> AdmissionView {
        AdmissionView { phase: self.phase@, notice: self.notice }
    }
}

impl AdmissionView {
    /// This admission, now in `phase`.
    pub open spec fn at(self, phase: AdmissionPhaseView) -> AdmissionView {
        AdmissionView { phase, ..self }
    }

    /// The admission of `name` as it begins: it asks that the name be
    /// remembered as seen.
    pub open spec fn begin(name: Seq<char>, notice: Notice) -> (AdmissionView, EffectView) {
        (
            AdmissionView { phase: AdmissionPhaseView::Marking(name), notice },
            EffectView::Store(StoreRequestView::SeenInsert(seq![name])),
        )
    }

    /// What a reaction with `emoji` in `channel` begins: in the watched
    /// channel it asks for the message, elsewhere nothing happens.
    pub open spec fn react(watch: Watch, channel: ChannelId, emoji: EmojiView) -> (
        AdmissionView,
        EffectView,
    ) {
        if channel == watch.channel {
            (
                AdmissionView {
                    phase: AdmissionPhaseView::Reading { author: watch.author, emoji },
                    notice: Notice::Readding,
                },
                EffectView::ReadMessage,
            )
        } else {
            (
                AdmissionView { phase: AdmissionPhaseView::Finished, notice: Notice::Readding },
                EffectView::Finish,
            )
        }
    }

    /// What becomes of a reaction once the message is read, when
    /// `author` wrote it and `captured` is the name that it sets in
    /// bold: where the watched author wrote it, the emoji approves and
    /// there is such a name, that name is admitted; else nothing
    /// happens. An admission that is not waiting for a message ends.
    pub open spec fn recovered(self, author: UserId, captured: Option<Seq<char>>) -> (
        AdmissionView,
        EffectView,
    ) {
        match self.phase {
            AdmissionPhaseView::Reading { author: expected, emoji } => {
                if author == expected && emoji == EmojiView::Unicode(APPROVAL@) && captured
                    is Some {
                    (
                        self.at(AdmissionPhaseView::Marking(captured.unwrap())),
                        EffectView::Store(StoreRequestView::SeenInsert(seq![captured.unwrap()])),
                    )
                } else {
                    (self.at(AdmissionPhaseView::Finished), EffectView::Finish)
                }
            },
            _ => (self.at(AdmissionPhaseView::Finished), EffectView::Abort),
        }
    }

    /// The admission after `input`, and what it asks for next.
    ///
    /// The name is remembered as seen, then put on the list, whether or
    /// not it was there before; then the admission is made known. An
    /// input that does not answer what was asked ends the admission.
    pub open spec fn step(self, input: InputView) -> (AdmissionView, EffectView) {
        match (self.phase, input) {
            (AdmissionPhaseView::Reading { .. }, InputView::Message { author, content }) => {
                self.recovered(UserId(author), bold_name_in(content))
            },
            (AdmissionPhaseView::Marking(name), InputView::Store(StoreReplyView::Done)) => (
                self.at(AdmissionPhaseView::Listing(name)),
                EffectView::Store(StoreRequestView::ListAppend(seq![name])),
            ),
            (AdmissionPhaseView::Listing(name), InputView::Store(StoreReplyView::Done)) => {
                match self.notice {
                    Notice::Silent => (self.at(AdmissionPhaseView::Finished), EffectView::Finish),
                    Notice::Added => (
                        self.at(AdmissionPhaseView::Closing),
                        EffectView::Respond(added_text(name)),
                    ),
                    Notice::Readding => (
                        self.at(AdmissionPhaseView::Closing),
                        EffectView::Announce(readding_text(name)),
                    ),
                }
            },
            (AdmissionPhaseView::Closing, InputView::Delivered) => (
                self.at(AdmissionPhaseView::Finished),
                EffectView::Finish,
            ),
            _ => (self.at(AdmissionPhaseView::Finished), EffectView::Abort),
        }
    }
}

/// A list that holds `name` and nothing else.
fn only(name: &String) -> (names: Vec<String>)
    ensures
        names.deep_view() == seq![name@],
{
    let mut names: Vec<String> = Vec::new();
    names.push(name.clone());
    names
}

impl Admission {
    /// Begins the admission of `name`.
    pub fn begin(name: &str, notice: Notice) -> (next: (Admission, Effect))
        ensures
            (next.0@, next.1@) == AdmissionView::begin(name@, notice),
    {
        let name = String::from_str(name);
        let asked = only(&name);
        (
            Admission { phase: AdmissionPhase::Marking(name), notice },
            Effect::Store(StoreRequest::SeenInsert(asked)),
        )
    }

    /// Begins what a reaction with `emoji` in `channel` leads to.
    pub fn react(watch: &Watch, channel: ChannelId, emoji: Emoji) -> (next: (Admission, Effect))
        ensures
            (next.0@, next.1@) == AdmissionView::react(*watch, channel, emoji@),
    {
        if channel == watch.channel {
            (
                Admission {
                    phase: AdmissionPhase::Reading { author: watch.author, emoji },
                    notice: Notice::Readding,
                },
                Effect::ReadMessage,
            )
        } else {
            (
                Admission { phase: AdmissionPhase::Finished, notice: Notice::Readding },
                Effect::Finish,
            )
        }
    }

    /// Decides what becomes of a reaction once the message is read,
    /// given who wrote the message and the name that it sets in bold.
    pub fn recovered(self, author: UserId, captured: Option<String>) -> (next: (
        Admission,
        Effect,
    ))
        ensures
            (next.0@, next.1@) == self@.recovered(author, captured.deep_view()),
    {
        let Admission { phase, notice } = self;
        match phase {
            AdmissionPhase::Reading { author: expected, emoji } => {
                let approves = match emoji {
                    Emoji::Unicode(text) => {
                        let approval = String::from_str(APPROVAL);
                        text == approval
                    },
                    Emoji::Custom => false,
                };
                if author == expected && approves {
                    match captured {
                        Some(name) => {
                            let asked = only(&name);
                            return (
                                Admission { phase: AdmissionPhase::Marking(name), notice },
                                Effect::Store(StoreRequest::SeenInsert(asked)),
                            );
                        },
                        None => {},
                    }
                }
                (Admission { phase: AdmissionPhase::Finished, notice }, Effect::Finish)
            },
            _ => (Admission { phase: AdmissionPhase::Finished, notice }, Effect::Abort),
        }
    }

    /// Takes the outcome of what the admission last asked for, and says
    /// what it asks for next.
    pub fn step(self, input: Input) -> (next: (Admission, Effect))
        ensures
            (next.0@, next.1@) == self@.step(input@),
    {
        let Admission { phase, notice } = self;
        match phase {
            AdmissionPhase::Reading { author: expected, emoji } => match input {
                Input::Message { author, content } => {
                    let captured = bold_name(content.as_str());
                    let waiting = Admission {
                        phase: AdmissionPhase::Reading { author: expected, emoji },
                        notice,
                    };
                    waiting.recovered(UserId(author), captured)
                },
                _ => (Admission { phase: AdmissionPhase::Finished, notice }, Effect::Abort),
            },
            AdmissionPhase::Marking(name) => match input {
                Input::Store(StoreReply::Done) => {
                    let asked = only(&name);
                    (
                        Admission { phase: AdmissionPhase::Listing(name), notice },
                        Effect::Store(StoreRequest::ListAppend(asked)),
                    )
                },
                _ => (Admission { phase: AdmissionPhase::Finished, notice }, Effect::Abort),
            },
            AdmissionPhase::Listing(name) => match input {
                Input::Store(StoreReply::Done) => match notice {
                    Notice::Silent => (
                        Admission { phase: AdmissionPhase::Finished, notice },
                        Effect::Finish,
                    ),
                    Notice::Added => (
                        Admission { phase: AdmissionPhase::Closing, notice },
                        Effect::Respond(added(name.as_str())),
                    ),
                    Notice::Readding => (
                        Admission { phase: AdmissionPhase::Closing, notice },
                        Effect::Announce(readding(name.as_str())),
                    ),
                },
                _ => (Admission { phase: AdmissionPhase::Finished, notice }, Effect::Abort),
            },
            AdmissionPhase::Closing => match input {
                Input::Delivered => (
                    Admission { phase: AdmissionPhase::Finished, notice },
                    Effect::Finish,
                ),
                _ => (Admission { phase: AdmissionPhase::Finished, notice }, Effect::Abort),
            },
            AdmissionPhase::Finished => (
                Admission { phase: AdmissionPhase::Finished, notice },
                Effect::Abort,
            ),
        }
    }
}

} // verus!
