//! The texts that the raffle sends to the chat.
//!
//! The announcement of a winner is written here and nowhere else, so
//! that what is announced and what is later read back from an
//! announcement cannot drift apart.

use crate::text::{decimal, push_decimal};
use vstd::prelude::*;
use vstd::string::StringExecFns;

verus! {

/// The text that announces the only winner of a draw.
pub open spec fn winner_is_text(name: Seq<char>) -> Seq<char> {
    "Winner is **"@ + name + "**"@
}

/// The text that announces one winner among several.
pub open spec fn winner_line_text(name: Seq<char>) -> Seq<char> {
    "Winner: **"@ + name + "**"@
}

/// The text that says how many winners a draw will have.
pub open spec fn found_winners_text(winners: nat) -> Seq<char> {
    "Found "@ + decimal(winners) + " winners"@
}

/// The text that says that there is nobody to draw.
pub open spec fn no_entries_text() -> Seq<char> {
    "No entries in the raffle."@
}

/// The text that reports an import.
pub open spec fn loaded_text(new: nat, total: nat) -> Seq<char> {
    "Loaded "@ + decimal(new) + " users\n"@ + decimal(total) + " total users."@
}

/// The text that confirms an entry made by hand.
pub open spec fn added_text(name: Seq<char>) -> Seq<char> {
    "Added "@ + name
}

/// The text that confirms that the roster was cleared.
pub open spec fn cleared_text() -> Seq<char> {
    "Cleared list"@
}

/// The text that reports the number of entries.
pub open spec fn size_text(entries: nat) -> Seq<char> {
    decimal(entries) + " entries in the raffle"@
}

/// The text that confirms that a winner was put back.
pub open spec fn readding_text(name: Seq<char>) -> Seq<char> {
    "Re-adding **"@ + name + "**"@
}

/// Announces the only winner of a draw.
pub fn winner_is(name: &str) -> (text: String)
    ensures
        text@ == winner_is_text(name@),
{
    let mut text = String::from_str("Winner is **");
    text.append(name);
    text.append("**");
    text
}

/// Announces one winner among several.
pub fn winner_line(name: &str) -> (text: String)
    ensures
        text@ == winner_line_text(name@),
{
    let mut text = String::from_str("Winner: **");
    text.append(name);
    text.append("**");
    text
}

/// Says how many winners a draw will have.
pub fn found_winners(winners: usize) -> (text: String)
    ensures
        text@ == found_winners_text(winners as nat),
{
    let mut text = String::from_str("Found ");
    push_decimal(&mut text, winners as u64);
    text.append(" winners");
    text
}

/// Says that there is nobody to draw.
pub fn no_entries() -> (text: String)
    ensures
        text@ == no_entries_text(),
{
    String::from_str("No entries in the raffle.")
}

/// Reports an import: how many are new, and how many there are in all.
pub fn loaded(new: usize, total: usize) -> (text: String)
    ensures
        text@ == loaded_text(new as nat, total as nat),
{
    let mut text = String::from_str("Loaded ");
    push_decimal(&mut text, new as u64);
    text.append(" users\n");
    push_decimal(&mut text, total as u64);
    text.append(" total users.");
    text
}

/// Confirms an entry made by hand.
pub fn added(name: &str) -> (text: String)
    ensures
        text@ == added_text(name@),
{
    let mut text = String::from_str("Added ");
    text.append(name);
    text
}

/// Confirms that the roster was cleared.
pub fn cleared() -> (text: String)
    ensures
        text@ == cleared_text(),
{
    String::from_str("Cleared list")
}

/// Reports the number of entries.
pub fn size(entries: usize) -> (text: String)
    ensures
        text@ == size_text(entries as nat),
{
    let mut text = String::new();
    push_decimal(&mut text, entries as u64);
    text.append(" entries in the raffle");
    text
}

/// Confirms that a winner was put back.
pub fn readding(name: &str) -> (text: String)
    ensures
        text@ == readding_text(name@),
{
    let mut text = String::from_str("Re-adding **");
    text.append(name);
    text.append("**");
    text
}

} // verus!
