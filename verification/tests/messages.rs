use casino_cosmico::messages::{
    added, cleared, found_winners, loaded, no_entries, readding, size, winner_is, winner_line,
};

#[test]
fn every_text_is_worded_as_the_chat_shows_it() {
    assert_eq!(winner_is("Jane Doe"), "Winner is **Jane Doe**");
    assert_eq!(winner_line("Jane Doe"), "Winner: **Jane Doe**");
    assert_eq!(found_winners(12), "Found 12 winners");
    assert_eq!(no_entries(), "No entries in the raffle.");
    assert_eq!(loaded(3, 41), "Loaded 3 users\n41 total users.");
    assert_eq!(added("Jane Doe"), "Added Jane Doe");
    assert_eq!(cleared(), "Cleared list");
    assert_eq!(size(0), "0 entries in the raffle");
    assert_eq!(size(250), "250 entries in the raffle");
    assert_eq!(readding("Jane Doe"), "Re-adding **Jane Doe**");
}

#[test]
fn texts_take_names_as_they_are() {
    assert_eq!(winner_is(""), "Winner is ****");
    assert_eq!(added(" x "), "Added  x ");
    assert_eq!(winner_line("Zoë O'Hara"), "Winner: **Zoë O'Hara**");
}
