use casino_cosmico::admission::{Emoji, Watch, APPROVAL};
use casino_cosmico::discord::commands::{
    add, add_name, clear, load, raffle, reaction_add, size, LoadParams,
};
use casino_cosmico::discord::type_map_keys::{ChannelId, Rng, UserId};
use casino_cosmico::roster::Roster;
use casino_cosmico::session::Reply;
use casino_cosmico::tito::checkin::client::checkin_lists_handler::Ticket;
use rand::rngs::StdRng;
use rand::SeedableRng;

fn ticket(id: u32, first: Option<&str>, last: Option<&str>, title: &str) -> Ticket {
    Ticket {
        id,
        first_name: first.map(|name| name.to_string()),
        last_name: last.map(|name| name.to_string()),
        release_title: title.to_string(),
    }
}

fn params(titles: &[&str]) -> LoadParams<'static> {
    LoadParams {
        checkin_list_slug: "doors",
        loaded_redis_key: "loaded",
        raffle_redis_key: "raffle",
        ticket_slugs: titles.iter().map(|title| title.to_string()).collect(),
    }
}

fn texts(replies: &[Reply]) -> Vec<String> {
    replies
        .iter()
        .map(|reply| match reply {
            Reply::Respond(text) => format!("respond: {text}"),
            Reply::Announce(text) => format!("announce: {text}"),
        })
        .collect()
}

fn seeded(seed: u64) -> Rng {
    Rng::new(StdRng::seed_from_u64(seed))
}

fn watch() -> Watch {
    Watch { channel: ChannelId(7), author: UserId(42) }
}

#[test]
fn round_trip_admits_only_who_is_checked_in() {
    let mut roster = Roster::new();
    let tickets = vec![
        ticket(1, Some("Jane"), Some("Doe"), "GA"),
        ticket(2, Some("John"), Some("Smith"), "GA"),
    ];
    let loaded = load(&mut roster, vec![1], tickets, params(&["GA"]));
    assert_eq!(loaded.new, 1);
    assert_eq!(loaded.total, 1);
    assert_eq!(texts(&loaded.replies), vec!["respond: Loaded 1 users\n1 total users."]);
    assert_eq!(roster.entries(), vec!["Jane Doe"]);

    let counted = size(&mut roster);
    assert_eq!(counted.entries, 1);
    assert_eq!(texts(&counted.replies), vec!["respond: 1 entries in the raffle"]);

    let mut rng = seeded(1);
    let drawn = raffle(&mut roster, &mut rng, 1);
    assert_eq!(drawn.winners, vec!["Jane Doe"]);
    assert_eq!(texts(&drawn.replies), vec!["respond: Winner is **Jane Doe**"]);
    assert_eq!(size(&mut roster).entries, 0);
}

#[test]
fn recovery_puts_a_drawn_winner_back() {
    let mut roster = Roster::new();
    add_name(&mut roster, "Jane Doe");
    let mut rng = seeded(2);
    let drawn = raffle(&mut roster, &mut rng, 1);
    assert_eq!(drawn.winners, vec!["Jane Doe"]);
    assert_eq!(size(&mut roster).entries, 0);

    let replies = reaction_add(
        &mut roster,
        &watch(),
        ChannelId(7),
        Emoji::Unicode(APPROVAL.to_string()),
        UserId(42),
        "Winner: **Jane Doe**",
    );
    assert_eq!(texts(&replies), vec!["announce: Re-adding **Jane Doe**"]);
    assert_eq!(size(&mut roster).entries, 1);
    assert_eq!(roster.entries(), vec!["Jane Doe"]);
}

#[test]
fn approval_is_the_thumbs_up() {
    assert_eq!(APPROVAL, "👍");
}

#[test]
fn manual_add_twice_keeps_both() {
    let mut roster = Roster::new();
    add_name(&mut roster, "Ann Lee");
    let before = size(&mut roster).entries;
    let first = add(&mut roster, "Jane Doe");
    let second = add(&mut roster, "Jane Doe");
    assert_eq!(texts(&first), vec!["respond: Added Jane Doe"]);
    assert_eq!(texts(&second), vec!["respond: Added Jane Doe"]);
    assert_eq!(size(&mut roster).entries, before + 2);
    assert_eq!(roster.entries(), vec!["Ann Lee", "Jane Doe", "Jane Doe"]);
    assert_eq!(roster.seen(), vec!["Ann Lee", "Jane Doe"]);
}

#[test]
fn clear_resets_size() {
    let mut roster = Roster::new();
    add_name(&mut roster, "Ann Lee");
    add_name(&mut roster, "Bo Chen");
    let replies = clear(&mut roster);
    assert_eq!(texts(&replies), vec!["respond: Cleared list"]);
    assert_eq!(size(&mut roster).entries, 0);
    assert!(roster.seen().is_empty());
    assert_eq!(texts(&size(&mut roster).replies), vec!["respond: 0 entries in the raffle"]);
}

#[test]
fn empty_roster_draw_has_no_winner() {
    let mut roster = Roster::new();
    let mut rng = seeded(3);
    let drawn = raffle(&mut roster, &mut rng, 1);
    assert!(drawn.winners.is_empty());
    assert_eq!(texts(&drawn.replies), vec!["respond: No entries in the raffle."]);
    let drawn = raffle(&mut roster, &mut rng, 5);
    assert!(drawn.winners.is_empty());
    assert_eq!(texts(&drawn.replies), vec!["respond: No entries in the raffle."]);
}
