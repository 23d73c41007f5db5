use casino_cosmico::admission::{Emoji, Watch, APPROVAL};
use casino_cosmico::discord::commands::{
    add, add_name, clear, load, raffle, reaction_add, size, LoadParams,
};
use casino_cosmico::discord::type_map_keys::{ChannelId, Rng, UserId};
use casino_cosmico::import::select_attendees;
use casino_cosmico::markup::bold_name;
use casino_cosmico::roster::Roster;
use casino_cosmico::session::Reply;
use casino_cosmico::tito::checkin::client::checkin_lists_handler::Ticket;
use rand::rngs::StdRng;
use rand::SeedableRng;

fn respond(text: &str) -> Reply {
    Reply::Respond(text.to_string())
}

fn announce(text: &str) -> Reply {
    Reply::Announce(text.to_string())
}

fn names(list: &[&str]) -> Vec<String> {
    list.iter().map(|name| name.to_string()).collect()
}

fn roster_of(list: &[&str]) -> Roster {
    let mut roster = Roster::new();
    for name in list {
        add_name(&mut roster, name);
    }
    roster
}

fn ticket(id: u32, first: Option<&str>, last: Option<&str>, title: &str) -> Ticket {
    Ticket {
        id,
        first_name: first.map(|name| name.to_string()),
        last_name: last.map(|name| name.to_string()),
        release_title: title.to_string(),
    }
}

fn params(titles: &[&str]) -> LoadParams<'static> {
    LoadParams {
        checkin_list_slug: "doors",
        loaded_redis_key: "loaded",
        raffle_redis_key: "raffle",
        ticket_slugs: names(titles),
    }
}

fn rng(seed: u64) -> Rng {
    Rng::new(StdRng::seed_from_u64(seed))
}

fn sorted(mut list: Vec<String>) -> Vec<String> {
    list.sort();
    list
}

fn thumbs_up() -> Emoji {
    Emoji::Unicode(APPROVAL.to_string())
}

const WATCH: Watch = Watch { channel: ChannelId(7), author: UserId(42) };

#[test]
fn rand_stays_below_its_bound() {
    let mut source = rng(11);
    for bound in 1..50 {
        for _ in 0..20 {
            assert!(source.rand(bound) < bound);
        }
    }
    assert_eq!(source.rand(1), 0);
}

#[test]
fn draw_of_several_takes_each_winner_out() {
    let mut roster = roster_of(&["a", "b", "c", "d", "e"]);
    let drawn = raffle(&mut roster, &mut rng(5), 3);
    assert_eq!(drawn.winners.len(), 3);
    assert_eq!(roster.entries().len(), 2);
    let mut all = drawn.winners.clone();
    all.extend(roster.entries());
    assert_eq!(sorted(all), names(&["a", "b", "c", "d", "e"]));
    let mut expected = vec![respond("Found 3 winners")];
    for winner in &drawn.winners {
        expected.push(announce(&format!("Winner: **{winner}**")));
    }
    assert_eq!(drawn.replies, expected);
    assert_eq!(sorted(roster.seen()), names(&["a", "b", "c", "d", "e"]));
}

#[test]
fn draw_of_more_than_there_are_stops_when_empty() {
    let mut roster = roster_of(&["a", "b", "c"]);
    let drawn = raffle(&mut roster, &mut rng(8), 10);
    assert_eq!(sorted(drawn.winners.clone()), names(&["a", "b", "c"]));
    assert!(roster.entries().is_empty());
    assert_eq!(drawn.replies.len(), 4);
    assert_eq!(drawn.replies[0], respond("Found 3 winners"));
    assert_eq!(size(&mut roster).entries, 0);
}

#[test]
fn draw_of_all_leaves_nothing() {
    let mut roster = roster_of(&["a", "b"]);
    let drawn = raffle(&mut roster, &mut rng(9), 2);
    assert_eq!(sorted(drawn.winners.clone()), names(&["a", "b"]));
    assert_eq!(drawn.replies[0], respond("Found 2 winners"));
    assert!(roster.entries().is_empty());
}

#[test]
fn draw_of_one_among_many_answers_with_the_winner() {
    let mut roster = roster_of(&["a", "b", "c", "d"]);
    let drawn = raffle(&mut roster, &mut rng(3), 1);
    assert_eq!(drawn.winners.len(), 1);
    let winner = drawn.winners[0].clone();
    assert_eq!(drawn.replies, vec![respond(&format!("Winner is **{winner}**"))]);
    assert_eq!(roster.entries().len(), 3);
    assert!(!roster.entries().contains(&winner));
}

#[test]
fn draw_of_several_from_one_entry_answers_with_the_winner() {
    let mut roster = roster_of(&["only"]);
    let drawn = raffle(&mut roster, &mut rng(3), 4);
    assert_eq!(drawn.winners, names(&["only"]));
    assert_eq!(drawn.replies, vec![respond("Winner is **only**")]);
    assert!(roster.entries().is_empty());
}

#[test]
fn draw_of_none_draws_nobody() {
    let mut roster = roster_of(&["a", "b"]);
    let drawn = raffle(&mut roster, &mut rng(3), 0);
    assert!(drawn.winners.is_empty());
    assert_eq!(drawn.replies, vec![respond("No entries in the raffle.")]);
    assert_eq!(roster.entries(), names(&["a", "b"]));
}

#[test]
fn draw_takes_one_of_two_equal_names() {
    let mut roster = roster_of(&["a", "a", "a"]);
    let drawn = raffle(&mut roster, &mut rng(4), 2);
    assert_eq!(drawn.winners, names(&["a", "a"]));
    assert_eq!(roster.entries(), names(&["a"]));
}

#[test]
fn draws_depend_on_the_source_alone() {
    let mut first = roster_of(&["a", "b", "c", "d", "e", "f"]);
    let mut second = roster_of(&["a", "b", "c", "d", "e", "f"]);
    let one = raffle(&mut first, &mut rng(77), 4);
    let other = raffle(&mut second, &mut rng(77), 4);
    assert_eq!(one.winners, other.winners);
    assert_eq!(first.entries(), second.entries());
}

#[test]
fn load_keeps_who_is_eligible_and_new() {
    let tickets = vec![
        ticket(1, Some("Jane"), Some("Doe"), "GA"),
        ticket(2, Some("John"), Some("Smith"), "GA"),
        ticket(3, Some("Vi"), Some("P"), "VIP"),
        ticket(4, None, Some("Nobody"), "GA"),
        ticket(5, Some("Nobody"), None, "GA"),
        ticket(6, Some("Jane"), Some("Doe"), "GA"),
        ticket(7, Some("Ann"), Some("Lee"), "Early"),
        ticket(8, Some("Old"), Some("Timer"), "GA"),
    ];
    let checkins = vec![1, 3, 4, 5, 6, 7, 8, 99];
    let mut roster = roster_of(&["Old Timer"]);
    let loaded = load(&mut roster, checkins, tickets, params(&["GA", "Early"]));
    assert_eq!(loaded.new, 2);
    assert_eq!(loaded.total, 3);
    assert_eq!(loaded.replies, vec![respond("Loaded 2 users\n3 total users.")]);
    assert_eq!(roster.entries(), names(&["Old Timer", "Jane Doe", "Ann Lee"]));
    assert_eq!(roster.seen(), names(&["Old Timer", "Jane Doe", "Ann Lee"]));
}

#[test]
fn load_again_admits_nobody() {
    let tickets = vec![
        ticket(1, Some("Jane"), Some("Doe"), "GA"),
        ticket(2, Some("John"), Some("Smith"), "GA"),
    ];
    let mut roster = Roster::new();
    let first = load(&mut roster, vec![1, 2], tickets.clone(), params(&["GA"]));
    assert_eq!((first.new, first.total), (2, 2));
    let second = load(&mut roster, vec![1, 2], tickets, params(&["GA"]));
    assert_eq!((second.new, second.total), (0, 2));
    assert_eq!(second.replies, vec![respond("Loaded 0 users\n2 total users.")]);
    assert_eq!(roster.entries(), names(&["Jane Doe", "John Smith"]));
}

#[test]
fn overlapping_loads_admit_each_name_once() {
    let mut roster = Roster::new();
    let first = vec![
        ticket(1, Some("Jane"), Some("Doe"), "GA"),
        ticket(2, Some("John"), Some("Smith"), "GA"),
    ];
    let second = vec![
        ticket(2, Some("John"), Some("Smith"), "GA"),
        ticket(3, Some("Ann"), Some("Lee"), "GA"),
        ticket(1, Some("Jane"), Some("Doe"), "GA"),
    ];
    let before = load(&mut roster, vec![1, 2], first, params(&["GA"]));
    let admitted_first = roster.entries();
    let after = load(&mut roster, vec![1, 2, 3], second, params(&["GA"]));
    assert_eq!((before.new, after.new, after.total), (2, 1, 3));
    let admitted_second = roster.entries()[admitted_first.len()..].to_vec();
    assert_eq!(admitted_second, names(&["Ann Lee"]));
    for name in &admitted_second {
        assert!(!admitted_first.contains(name));
    }
}

#[test]
fn load_does_not_bring_back_a_drawn_winner() {
    let tickets = vec![ticket(1, Some("Jane"), Some("Doe"), "GA")];
    let mut roster = Roster::new();
    load(&mut roster, vec![1], tickets.clone(), params(&["GA"]));
    let drawn = raffle(&mut roster, &mut rng(1), 1);
    assert_eq!(drawn.winners, names(&["Jane Doe"]));
    let again = load(&mut roster, vec![1], tickets, params(&["GA"]));
    assert_eq!((again.new, again.total), (0, 0));
    assert!(roster.entries().is_empty());
}

#[test]
fn load_of_nothing_writes_nothing() {
    let mut roster = Roster::new();
    let loaded = load(&mut roster, vec![], vec![], params(&["GA"]));
    assert_eq!((loaded.new, loaded.total), (0, 0));
    assert_eq!(loaded.replies, vec![respond("Loaded 0 users\n0 total users.")]);
    assert!(roster.entries().is_empty());
    assert!(roster.seen().is_empty());
}

#[test]
fn select_attendees_names_each_new_person_once() {
    let tickets = vec![
        ticket(5, Some("B"), Some("Two"), "GA"),
        ticket(1, Some("A"), Some("One"), "GA"),
        ticket(6, Some("B"), Some("Two"), "GA"),
        ticket(7, Some("C"), Some("Three"), "GA"),
    ];
    let picked =
        select_attendees(&tickets, &vec![1, 5, 6, 7], &names(&["GA"]), &names(&["C Three"]));
    assert_eq!(picked, names(&["B Two", "A One"]));
    let nobody = select_attendees(&tickets, &vec![], &names(&["GA"]), &vec![]);
    assert!(nobody.is_empty());
    let no_title = select_attendees(&tickets, &vec![1, 5, 6, 7], &vec![], &vec![]);
    assert!(no_title.is_empty());
}

#[test]
fn params_name_the_keys_of_the_roster() {
    let keys = params(&[]).keys();
    assert_eq!(keys.seen_key, "loaded");
    assert_eq!(keys.list_key, "raffle");
}

#[test]
fn add_confirms_and_add_name_does_not() {
    let mut roster = Roster::new();
    assert_eq!(add(&mut roster, "Jane Doe"), vec![respond("Added Jane Doe")]);
    add_name(&mut roster, "Bo Chen");
    assert_eq!(roster.entries(), names(&["Jane Doe", "Bo Chen"]));
    assert_eq!(roster.seen(), names(&["Jane Doe", "Bo Chen"]));
}

#[test]
fn added_name_is_not_imported_again() {
    let mut roster = Roster::new();
    add_name(&mut roster, "Jane Doe");
    let loaded =
        load(
            &mut roster,
            vec![1],
            vec![ticket(1, Some("Jane"), Some("Doe"), "GA")],
            params(&["GA"]),
        );
    assert_eq!((loaded.new, loaded.total), (0, 1));
}

#[test]
fn size_counts_and_changes_nothing() {
    let mut roster = roster_of(&["a", "b", "c", "d", "e", "f", "g", "h", "i", "j", "k", "l"]);
    let counted = size(&mut roster);
    assert_eq!(counted.entries, 12);
    assert_eq!(counted.replies, vec![respond("12 entries in the raffle")]);
    assert_eq!(roster.entries().len(), 12);
}

#[test]
fn clear_forgets_who_was_seen() {
    let tickets = vec![ticket(1, Some("Jane"), Some("Doe"), "GA")];
    let mut roster = Roster::new();
    load(&mut roster, vec![1], tickets.clone(), params(&["GA"]));
    assert_eq!(clear(&mut roster), vec![respond("Cleared list")]);
    let again = load(&mut roster, vec![1], tickets, params(&["GA"]));
    assert_eq!((again.new, again.total), (1, 1));
}

#[test]
fn reaction_elsewhere_changes_nothing() {
    let mut roster = roster_of(&["a"]);
    let replies = reaction_add(
        &mut roster,
        &WATCH,
        ChannelId(8),
        thumbs_up(),
        UserId(42),
        "Winner: **Jane Doe**",
    );
    assert!(replies.is_empty());
    assert_eq!(roster.entries(), names(&["a"]));
}

#[test]
fn reaction_to_another_author_changes_nothing() {
    let mut roster = roster_of(&["a"]);
    let replies = reaction_add(
        &mut roster,
        &WATCH,
        ChannelId(7),
        thumbs_up(),
        UserId(43),
        "Winner: **Jane Doe**",
    );
    assert!(replies.is_empty());
    assert_eq!(roster.entries(), names(&["a"]));
}

#[test]
fn reaction_with_another_emoji_changes_nothing() {
    let mut roster = roster_of(&["a"]);
    let others = [Emoji::Unicode("👎".to_string()), Emoji::Unicode(String::new()), Emoji::Custom];
    for emoji in others {
        let content = "Winner: **Jane Doe**";
        let replies =
            reaction_add(&mut roster, &WATCH, ChannelId(7), emoji, UserId(42), content);
        assert!(replies.is_empty());
    }
    assert_eq!(roster.entries(), names(&["a"]));
}

#[test]
fn reaction_to_a_message_without_a_name_changes_nothing() {
    let mut roster = roster_of(&["a"]);
    for content in ["Found 3 winners", "", "****", "**", "*Jane Doe*", "**Jane Doe*"] {
        let replies =
            reaction_add(&mut roster, &WATCH, ChannelId(7), thumbs_up(), UserId(42), content);
        assert!(replies.is_empty(), "{content}");
    }
    assert_eq!(roster.entries(), names(&["a"]));
    assert_eq!(roster.seen(), names(&["a"]));
}

#[test]
fn reaction_re_adds_whoever_is_named() {
    let mut roster = roster_of(&["Jane Doe"]);
    let replies = reaction_add(
        &mut roster,
        &WATCH,
        ChannelId(7),
        thumbs_up(),
        UserId(42),
        "Winner is **Jane Doe**",
    );
    assert_eq!(replies, vec![announce("Re-adding **Jane Doe**")]);
    assert_eq!(roster.entries(), names(&["Jane Doe", "Jane Doe"]));
    assert_eq!(roster.seen(), names(&["Jane Doe"]));
}

#[test]
fn bold_name_is_the_first_span_in_bold() {
    assert_eq!(bold_name("Winner: **Jane Doe**"), Some("Jane Doe".to_string()));
    assert_eq!(bold_name("**a** and **b**"), Some("a".to_string()));
    assert_eq!(bold_name("***x**"), Some("x".to_string()));
    assert_eq!(bold_name("** spaced **"), Some(" spaced ".to_string()));
    assert_eq!(bold_name("Winner: Jane Doe"), None);
    assert_eq!(bold_name("**half"), None);
    assert_eq!(bold_name("****"), None);
    assert_eq!(bold_name(""), None);
}

#[test]
fn every_announcement_of_a_winner_reads_back() {
    let mut roster = roster_of(&["Jane Doe", "Bo Chen", "Ann Lee"]);
    let drawn = raffle(&mut roster, &mut rng(21), 3);
    for reply in &drawn.replies[1..] {
        match reply {
            Reply::Announce(text) => {
                let name = bold_name(text).expect("a name in bold");
                assert!(drawn.winners.contains(&name));
            }
            Reply::Respond(text) => panic!("{text}"),
        }
    }
    let mut roster = roster_of(&["Jane Doe"]);
    let drawn = raffle(&mut roster, &mut rng(21), 1);
    match &drawn.replies[0] {
        Reply::Respond(text) => assert_eq!(bold_name(text), Some("Jane Doe".to_string())),
        Reply::Announce(text) => panic!("{text}"),
    }
}
