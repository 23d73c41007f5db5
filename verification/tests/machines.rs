use casino_cosmico::admin::{Clear, Size};
use casino_cosmico::admission::{Admission, Emoji, Notice, Watch, APPROVAL};
use casino_cosmico::discord::commands::LoadParams;
use casino_cosmico::discord::type_map_keys::{ChannelId, UserId};
use casino_cosmico::draw::Draw;
use casino_cosmico::import::Import;
use casino_cosmico::session::{Effect, Input};
use casino_cosmico::store::{StoreReply, StoreRequest};
use casino_cosmico::tito::checkin::client::checkin_lists_handler::Ticket;

fn names(list: &[&str]) -> Vec<String> {
    list.iter().map(|name| name.to_string()).collect()
}

fn done() -> Input {
    Input::Store(StoreReply::Done)
}

fn length(n: usize) -> Input {
    Input::Store(StoreReply::Length(n))
}

fn entry(name: &str) -> Input {
    Input::Store(StoreReply::Entry(Some(name.to_string())))
}

fn ask(request: StoreRequest) -> Effect {
    Effect::Store(request)
}

fn params() -> LoadParams<'static> {
    LoadParams {
        checkin_list_slug: "doors",
        loaded_redis_key: "loaded",
        raffle_redis_key: "raffle",
        ticket_slugs: names(&["GA"]),
    }
}

fn jane() -> Ticket {
    Ticket {
        id: 1,
        first_name: Some("Jane".to_string()),
        last_name: Some("Doe".to_string()),
        release_title: "GA".to_string(),
    }
}

#[test]
fn draw_of_one_asks_in_order() {
    let (draw, effect) = Draw::begin(1);
    assert_eq!(effect, ask(StoreRequest::ListLength));
    let (draw, effect) = draw.step(length(3));
    assert_eq!(effect, ask(StoreRequest::ListLength));
    let (draw, effect) = draw.step(length(3));
    assert_eq!(effect, Effect::Pick(3));
    let (draw, effect) = draw.step(Input::Index(2));
    assert_eq!(effect, ask(StoreRequest::ListIndex(2)));
    let (draw, effect) = draw.step(entry("c"));
    assert_eq!(effect, ask(StoreRequest::ListRemove("c".to_string())));
    assert!(draw.winners().is_empty());
    let (draw, effect) = draw.step(done());
    assert_eq!(effect, Effect::Respond("Winner is **c**".to_string()));
    assert_eq!(draw.winners(), &names(&["c"]));
    let (draw, effect) = draw.step(Input::Delivered);
    assert_eq!(effect, Effect::Finish);
    assert_eq!(draw.into_winners(), names(&["c"]));
}

#[test]
fn draw_of_several_tells_the_number_first() {
    let (draw, _) = Draw::begin(2);
    let (draw, effect) = draw.step(length(5));
    assert_eq!(effect, Effect::Respond("Found 2 winners".to_string()));
    let (draw, effect) = draw.step(Input::Delivered);
    assert_eq!(effect, ask(StoreRequest::ListLength));
    let (draw, effect) = draw.step(length(5));
    assert_eq!(effect, Effect::Pick(5));
    let (draw, _) = draw.step(Input::Index(0));
    let (draw, _) = draw.step(entry("a"));
    let (draw, effect) = draw.step(done());
    assert_eq!(effect, Effect::Announce("Winner: **a**".to_string()));
    let (draw, effect) = draw.step(Input::Delivered);
    assert_eq!(effect, ask(StoreRequest::ListLength));
    let (draw, effect) = draw.step(length(4));
    assert_eq!(effect, Effect::Pick(4));
    let (draw, _) = draw.step(Input::Index(3));
    let (draw, _) = draw.step(entry("e"));
    let (draw, effect) = draw.step(done());
    assert_eq!(effect, Effect::Announce("Winner: **e**".to_string()));
    let (draw, effect) = draw.step(Input::Delivered);
    assert_eq!(effect, Effect::Finish);
    assert_eq!(draw.into_winners(), names(&["a", "e"]));
}

#[test]
fn draw_of_several_stops_when_the_list_runs_out() {
    let (draw, _) = Draw::begin(3);
    let (draw, effect) = draw.step(length(2));
    assert_eq!(effect, Effect::Respond("Found 2 winners".to_string()));
    let (draw, _) = draw.step(Input::Delivered);
    let (draw, effect) = draw.step(length(0));
    assert_eq!(effect, Effect::Finish);
    assert!(draw.into_winners().is_empty());
}

#[test]
fn draw_counts_in_tens() {
    let (draw, _) = Draw::begin(1000);
    let (_, effect) = draw.step(length(120));
    assert_eq!(effect, Effect::Respond("Found 120 winners".to_string()));
    let (draw, _) = Draw::begin(10);
    let (_, effect) = draw.step(length(120));
    assert_eq!(effect, Effect::Respond("Found 10 winners".to_string()));
}

#[test]
fn draw_from_an_empty_list_says_so() {
    let (draw, _) = Draw::begin(1);
    let (draw, effect) = draw.step(length(0));
    assert_eq!(effect, ask(StoreRequest::ListLength));
    let (draw, effect) = draw.step(length(0));
    assert_eq!(effect, Effect::Respond("No entries in the raffle.".to_string()));
    let (_, effect) = draw.step(Input::Delivered);
    assert_eq!(effect, Effect::Finish);
}

#[test]
fn draw_gives_up_on_what_it_did_not_ask_for() {
    let (draw, _) = Draw::begin(1);
    let (_, effect) = draw.step(Input::Delivered);
    assert_eq!(effect, Effect::Abort);

    let (draw, _) = Draw::begin(1);
    let (draw, _) = draw.step(length(3));
    let (draw, _) = draw.step(length(3));
    let (draw, effect) = draw.step(Input::Index(3));
    assert_eq!(effect, Effect::Abort);
    let (_, effect) = draw.step(Input::Delivered);
    assert_eq!(effect, Effect::Abort);

    let (draw, _) = Draw::begin(1);
    let (draw, _) = draw.step(length(3));
    let (draw, _) = draw.step(length(3));
    let (draw, _) = draw.step(Input::Index(1));
    let (_, effect) = draw.step(Input::Store(StoreReply::Entry(None)));
    assert_eq!(effect, Effect::Abort);

    let (draw, _) = Draw::begin(1);
    let (draw, _) = draw.step(length(3));
    let (draw, _) = draw.step(length(3));
    let (draw, _) = draw.step(Input::Index(1));
    let (draw, _) = draw.step(entry("b"));
    let (draw, effect) = draw.step(Input::Store(StoreReply::Rejected));
    assert_eq!(effect, Effect::Abort);
    assert!(draw.into_winners().is_empty());
}

#[test]
fn import_lists_before_it_marks() {
    let (import, effect) = Import::begin(params());
    assert_eq!(effect, Effect::Fetch("doors".to_string()));
    let (import, effect) =
        import.step(Input::Attendance { checkins: vec![1], tickets: vec![jane()] });
    assert_eq!(effect, ask(StoreRequest::SeenMembers));
    let (import, effect) = import.step(Input::Store(StoreReply::Members(names(&["Old Timer"]))));
    assert_eq!(effect, ask(StoreRequest::ListAppend(names(&["Jane Doe"]))));
    assert_eq!(import.new_entries(), 1);
    let (import, effect) = import.step(done());
    assert_eq!(effect, ask(StoreRequest::SeenInsert(names(&["Jane Doe"]))));
    let (import, effect) = import.step(done());
    assert_eq!(effect, ask(StoreRequest::ListRange));
    let (import, effect) =
        import.step(Input::Store(StoreReply::Range(names(&["Old Timer", "Jane Doe"]))));
    assert_eq!(effect, Effect::Respond("Loaded 1 users\n2 total users.".to_string()));
    assert_eq!((import.new_entries(), import.total_entries()), (1, 2));
    let (_, effect) = import.step(Input::Delivered);
    assert_eq!(effect, Effect::Finish);
}

#[test]
fn import_of_nobody_new_writes_nothing() {
    let (import, _) = Import::begin(params());
    let (import, _) = import.step(Input::Attendance { checkins: vec![1], tickets: vec![jane()] });
    let (import, effect) = import.step(Input::Store(StoreReply::Members(names(&["Jane Doe"]))));
    assert_eq!(effect, ask(StoreRequest::ListRange));
    let (import, effect) = import.step(Input::Store(StoreReply::Range(names(&["a", "b", "c"]))));
    assert_eq!(effect, Effect::Respond("Loaded 0 users\n3 total users.".to_string()));
    assert_eq!((import.new_entries(), import.total_entries()), (0, 3));
}

#[test]
fn import_gives_up_on_what_it_did_not_ask_for() {
    let (import, _) = Import::begin(params());
    let (_, effect) = import.step(done());
    assert_eq!(effect, Effect::Abort);

    let (import, _) = Import::begin(params());
    let (import, _) = import.step(Input::Attendance { checkins: vec![1], tickets: vec![jane()] });
    let (import, _) = import.step(Input::Store(StoreReply::Members(vec![])));
    let (import, effect) = import.step(Input::Store(StoreReply::Rejected));
    assert_eq!(effect, Effect::Abort);
    let (_, effect) = import.step(done());
    assert_eq!(effect, Effect::Abort);
}

#[test]
fn admission_marks_before_it_lists() {
    let (admission, effect) = Admission::begin("Jane Doe", Notice::Added);
    assert_eq!(effect, ask(StoreRequest::SeenInsert(names(&["Jane Doe"]))));
    let (admission, effect) = admission.step(done());
    assert_eq!(effect, ask(StoreRequest::ListAppend(names(&["Jane Doe"]))));
    let (admission, effect) = admission.step(done());
    assert_eq!(effect, Effect::Respond("Added Jane Doe".to_string()));
    let (admission, effect) = admission.step(Input::Delivered);
    assert_eq!(effect, Effect::Finish);
    let (_, effect) = admission.step(Input::Delivered);
    assert_eq!(effect, Effect::Abort);
}

#[test]
fn silent_admission_says_nothing() {
    let (admission, _) = Admission::begin("Jane Doe", Notice::Silent);
    let (admission, _) = admission.step(done());
    let (_, effect) = admission.step(done());
    assert_eq!(effect, Effect::Finish);
}

#[test]
fn reaction_reads_the_message_only_in_its_channel() {
    let watch = Watch { channel: ChannelId(7), author: UserId(42) };
    let (_, effect) = Admission::react(&watch, ChannelId(1), Emoji::Unicode(APPROVAL.to_string()));
    assert_eq!(effect, Effect::Finish);
    let (admission, effect) =
        Admission::react(&watch, ChannelId(7), Emoji::Unicode(APPROVAL.to_string()));
    assert_eq!(effect, Effect::ReadMessage);
    let (admission, effect) = admission
        .step(Input::Message { author: 42, content: "Winner: **Jane Doe**".to_string() });
    assert_eq!(effect, ask(StoreRequest::SeenInsert(names(&["Jane Doe"]))));
    let (admission, effect) = admission.step(done());
    assert_eq!(effect, ask(StoreRequest::ListAppend(names(&["Jane Doe"]))));
    let (admission, effect) = admission.step(done());
    assert_eq!(effect, Effect::Announce("Re-adding **Jane Doe**".to_string()));
    let (_, effect) = admission.step(Input::Delivered);
    assert_eq!(effect, Effect::Finish);
}

#[test]
fn reaction_decides_on_author_emoji_and_name() {
    let watch = Watch { channel: ChannelId(7), author: UserId(42) };
    let approved =
        || Admission::react(&watch, ChannelId(7), Emoji::Unicode(APPROVAL.to_string())).0;
    let jane = || Some("Jane Doe".to_string());
    let (_, effect) = approved().recovered(UserId(42), jane());
    assert_eq!(effect, ask(StoreRequest::SeenInsert(names(&["Jane Doe"]))));
    let (_, effect) = approved().recovered(UserId(41), jane());
    assert_eq!(effect, Effect::Finish);
    let (_, effect) = approved().recovered(UserId(42), None);
    assert_eq!(effect, Effect::Finish);
    let custom = Admission::react(&watch, ChannelId(7), Emoji::Custom).0;
    let (_, effect) = custom.recovered(UserId(42), jane());
    assert_eq!(effect, Effect::Finish);
    let elsewhere = Admission::react(&watch, ChannelId(8), Emoji::Custom).0;
    let (_, effect) = elsewhere.recovered(UserId(42), jane());
    assert_eq!(effect, Effect::Abort);
    let by_hand = Admission::begin("Jane Doe", Notice::Added).0;
    let (_, effect) = by_hand.recovered(UserId(42), jane());
    assert_eq!(effect, Effect::Abort);
}

#[test]
fn clear_forgets_the_seen_before_the_list() {
    let (clear, effect) = Clear::begin();
    assert_eq!(effect, ask(StoreRequest::DeleteSeen));
    let (clear, effect) = clear.step(done());
    assert_eq!(effect, ask(StoreRequest::DeleteList));
    let (clear, effect) = clear.step(done());
    assert_eq!(effect, Effect::Respond("Cleared list".to_string()));
    let (clear, effect) = clear.step(Input::Delivered);
    assert_eq!(effect, Effect::Finish);
    assert_eq!(clear, Clear::Finished);
    let (_, effect) = Clear::begin().0.step(Input::Delivered);
    assert_eq!(effect, Effect::Abort);
}

#[test]
fn size_answers_with_the_length() {
    let (size, effect) = Size::begin();
    assert_eq!(effect, ask(StoreRequest::ListLength));
    let (size, effect) = size.step(length(40));
    assert_eq!(effect, Effect::Respond("40 entries in the raffle".to_string()));
    let (size, effect) = size.step(Input::Delivered);
    assert_eq!(effect, Effect::Finish);
    assert_eq!(size, Size::Finished(40));
    let (size, effect) = Size::begin().0.step(done());
    assert_eq!(effect, Effect::Abort);
    assert_eq!(size, Size::Finished(0));
}
