use stream_watcher::model::{POLL_INTERVAL_SECS, STREAMS_URL};
use stream_watcher::stream::{Pagination, Stream, TwitchResponse};
use stream_watcher::watcher::{announcement, Action, Event, FetchError, Phase, StreamWatcher};

const CHANNEL: u64 = 4242;

fn stream(name: &str) -> Stream {
    let mut s = Stream::default();
    s.user_name = name.to_string();
    s.user_login = name.to_lowercase();
    s
}

fn page(names: &[&str]) -> TwitchResponse {
    TwitchResponse {
        data: names.iter().map(|n| stream(n)).collect(),
        pagination: Pagination::default(),
    }
}

fn fetch() -> Action {
    Action::Fetch { url: STREAMS_URL.to_string() }
}

fn sleep() -> Action {
    Action::Sleep { seconds: 60 }
}

/// Starts a watcher and checks that it asks for the first fetch.
fn started() -> StreamWatcher {
    let mut watcher = StreamWatcher::new(CHANNEL);
    assert_eq!(watcher.step(Event::Ready), fetch());
    watcher
}

/// Serves a polling watcher one fetched page: reports every send as `delivered`
/// says, and returns the texts sent, in order. Leaves the watcher polling again.
fn poll(watcher: &mut StreamWatcher, names: &[&str], delivered: bool) -> Vec<String> {
    assert_eq!(watcher.phase(), Phase::Polling);
    let mut sent = Vec::new();
    let mut action = watcher.step(Event::Fetched(page(names)));
    loop {
        match action {
            Action::Send { channel_id, text } => {
                assert_eq!(channel_id, CHANNEL);
                assert_eq!(watcher.phase(), Phase::Diffing);
                sent.push(text);
                action = watcher.step(Event::Sent { delivered });
            }
            other => {
                assert_eq!(other, sleep());
                break;
            }
        }
    }
    assert_eq!(watcher.phase(), Phase::Sleeping);
    assert_eq!(watcher.step(Event::Woke), fetch());
    sent
}

/// Serves a polling watcher one failed fetch. Leaves the watcher polling again.
fn fail(watcher: &mut StreamWatcher, error: FetchError) {
    assert_eq!(watcher.phase(), Phase::Polling);
    assert_eq!(watcher.step(Event::FetchFailed(error)), sleep());
    assert_eq!(watcher.phase(), Phase::Sleeping);
    assert_eq!(watcher.step(Event::Woke), fetch());
}

fn sorted(mut texts: Vec<String>) -> Vec<String> {
    texts.sort();
    texts
}

fn links(names: &[&str]) -> Vec<String> {
    sorted(names.iter().map(|n| format!("https://twitch.tv/{}", n)).collect())
}

fn assert_known(watcher: &StreamWatcher, names: &[&str]) {
    assert_eq!(watcher.known_len(), names.len());
    for name in names {
        assert!(watcher.knows(name), "{} should be known", name);
    }
}

#[test]
fn new_watcher_is_idle_and_knows_nobody() {
    let watcher = StreamWatcher::new(CHANNEL);
    assert_eq!(watcher.phase(), Phase::Idle);
    assert_eq!(watcher.channel_id(), CHANNEL);
    assert_eq!(watcher.known_len(), 0);
    assert!(!watcher.knows("alice"));
}

#[test]
fn ready_starts_the_first_fetch() {
    let mut watcher = StreamWatcher::new(CHANNEL);
    let action = watcher.step(Event::Ready);
    assert_eq!(
        action,
        Action::Fetch {
            url: "https://api.twitch.tv/helix/streams?game_id=32399&language=en".to_string()
        }
    );
    assert_eq!(watcher.phase(), Phase::Polling);
}

#[test]
fn first_streamer_is_announced() {
    let mut watcher = started();
    let sent = poll(&mut watcher, &["alice"], true);
    assert_eq!(sent, vec!["https://twitch.tv/alice".to_string()]);
    assert_known(&watcher, &["alice"]);
}

#[test]
fn only_the_newcomer_is_announced() {
    let mut watcher = started();
    poll(&mut watcher, &["alice"], true);
    let sent = poll(&mut watcher, &["alice", "bob"], true);
    assert_eq!(sent, vec!["https://twitch.tv/bob".to_string()]);
    assert_known(&watcher, &["alice", "bob"]);
}

#[test]
fn disappearance_is_silent() {
    let mut watcher = started();
    poll(&mut watcher, &["alice", "bob"], true);
    assert_known(&watcher, &["alice", "bob"]);
    let sent = poll(&mut watcher, &["bob"], true);
    assert!(sent.is_empty());
    assert_known(&watcher, &["bob"]);
    assert!(!watcher.knows("alice"));
}

#[test]
fn failed_fetch_announces_nothing_and_keeps_known() {
    let mut watcher = started();
    poll(&mut watcher, &["bob"], true);
    let action = watcher.step(Event::FetchFailed(FetchError::Transport));
    assert_eq!(action, Action::Sleep { seconds: 60 });
    assert_eq!(watcher.phase(), Phase::Sleeping);
    assert_known(&watcher, &["bob"]);
}

#[test]
fn poll_after_failure_is_diffed_against_the_last_success() {
    let mut watcher = started();
    poll(&mut watcher, &["bob"], true);
    fail(&mut watcher, FetchError::Transport);
    let sent = poll(&mut watcher, &["bob", "carol"], true);
    assert_eq!(sent, vec!["https://twitch.tv/carol".to_string()]);
    assert_known(&watcher, &["bob", "carol"]);
}

#[test]
fn malformed_answer_counts_as_a_failed_fetch() {
    let mut watcher = started();
    poll(&mut watcher, &["bob"], true);
    fail(&mut watcher, FetchError::Malformed);
    assert_known(&watcher, &["bob"]);
    assert!(poll(&mut watcher, &["bob"], true).is_empty());
}

#[test]
fn each_poll_announces_its_set_without_the_previous_one() {
    let mut watcher = started();
    let polls: [&[&str]; 5] = [
        &["alice", "bob"],
        &["bob", "carol", "dave"],
        &["dave"],
        &[],
        &["alice", "dave", "erin"],
    ];
    let expected: [&[&str]; 5] =
        [&["alice", "bob"], &["carol", "dave"], &[], &[], &["alice", "dave", "erin"]];
    for (names, new) in polls.iter().zip(expected.iter()) {
        let sent = poll(&mut watcher, names, true);
        assert_eq!(sorted(sent), links(new));
        assert_known(&watcher, names);
    }
}

#[test]
fn same_set_again_announces_nothing() {
    let mut watcher = started();
    poll(&mut watcher, &["alice", "bob"], true);
    assert!(poll(&mut watcher, &["bob", "alice"], true).is_empty());
    assert!(poll(&mut watcher, &["alice", "bob"], true).is_empty());
    assert_known(&watcher, &["alice", "bob"]);
}

#[test]
fn failures_in_a_row_are_all_skipped() {
    let mut watcher = started();
    poll(&mut watcher, &["alice"], true);
    fail(&mut watcher, FetchError::Transport);
    fail(&mut watcher, FetchError::Malformed);
    fail(&mut watcher, FetchError::Transport);
    assert_known(&watcher, &["alice"]);
    let sent = poll(&mut watcher, &["alice", "bob"], true);
    assert_eq!(sent, vec!["https://twitch.tv/bob".to_string()]);
}

#[test]
fn failure_before_any_success_leaves_the_set_empty() {
    let mut watcher = started();
    fail(&mut watcher, FetchError::Transport);
    assert_known(&watcher, &[]);
    let sent = poll(&mut watcher, &["alice"], true);
    assert_eq!(sent, vec!["https://twitch.tv/alice".to_string()]);
}

#[test]
fn duplicate_on_a_page_is_announced_once() {
    let mut watcher = started();
    let sent = poll(&mut watcher, &["alice", "bob", "alice", "alice", "bob"], true);
    assert_eq!(sorted(sent), links(&["alice", "bob"]));
    assert_known(&watcher, &["alice", "bob"]);
}

#[test]
fn streamer_who_returns_is_announced_again() {
    let mut watcher = started();
    assert_eq!(poll(&mut watcher, &["alice"], true).len(), 1);
    assert!(poll(&mut watcher, &[], true).is_empty());
    assert_known(&watcher, &[]);
    let sent = poll(&mut watcher, &["alice"], true);
    assert_eq!(sent, vec!["https://twitch.tv/alice".to_string()]);
}

#[test]
fn streamer_who_went_live_during_a_failure_is_announced_afterwards() {
    let mut watcher = started();
    poll(&mut watcher, &["alice"], true);
    fail(&mut watcher, FetchError::Transport);
    let sent = poll(&mut watcher, &["alice", "zed"], true);
    assert_eq!(sent, vec!["https://twitch.tv/zed".to_string()]);
}

#[test]
fn failed_sends_do_not_stop_the_batch_nor_the_update() {
    let mut watcher = started();
    let sent = poll(&mut watcher, &["alice", "bob", "carol"], false);
    assert_eq!(sorted(sent), links(&["alice", "bob", "carol"]));
    assert_known(&watcher, &["alice", "bob", "carol"]);
    assert!(poll(&mut watcher, &["alice", "bob", "carol"], true).is_empty());
}

#[test]
fn known_set_is_replaced_only_after_the_last_send() {
    let mut watcher = started();
    poll(&mut watcher, &["alice"], true);
    let first = watcher.step(Event::Fetched(page(&["bob", "carol"])));
    assert_eq!(
        first,
        Action::Send { channel_id: CHANNEL, text: "https://twitch.tv/bob".to_string() }
    );
    assert_eq!(watcher.phase(), Phase::Diffing);
    assert_known(&watcher, &["alice"]);
    let second = watcher.step(Event::Sent { delivered: true });
    assert_eq!(
        second,
        Action::Send { channel_id: CHANNEL, text: "https://twitch.tv/carol".to_string() }
    );
    assert_known(&watcher, &["alice"]);
    let third = watcher.step(Event::Sent { delivered: false });
    assert_eq!(third, Action::Sleep { seconds: POLL_INTERVAL_SECS });
    assert_eq!(watcher.phase(), Phase::Sleeping);
    assert_known(&watcher, &["bob", "carol"]);
}

#[test]
fn empty_page_goes_straight_to_sleep() {
    let mut watcher = started();
    let action = watcher.step(Event::Fetched(page(&[])));
    assert_eq!(action, Action::Sleep { seconds: 60 });
    assert_eq!(watcher.phase(), Phase::Sleeping);
    assert_known(&watcher, &[]);
}

#[test]
fn repeated_ready_is_ignored_once_started() {
    let mut watcher = started();
    assert_eq!(watcher.step(Event::Ready), Action::Wait);
    assert_eq!(watcher.phase(), Phase::Polling);
    poll(&mut watcher, &["alice"], true);
    assert_eq!(watcher.step(Event::Ready), Action::Wait);
    assert_eq!(watcher.phase(), Phase::Polling);
    assert_known(&watcher, &["alice"]);
    let first = watcher.step(Event::Fetched(page(&["bob"])));
    assert_eq!(first, Action::Send { channel_id: CHANNEL, text: announcement("bob") });
    assert_eq!(watcher.step(Event::Ready), Action::Wait);
    assert_eq!(watcher.phase(), Phase::Diffing);
    assert_eq!(watcher.step(Event::Sent { delivered: true }), Action::Sleep { seconds: 60 });
    assert_eq!(watcher.step(Event::Ready), Action::Wait);
    assert_eq!(watcher.phase(), Phase::Sleeping);
}

#[test]
fn events_out_of_turn_change_nothing() {
    let mut watcher = StreamWatcher::new(CHANNEL);
    assert_eq!(watcher.step(Event::Woke), Action::Wait);
    assert_eq!(watcher.step(Event::Fetched(page(&["alice"]))), Action::Wait);
    assert_eq!(watcher.step(Event::FetchFailed(FetchError::Transport)), Action::Wait);
    assert_eq!(watcher.step(Event::Sent { delivered: true }), Action::Wait);
    assert_eq!(watcher.phase(), Phase::Idle);
    assert_known(&watcher, &[]);

    assert_eq!(watcher.step(Event::Ready), fetch());
    assert_eq!(watcher.step(Event::Woke), Action::Wait);
    assert_eq!(watcher.step(Event::Sent { delivered: true }), Action::Wait);
    assert_eq!(watcher.phase(), Phase::Polling);

    assert_eq!(watcher.step(Event::FetchFailed(FetchError::Malformed)), sleep());
    assert_eq!(watcher.step(Event::Fetched(page(&["alice"]))), Action::Wait);
    assert_eq!(watcher.step(Event::FetchFailed(FetchError::Transport)), Action::Wait);
    assert_eq!(watcher.step(Event::Sent { delivered: false }), Action::Wait);
    assert_eq!(watcher.phase(), Phase::Sleeping);
    assert_known(&watcher, &[]);

    assert_eq!(watcher.step(Event::Woke), fetch());
    let first = watcher.step(Event::Fetched(page(&["alice", "bob"])));
    assert_eq!(first, Action::Send { channel_id: CHANNEL, text: announcement("alice") });
    assert_eq!(watcher.step(Event::Woke), Action::Wait);
    assert_eq!(watcher.step(Event::Fetched(page(&["zed"]))), Action::Wait);
    assert_eq!(watcher.step(Event::FetchFailed(FetchError::Transport)), Action::Wait);
    assert_eq!(watcher.phase(), Phase::Diffing);
    let second = watcher.step(Event::Sent { delivered: true });
    assert_eq!(second, Action::Send { channel_id: CHANNEL, text: announcement("bob") });
    assert_eq!(watcher.step(Event::Sent { delivered: true }), sleep());
    assert_known(&watcher, &["alice", "bob"]);
}

#[test]
fn announcements_follow_the_order_of_the_page() {
    let mut watcher = started();
    poll(&mut watcher, &["m"], true);
    let sent = poll(&mut watcher, &["z", "m", "a", "z", "k"], true);
    assert_eq!(
        sent,
        vec![
            "https://twitch.tv/z".to_string(),
            "https://twitch.tv/a".to_string(),
            "https://twitch.tv/k".to_string(),
        ]
    );
}

#[test]
fn announcement_is_the_profile_link() {
    assert_eq!(announcement("alice"), "https://twitch.tv/alice");
    assert_eq!(announcement(""), "https://twitch.tv/");
    assert_eq!(announcement("Ünï_cødé99"), "https://twitch.tv/Ünï_cødé99");
}

#[test]
fn identifiers_are_compared_exactly() {
    let mut watcher = started();
    poll(&mut watcher, &["Alice"], true);
    let sent = poll(&mut watcher, &["alice", "Alice", "Alice "], true);
    assert_eq!(sorted(sent), links(&["Alice ", "alice"]));
}

#[test]
fn only_the_display_name_identifies_a_streamer() {
    let mut watcher = started();
    let mut first = stream("alice");
    first.id = "1".to_string();
    first.user_id = "100".to_string();
    first.title = "morning".to_string();
    first.viewer_count = 12;
    first.tag_ids = vec![serde_json::Value::String("tag".to_string())];
    first.tags = vec!["English".to_string()];
    let mut second = stream("alice");
    second.id = "2".to_string();
    second.user_id = "200".to_string();
    second.title = "evening".to_string();
    second.is_mature = true;
    let response = TwitchResponse {
        data: vec![first, second],
        pagination: Pagination { cursor: "next".to_string() },
    };
    let action = watcher.step(Event::Fetched(response));
    assert_eq!(
        action,
        Action::Send { channel_id: CHANNEL, text: "https://twitch.tv/alice".to_string() }
    );
    assert_eq!(watcher.step(Event::Sent { delivered: true }), sleep());
    assert_known(&watcher, &["alice"]);
}

#[test]
fn poll_interval_is_sixty_seconds() {
    assert_eq!(POLL_INTERVAL_SECS, 60);
    let mut watcher = started();
    assert_eq!(
        watcher.step(Event::FetchFailed(FetchError::Transport)),
        Action::Sleep { seconds: 60 }
    );
    assert_eq!(watcher.step(Event::Woke), fetch());
    assert_eq!(watcher.step(Event::Fetched(page(&[]))), Action::Sleep { seconds: 60 });
}
