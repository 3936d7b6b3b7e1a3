use std::collections::VecDeque;
use stream_watcher::known::KnownSet;
use stream_watcher::stream::{Pagination, Stream, TwitchResponse};

fn stream(name: &str) -> Stream {
    let mut s = Stream::default();
    s.user_name = name.to_string();
    s
}

fn streams(names: &[&str]) -> Vec<Stream> {
    names.iter().map(|n| stream(n)).collect()
}

fn names(list: &[&str]) -> VecDeque<String> {
    list.iter().map(|n| n.to_string()).collect()
}

#[test]
fn new_known_set_is_empty() {
    let known = KnownSet::new();
    assert_eq!(known.len(), 0);
    assert!(!known.contains(""));
    assert!(!known.contains("alice"));
}

#[test]
fn diff_against_the_empty_set_announces_everyone() {
    let known = KnownSet::new();
    let (fresh, announce) = known.diff(&streams(&["alice", "bob"]));
    assert_eq!(announce, names(&["alice", "bob"]));
    assert_eq!(fresh.len(), 2);
    assert!(fresh.contains("alice"));
    assert!(fresh.contains("bob"));
    assert_eq!(known.len(), 0);
}

#[test]
fn diff_leaves_out_the_known() {
    let (known, _) = KnownSet::new().diff(&streams(&["alice", "bob"]));
    let (fresh, announce) = known.diff(&streams(&["bob", "carol", "alice", "dave"]));
    assert_eq!(announce, names(&["carol", "dave"]));
    assert_eq!(fresh.len(), 4);
    assert!(known.contains("alice") && known.contains("bob"));
    assert!(!known.contains("carol"));
}

#[test]
fn diff_collapses_duplicates() {
    let (known, _) = KnownSet::new().diff(&streams(&["bob"]));
    let (fresh, announce) = known.diff(&streams(&["alice", "bob", "alice", "bob", "alice"]));
    assert_eq!(announce, names(&["alice"]));
    assert_eq!(fresh.len(), 2);
}

#[test]
fn diff_of_an_empty_page() {
    let (known, _) = KnownSet::new().diff(&streams(&["alice"]));
    let (fresh, announce) = known.diff(&Vec::new());
    assert!(announce.is_empty());
    assert_eq!(fresh.len(), 0);
    assert!(!fresh.contains("alice"));
}

#[test]
fn diff_of_the_same_set_is_empty() {
    let (known, _) = KnownSet::new().diff(&streams(&["alice", "bob"]));
    let (fresh, announce) = known.diff(&streams(&["bob", "alice"]));
    assert!(announce.is_empty());
    assert_eq!(fresh.len(), 2);
}

#[test]
fn empty_display_name_is_an_identifier_like_any_other() {
    let (fresh, announce) = KnownSet::new().diff(&streams(&["", "alice", ""]));
    assert_eq!(announce, names(&["", "alice"]));
    assert!(fresh.contains(""));
    assert_eq!(fresh.len(), 2);
}

#[test]
fn default_records_are_empty() {
    let s = Stream::default();
    assert_eq!(s.id, "");
    assert_eq!(s.user_id, "");
    assert_eq!(s.user_login, "");
    assert_eq!(s.user_name, "");
    assert_eq!(s.game_id, "");
    assert_eq!(s.game_name, "");
    assert_eq!(s.type_field, "");
    assert_eq!(s.title, "");
    assert_eq!(s.viewer_count, 0);
    assert_eq!(s.started_at, "");
    assert_eq!(s.language, "");
    assert_eq!(s.thumbnail_url, "");
    assert!(s.tag_ids.is_empty());
    assert!(s.tags.is_empty());
    assert!(!s.is_mature);
    assert_eq!(Pagination::default().cursor, "");
    let page = TwitchResponse::default();
    assert!(page.data.is_empty());
    assert_eq!(page.pagination, Pagination::default());
}

#[test]
fn records_compare_and_clone_by_their_fields() {
    let mut a = stream("alice");
    a.tag_ids = vec![serde_json::Value::Null, serde_json::Value::Bool(true)];
    let b = a.clone();
    assert_eq!(a, b);
    let mut c = a.clone();
    c.viewer_count = 1;
    assert_ne!(a, c);
}
