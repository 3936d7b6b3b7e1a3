//! The records that the stream source returns for one page of live streams.

use vstd::prelude::*;

verus! {

/// `serde_json::Value`, an arbitrary JSON value. It is carried through
/// unread: nothing is claimed about what it holds.
#[verifier::external_type_specification]
#[verifier::external_body]
pub struct ExJsonValue(serde_json::Value);

/// One observed live stream. Only `user_name` takes part in any decision; the
/// other fields are handed on as the source gave them.
#[derive(Debug, Clone, PartialEq)]
pub struct Stream {
    pub id: String,
    pub user_id: String,
    pub user_login: String,
    pub user_name: String,
    pub game_id: String,
    pub game_name: String,
    pub type_field: String,
    pub title: String,
    pub viewer_count: i64,
    pub started_at: String,
    pub language: String,
    pub thumbnail_url: String,
    pub tag_ids: Vec<serde_json::Value>,
    pub tags: Vec<String>,
    pub is_mature: bool,
}

/// The cursor that the source returns beside a page. Only the first page is
/// ever read, so the cursor is kept and never followed.
#[derive(Debug, Clone, PartialEq)]
pub struct Pagination {
    pub cursor: String,
}

/// One page of live streams, as the source answers a poll.
#[derive(Debug, Clone, PartialEq)]
pub struct TwitchResponse {
    pub data: Vec<Stream>,
    pub pagination: Pagination,
}

/// The streamer identifiers of a page, in the order of the page, duplicates kept.
pub open spec fn names_of(streams: Seq<Stream>) -> Seq<Seq<char>> {
    streams.map_values(|s: Stream| s.user_name@)
}

impl Default for Stream {
    /// A record with every text empty, no viewers, no tags, not mature.
    fn default() -> (s: Stream)
        ensures
            s.id@ == Seq::<char>::empty(),
            s.user_id@ == Seq::<char>::empty(),
            s.user_login@ == Seq::<char>::empty(),
            s.user_name@ == Seq::<char>::empty(),
            s.game_id@ == Seq::<char>::empty(),
            s.game_name@ == Seq::<char>::empty(),
            s.type_field@ == Seq::<char>::empty(),
            s.title@ == Seq::<char>::empty(),
            s.viewer_count == 0,
            s.started_at@ == Seq::<char>::empty(),
            s.language@ == Seq::<char>::empty(),
            s.thumbnail_url@ == Seq::<char>::empty(),
            s.tag_ids@.len() == 0,
            s.tags@ == Seq::<String>::empty(),
            !s.is_mature,
    {
        Stream {
            id: String::new(),
            user_id: String::new(),
            user_login: String::new(),
            user_name: String::new(),
            game_id: String::new(),
            game_name: String::new(),
            type_field: String::new(),
            title: String::new(),
            viewer_count: 0,
            started_at: String::new(),
            language: String::new(),
            thumbnail_url: String::new(),
            tag_ids: Vec::new(),
            tags: Vec::new(),
            is_mature: false,
        }
    }
}

impl Default for Pagination {
    /// An empty cursor.
    fn default() -> (p: Pagination)
        ensures
            p.cursor@ == Seq::<char>::empty(),
    {
        Pagination { cursor: String::new() }
    }
}

impl Default for TwitchResponse {
    /// A page without streams.
    fn default() -> (r: TwitchResponse)
        ensures
            r.data@ == Seq::<Stream>::empty(),
            r.pagination.cursor@ == Seq::<char>::empty(),
    {
        TwitchResponse { data: Vec::new(), pagination: Pagination::default() }
    }
}

} // verus!
