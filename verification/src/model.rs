//! The polling cycle as a state machine over mathematical values.
//!
//! A watcher is idle until the chat connection is ready. From then on it
//! repeats one cycle: fetch a page, announce the streamers that appeared, and
//! sleep. The functions here say what each event does to the state and which
//! action the driver is to perform next.

use crate::known::appeared;
use vstd::prelude::*;

verus! {

/// The endpoint that a poll reads: the first page of live streams of the
/// watched category and language.
pub const STREAMS_URL: &'static str = "https://api.twitch.tv/helix/streams?game_id=32399&language=en";

/// What stands before the streamer's identifier in an announcement.
pub const PROFILE_PREFIX: &'static str = "https://twitch.tv/";

/// The seconds that pass between the end of one cycle and the next fetch.
pub const POLL_INTERVAL_SECS: u64 = 60;

/// The text that announces the streamer `name`: a link to the profile.
pub open spec fn profile_link(name: Seq<char>) -> Seq<char> {
    PROFILE_PREFIX@ + name
}

/// Different streamers have different announcements.
pub proof fn lemma_profile_link_tells_apart(one: Seq<char>, other: Seq<char>)
    ensures
        profile_link(one) == profile_link(other) <==> one == other,
{
    let prefix = PROFILE_PREFIX@;
    if profile_link(one) == profile_link(other) {
        assert(profile_link(one).subrange(prefix.len() as int, profile_link(one).len() as int)
            =~= one);
        assert(profile_link(other).subrange(
            prefix.len() as int,
            profile_link(other).len() as int,
        ) =~= other);
    }
}

/// Where in its cycle a watcher stands.
pub enum Stage {
    /// Not started yet.
    Idle,
    /// A fetch is in flight.
    Polling,
    /// A page was fetched. `fresh` is the set of its identifiers; `outbox`
    /// holds those that are still to be announced, the next one first.
    Diffing { fresh: Set<Seq<char>>, outbox: Seq<Seq<char>> },
    /// Waiting for the next tick.
    Sleeping,
}

/// A watcher: the channel it announces to, the streamers that the last
/// completed poll found live, and its place in the cycle.
pub struct State {
    pub channel: u64,
    pub known: Set<Seq<char>>,
    pub stage: Stage,
}

/// What the driver reports to the watcher.
pub enum EventView {
    /// The chat connection signals readiness.
    Ready,
    /// The fetch returned a page with these identifiers, in the page's order.
    Fetched(Seq<Seq<char>>),
    /// The fetch failed, or its answer was malformed.
    FetchFailed,
    /// The last announcement was attempted; the flag says whether it arrived.
    Sent(bool),
    /// The sleep is over.
    Woke,
}

/// What the watcher asks of the driver.
pub enum ActionView {
    /// Nothing: the event did not concern the watcher in its stage.
    Wait,
    /// Fetch the page at this address.
    Fetch(Seq<char>),
    /// Post this text to this channel, then report `Sent`.
    Send(u64, Seq<char>),
    /// Sleep this many seconds, then report `Woke`.
    Sleep(u64),
}

/// A watcher before the first readiness signal: idle, knowing nobody.
pub open spec fn initial(channel: u64) -> State {
    State { channel, known: Set::empty(), stage: Stage::Idle }
}

/// One step of the announcing: the next identifier of the outbox is sent, or,
/// when none is left, the fresh set replaces the known one and the watcher
/// goes to sleep.
pub open spec fn advance(s: State) -> (State, ActionView) {
    match s.stage {
        Stage::Diffing { fresh, outbox } => {
            if outbox.len() == 0 {
                (
                    State { channel: s.channel, known: fresh, stage: Stage::Sleeping },
                    ActionView::Sleep(POLL_INTERVAL_SECS),
                )
            } else {
                (
                    State {
                        channel: s.channel,
                        known: s.known,
                        stage: Stage::Diffing { fresh, outbox: outbox.drop_first() },
                    },
                    ActionView::Send(s.channel, profile_link(outbox[0])),
                )
            }
        },
        _ => (s, ActionView::Wait),
    }
}

/// The state after `event`, and the action that the driver performs next.
///
/// A readiness signal starts an idle watcher and is ignored by a running one.
/// A fetched page is diffed against the known set: the first announcement is
/// asked for at once, and a page that brings nobody new sends the watcher to
/// sleep in the same step. A failed fetch leaves the known set as it is.
/// Whether an announcement arrived makes no difference. An event that does not
/// belong to the stage changes nothing.
pub open spec fn next(s: State, event: EventView) -> (State, ActionView) {
    match (s.stage, event) {
        (Stage::Idle, EventView::Ready) | (Stage::Sleeping, EventView::Woke) => (
            State { channel: s.channel, known: s.known, stage: Stage::Polling },
            ActionView::Fetch(STREAMS_URL@),
        ),
        (Stage::Polling, EventView::Fetched(names)) => advance(
            State {
                channel: s.channel,
                known: s.known,
                stage: Stage::Diffing { fresh: names.to_set(), outbox: appeared(s.known, names) },
            },
        ),
        (Stage::Polling, EventView::FetchFailed) => (
            State { channel: s.channel, known: s.known, stage: Stage::Sleeping },
            ActionView::Sleep(POLL_INTERVAL_SECS),
        ),
        (Stage::Diffing { .. }, EventView::Sent(_)) => advance(s),
        _ => (s, ActionView::Wait),
    }
}

} // verus!
