//! The watcher that a driver runs: it takes one event at a time and answers
//! with the action to perform next.

use crate::known::{views_of, KnownSet};
use crate::model::{
    advance, initial, next, ActionView, EventView, Stage, State, POLL_INTERVAL_SECS, PROFILE_PREFIX,
    STREAMS_URL, profile_link,
};
use crate::stream::{names_of, TwitchResponse};
use std::collections::VecDeque;
use vstd::prelude::*;
use vstd::string::StringExecFns;

verus! {

/// Why a fetch brought no page.
#[derive(Debug, Clone, Copy, PartialEq, Eq)]
pub enum FetchError {
    /// The request did not complete: no connection, or a timeout.
    Transport,
    /// An answer came, but not in the expected shape.
    Malformed,
}

/// The stage of a watcher, without what it holds.
#[derive(Debug, Clone, Copy, PartialEq, Eq)]
pub enum Phase {
    Idle,
    Polling,
    Diffing,
    Sleeping,
}

/// The phase that a stage of the model shows.
pub open spec fn phase_of(stage: Stage) -> Phase {
    match stage {
        Stage::Idle => Phase::Idle,
        Stage::Polling => Phase::Polling,
        Stage::Diffing { .. } => Phase::Diffing,
        Stage::Sleeping => Phase::Sleeping,
    }
}

/// What the driver reports to the watcher.
#[derive(Debug, Clone, PartialEq)]
pub enum Event {
    /// The chat connection signals readiness.
    Ready,
    /// The fetch returned this page.
    Fetched(TwitchResponse),
    /// The fetch failed.
    FetchFailed(FetchError),
    /// The last announcement was attempted.
    Sent { delivered: bool },
    /// The sleep is over.
    Woke,
}

impl View for Event {
    type V = EventView;

    open spec fn view(&self) -> EventView {
        match *self {
            Event::Ready => EventView::Ready,
            Event::Fetched(page) => EventView::Fetched(names_of(page.data@)),
            Event::FetchFailed(_) => EventView::FetchFailed,
            Event::Sent { delivered } => EventView::Sent(delivered),
            Event::Woke => EventView::Woke,
        }
    }
}

/// What the watcher asks of the driver.
#[derive(Debug, Clone, PartialEq, Eq)]
pub enum Action {
    /// Nothing to do.
    Wait,
    /// Fetch the page at `url` and report `Fetched` or `FetchFailed`.
    Fetch { url: String },
    /// Post `text` to the channel and report `Sent`.
    Send { channel_id: u64, text: String },
    /// Sleep and report `Woke`.
    Sleep { seconds: u64 },
}

impl View for Action {
    type V = ActionView;

    open spec fn view(&self) -> ActionView {
        match *self {
            Action::Wait => ActionView::Wait,
            Action::Fetch { url } => ActionView::Fetch(url@),
            Action::Send { channel_id, text } => ActionView::Send(channel_id, text@),
            Action::Sleep { seconds } => ActionView::Sleep(seconds),
        }
    }
}

/// The announcement for the streamer `name`.
pub fn announcement(name: &str) -> (text: String)
    ensures
        text@ == profile_link(name@),
{
    let mut text = PROFILE_PREFIX.to_owned();
    text.append(name);
    text
}

/// `StreamWatcher` owns the known set and decides, event by event, what the
/// polling cycle does next.
pub struct StreamWatcher {
    channel_id: u64,
    phase: Phase,
    known: KnownSet,
    fresh: KnownSet,
    outbox: VecDeque<String>,
}

impl View for StreamWatcher {
    type V = State;

    closed spec fn view(&self) -> State {
        State {
            channel: self.channel_id,
            known: self.known@,
            stage: match self.phase {
                Phase::Idle => Stage::Idle,
                Phase::Polling => Stage::Polling,
                Phase::Diffing => Stage::Diffing {
                    fresh: self.fresh@,
                    outbox: views_of(self.outbox@),
                },
                Phase::Sleeping => Stage::Sleeping,
            },
        }
    }
}

impl StreamWatcher {
    /// An idle watcher that will announce to the channel `channel_id`.
    pub fn new(channel_id: u64) -> (watcher: StreamWatcher)
        ensures
            watcher@ == initial(channel_id),
    {
        StreamWatcher {
            channel_id,
            phase: Phase::Idle,
            known: KnownSet::new(),
            fresh: KnownSet::new(),
            outbox: VecDeque::new(),
        }
    }

    /// Where in its cycle the watcher stands.
    pub fn phase(&self) -> (phase: Phase)
        ensures
            phase == phase_of(self@.stage),
    {
        self.phase
    }

    /// The channel that the watcher announces to.
    pub fn channel_id(&self) -> (channel_id: u64)
        ensures
            channel_id == self@.channel,
    {
        self.channel_id
    }

    /// Whether the last completed poll found `name` live.
    pub fn knows(&self, name: &str) -> (found: bool)
        ensures
            found == self@.known.contains(name@),
    {
        self.known.contains(name)
    }

    /// The number of streamers that the last completed poll found live.
    pub fn known_len(&self) -> (count: usize)
        ensures
            self@.known.finite(),
            count == self@.known.len(),
    {
        self.known.len()
    }

    /// Takes `event` and answers with the action that the driver performs next.
    ///
    /// The driver performs the action and reports its outcome as the next
    /// event: a page or a failure after `Fetch`, `Sent` after each `Send`,
    /// `Woke` after `Sleep`. The known set is replaced when the last
    /// announcement of a page has been reported, whether or not any of them
    /// arrived, and is left alone when a fetch fails.
    pub fn step(&mut self, event: Event) -> (action: Action)
        ensures
            (final(self)@, action@) == next(old(self)@, event@),
    {
        match event {
            Event::Ready => match self.phase {
                Phase::Idle => self.poll(),
                _ => Action::Wait,
            },
            Event::Woke => match self.phase {
                Phase::Sleeping => self.poll(),
                _ => Action::Wait,
            },
            Event::Fetched(page) => match self.phase {
                Phase::Polling => {
                    let (fresh, outbox) = self.known.diff(&page.data);
                    self.fresh = fresh;
                    self.outbox = outbox;
                    self.phase = Phase::Diffing;
                    self.announce_next()
                },
                _ => Action::Wait,
            },
            Event::FetchFailed(_) => match self.phase {
                Phase::Polling => {
                    self.phase = Phase::Sleeping;
                    Action::Sleep { seconds: POLL_INTERVAL_SECS }
                },
                _ => Action::Wait,
            },
            Event::Sent { delivered: _ } => match self.phase {
                Phase::Diffing => self.announce_next(),
                _ => Action::Wait,
            },
        }
    }

    /// Starts a cycle: the watcher asks for the page.
    fn poll(&mut self) -> (action: Action)
        ensures
            final(self)@ == (State {
                channel: old(self)@.channel,
                known: old(self)@.known,
                stage: Stage::Polling,
            }),
            action@ == ActionView::Fetch(STREAMS_URL@),
    {
        self.phase = Phase::Polling;
        Action::Fetch { url: STREAMS_URL.to_owned() }
    }

    /// Asks for the next announcement, or ends the cycle when none is left.
    fn announce_next(&mut self) -> (action: Action)
        requires
            old(self)@.stage is Diffing,
        ensures
            (final(self)@, action@) == advance(old(self)@),
    {
        match self.outbox.pop_front() {
            Some(name) => {
                proof {
                    assert(views_of(self.outbox@) =~= views_of(old(self).outbox@).drop_first());
                }
                Action::Send { channel_id: self.channel_id, text: announcement(name.as_str()) }
            },
            None => {
                core::mem::swap(&mut self.known, &mut self.fresh);
                self.fresh = KnownSet::new();
                self.phase = Phase::Sleeping;
                Action::Sleep { seconds: POLL_INTERVAL_SECS }
            },
        }
    }
}

} // verus!
