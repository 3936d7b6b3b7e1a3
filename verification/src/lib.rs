//! A notification bridge between a live-streaming platform and a chat channel.
//!
//! The crate holds the decisions of the bridge: which streamers of a freshly
//! fetched page are new, what is announced for each, and how the polling cycle
//! moves between fetching, announcing and sleeping. Network calls, timers and
//! the chat connection belong to the program that drives it.

pub mod config;
pub mod guard;
pub mod history;
pub mod known;
pub mod model;
pub mod stream;
pub mod watcher;
