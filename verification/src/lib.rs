//! Coordination core of an event-driven home-automation hub.
//!
//! The hub funnels bus events, timer firings, console lines and remote
//! evaluation requests into one script environment. This crate holds the
//! decisions of that hub as verified functions on plain values: the remote
//! session protocol ([`nrepl`]), the actor's readiness gating and response
//! rules ([`actor`]), the hook tables ([`hooks`]), the daily timer
//! ([`timer`]), the requests to the message bus ([`bus`]), the console
//! ([`console`]), the configuration ([`config`]) and a few utilities offered
//! to scripts ([`utils`]). Two small modules serve the others: [`text`] for
//! splitting, joining and numbers, and [`channel`] for the channels between
//! the threads.

pub mod actor;
pub mod bus;
pub mod channel;
pub mod config;
pub mod console;
pub mod hooks;
pub mod nrepl;
pub mod text;
pub mod timer;
pub mod utils;
