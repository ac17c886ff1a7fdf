//! Segment-acquisition and time-matching engine for a SponsorBlock mpv plugin.
//!
//! The library classifies crowd-sourced video segments into a store, answers
//! time queries against that store, and drives the mute/skip arbitration
//! state machine.  The embedding player loop performs the host calls and the
//! network fetch; every decision it acts on is made here.

pub mod client;
pub mod config;
pub mod mpv;
pub mod segment;
pub mod store;
pub mod utils;
