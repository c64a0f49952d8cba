//! Update scheduling and content synchronisation for status-bar widgets.
//!
//! A widget shows a text and a tooltip. Both can be refreshed by running a
//! command on a timer, and the text can instead follow the latest line of a
//! long-running command. This crate holds the decisions: whether a loop is
//! scheduled at all, what a firing does to the displayed state, and how the
//! line reader moves between spawning, reading and pacing. Running commands,
//! timers and drawing are left to the host.

pub mod buffer;
pub mod config;
pub mod display;
pub mod error;
pub mod ingest;
pub mod scheduler;
pub mod widgets;
