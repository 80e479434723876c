//! Profile feeds: named groups of content sources whose merged items are
//! cached for a configurable time and refreshed on demand.
//!
//! The crate holds the decisions of the service and no I/O. A caller reads
//! its monotonic clock, performs the network fetches that a refresh asks
//! for, and hands the outcomes back; everything in between is verified.

pub mod collect;
pub mod common;
pub mod item;
pub mod laws;
pub mod profile;
pub mod refresh;
pub mod registry;
pub mod service;
pub mod sources;
pub mod trusted;
pub mod watcher;
