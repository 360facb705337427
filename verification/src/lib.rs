//! Library core of a rich-presence helper for games running under a
//! compatibility layer.
//!
//! The library holds the logic that is worth specifying: the process
//! scanner that recognises a running game from a process snapshot, the
//! store-page resolver with its on-disk cache and age-gate workflow, the
//! presence payload construction, and the synchronization loop's state
//! machine.  All file, network and backend I/O is performed by the
//! surrounding application, which drives the state machines defined here
//! and hands them plain values.

pub mod config;
pub mod constants;
pub mod discord;
pub mod steam;
pub mod sync;
pub mod text;
