//! Local mirror of a remote media library: per-entity reconciliation state,
//! artifact state machines, and the identifier-keyed collection codec.
//!
//! The library is pure logic: every observation of the outside world (a file
//! stat, the outcome of a remote call) is handed in as a plain value, and every
//! side effect the protocol asks for (remove a file, cancel a transcode
//! session) is handed back as an action for the caller to perform.

pub mod artifact;
pub mod collection;
pub mod error;
pub mod library;
pub mod list;
pub mod playlist;
pub mod season;
pub mod server;
pub mod show;
pub mod snapshot;
pub mod state;
pub mod video;
