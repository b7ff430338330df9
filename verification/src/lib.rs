//! Session core for casting a local music queue to a remote media receiver
//! and republishing its playback state over a desktop media-control bus.
//!
//! The crate holds the verified logic of the session: the snapshot store with
//! its partial-update merge rule, the playback projections, the diff-based
//! property notifications, the receive-loop decisions, the command-line
//! grammar and the playlist assembly rules. The unverifiable edges — network
//! and file I/O, the bus host, the HTTP server — live outside, handing this
//! crate plain values and taking plain values back.

pub mod audio;
pub mod cli;
pub mod mpris;
pub mod player;
pub mod scan;
pub mod status;
pub mod store;
pub mod text;
