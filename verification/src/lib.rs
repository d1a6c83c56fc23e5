//! The rules of a peer-to-peer voice chat: what a typed command means, which
//! packets are listened to, when the peer counts as dead, how audio frames are
//! laid out in bytes and how much traffic went over the wire.
//!
//! Nothing here touches a socket or a sound device: every function takes plain
//! values and says in its contract what comes back.

pub mod audio;
pub mod command;
pub mod config;
pub mod invitation;
pub mod message;
pub mod peer;
pub mod session;
pub mod start;
pub mod text;
pub mod traffic_meter;
