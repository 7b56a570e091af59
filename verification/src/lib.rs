//! In-memory state for a lightweight party game played inside chat channels.
//!
//! A channel hosts at most one game at a time. Players join a freshly
//! started game by reacting with the join emoji on the game's announcement
//! message; a subscription index routes such reaction events to the right
//! channel. The store itself performs no I/O: the surrounding program feeds
//! it commands and platform events as plain values and renders its answers.

use vstd::prelude::*;

pub mod game_mgr;
pub mod laws;
pub mod model;
pub mod reaction;

verus! {

/// A chat channel, the unit of game isolation: at most one game runs in a
/// channel at any instant. The platform hands out the numeric value; the
/// store treats it as an opaque key.
pub type ChannelId = u64;

/// A message in a channel. Join announcements are identified by their
/// message id, again an opaque key supplied by the platform.
pub type MessageId = u64;

/// A platform user; players are recorded by their user id.
pub type UserId = u64;

} // verus!
