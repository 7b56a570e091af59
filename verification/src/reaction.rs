//! Reaction events as the store sees them.
//!
//! The platform reports every reaction added to or removed from any message.
//! The store filters them itself: only reactions that carry the designated
//! join emoji take part in the game lifecycle.

use vstd::prelude::*;

use crate::MessageId;
use crate::UserId;

verus! {

/// The emoji attached to a reaction, as the platform reports it: either a
/// unicode glyph, or some custom emoji whose inner structure the store
/// never inspects (it can only ever fail the join filter).
#[derive(Clone, Debug)]
pub enum ReactionEmoji {
    Unicode(String),
    Custom,
}

/// A reaction-add or reaction-remove event: which message was reacted on,
/// by whom, and with which emoji. The channel is not part of the event;
/// the store finds it through its subscription index.
#[derive(Clone, Debug)]
pub struct Reaction {
    pub message_id: MessageId,
    pub user_id: UserId,
    pub emoji: ReactionEmoji,
}

/// The glyph that signals intent to join a game.
pub open spec fn join_emoji() -> Seq<char> {
    ":+1:"@
}

/// An emoji passes the join filter exactly when it is the unicode join
/// glyph; every custom emoji fails it.
pub open spec fn is_join_emoji(e: ReactionEmoji) -> bool {
    match e {
        ReactionEmoji::Unicode(s) => s@ == join_emoji(),
        ReactionEmoji::Custom => false,
    }
}

impl Reaction {
    /// Whether this event carries the join emoji.
    pub fn is_join(&self) -> (r: bool)
        ensures
            r == is_join_emoji(self.emoji),
    {
        match &self.emoji {
            ReactionEmoji::Unicode(s) => {
                let join: String = ":+1:".to_owned();
                *s == join
            },
            ReactionEmoji::Custom => false,
        }
    }
}

} // verus!
