//! The mathematical model of the store.
//!
//! Every operation of [`crate::game_mgr::GameStatesManager`] is specified as
//! a function over [`StoreModel`], a pair of maps: channel to game, and live
//! announcement message to the channel it routes to. A channel with no entry
//! in the game map carries no game; the two situations are indistinguishable
//! through [`StoreModel::game_in`], which every contract goes through.

use vstd::prelude::*;

use crate::reaction::Reaction;
use crate::reaction::is_join_emoji;
use crate::ChannelId;
use crate::MessageId;
use crate::UserId;

verus! {

/// The game carried by one channel.
#[verifier::ext_equal]
pub enum GameModel {
    /// No game runs in the channel.
    NoGame,
    /// An announcement is live and users may join by reacting on it.
    WaitingForPlayers { players: Set<UserId> },
    /// The joined players vote on a word; no operation of the store reaches
    /// this state yet, but the routing rules already tolerate it.
    WaitingForVotes { players: Set<UserId>, word: Seq<char> },
}

/// What a status query reports: the game's phase and, when one runs, its
/// player set. The word under vote stays private to the store.
#[verifier::ext_equal]
pub enum StatusModel {
    NoGame,
    WaitingForPlayers { players: Set<UserId> },
    WaitingForVotes { players: Set<UserId> },
}

/// The whole store: the games by channel and the subscription index from
/// live announcement messages to their channels.
#[verifier::ext_equal]
pub struct StoreModel {
    pub games: Map<ChannelId, GameModel>,
    pub subs: Map<MessageId, ChannelId>,
}

impl StoreModel {
    /// The store of a freshly constructed manager: no games, no
    /// subscriptions.
    pub open spec fn empty() -> StoreModel {
        StoreModel { games: Map::empty(), subs: Map::empty() }
    }

    /// The game in a channel; a channel without an entry carries
    /// [`GameModel::NoGame`].
    pub open spec fn game_in(self, channel_id: ChannelId) -> GameModel {
        if self.games.contains_key(channel_id) {
            self.games[channel_id]
        } else {
            GameModel::NoGame
        }
    }

    /// What a status query in the channel reports.
    pub open spec fn status_of(self, channel_id: ChannelId) -> StatusModel {
        match self.game_in(channel_id) {
            GameModel::NoGame => StatusModel::NoGame,
            GameModel::WaitingForPlayers { players } => StatusModel::WaitingForPlayers { players },
            GameModel::WaitingForVotes { players, .. } => StatusModel::WaitingForVotes { players },
        }
    }

    /// Whether a start request in the channel is granted: only a channel
    /// that carries no game may start one.
    pub open spec fn start_granted(self, channel_id: ChannelId) -> bool {
        self.game_in(channel_id) is NoGame
    }

    /// The store after a start request in the channel. A granted request
    /// opens a game with no players yet; a refused one leaves the store
    /// untouched, the ongoing game in particular.
    pub open spec fn start_spec(self, channel_id: ChannelId) -> StoreModel {
        if self.start_granted(channel_id) {
            StoreModel {
                games: self.games.insert(
                    channel_id,
                    GameModel::WaitingForPlayers { players: Set::empty() },
                ),
                subs: self.subs,
            }
        } else {
            self
        }
    }

    /// The store after an announcement message is registered for reaction
    /// routing. A later registration of the same message id overwrites the
    /// earlier one; the games are untouched.
    pub open spec fn subscribe_spec(self, message_id: MessageId, channel_id: ChannelId) -> StoreModel {
        StoreModel { games: self.games, subs: self.subs.insert(message_id, channel_id) }
    }

    /// The store after a routing entry is dropped; dropping an absent entry
    /// changes nothing.
    pub open spec fn unsubscribe_spec(self, message_id: MessageId) -> StoreModel {
        StoreModel { games: self.games, subs: self.subs.remove(message_id) }
    }

    /// The store after a reaction-add event.
    ///
    /// An event without the join emoji, or on a message that is not
    /// subscribed, changes nothing. One that routes to a channel waiting
    /// for players adds the reacting user to that game and keeps the
    /// subscription live. One that routes to a channel in any other state
    /// finds a stale subscription and drops it, touching no game.
    pub open spec fn reaction_add_spec(self, r: Reaction) -> StoreModel {
        if !is_join_emoji(r.emoji) {
            self
        } else if !self.subs.contains_key(r.message_id) {
            self
        } else {
            let channel_id = self.subs[r.message_id];
            match self.game_in(channel_id) {
                GameModel::WaitingForPlayers { players } => StoreModel {
                    games: self.games.insert(
                        channel_id,
                        GameModel::WaitingForPlayers { players: players.insert(r.user_id) },
                    ),
                    subs: self.subs,
                },
                GameModel::NoGame => StoreModel {
                    games: self.games,
                    subs: self.subs.remove(r.message_id),
                },
                GameModel::WaitingForVotes { .. } => StoreModel {
                    games: self.games,
                    subs: self.subs.remove(r.message_id),
                },
            }
        }
    }

    /// The store after a reaction-remove event.
    ///
    /// The exact mirror of a join while the game still waits for players:
    /// the user leaves the player set and the announcement stays open.
    /// Every other event — wrong emoji, unknown message, game no longer
    /// joinable — changes nothing, and in particular keeps the
    /// subscription index as it is.
    pub open spec fn reaction_remove_spec(self, r: Reaction) -> StoreModel {
        if !is_join_emoji(r.emoji) || !self.subs.contains_key(r.message_id) {
            self
        } else {
            let channel_id = self.subs[r.message_id];
            match self.game_in(channel_id) {
                GameModel::WaitingForPlayers { players } => StoreModel {
                    games: self.games.insert(
                        channel_id,
                        GameModel::WaitingForPlayers { players: players.remove(r.user_id) },
                    ),
                    subs: self.subs,
                },
                GameModel::NoGame => self,
                GameModel::WaitingForVotes { .. } => self,
            }
        }
    }
}

} // verus!
