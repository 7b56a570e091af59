//! The game store: one game per channel, and the routing index that carries
//! reaction events on announcement messages to the channel they belong to.
//!
//! The store is plain mutable state. Exclusive access for the whole of each
//! mutating call — the check-then-set inside [`GameStatesManager::start_in`]
//! in particular — is what `&mut self` demands of the caller; a program that
//! shares the store between handlers puts it behind a reader-writer lock and
//! holds the write guard across the call.

use std::collections::HashMap;
use std::collections::HashSet;
use vstd::prelude::*;

use crate::model::GameModel;
use crate::model::StatusModel;
use crate::model::StoreModel;
use crate::reaction::Reaction;
use crate::ChannelId;
use crate::MessageId;
use crate::UserId;

verus! {

/// The game carried by one channel, as the store holds it.
#[derive(Debug)]
pub enum GameState {
    /// No game runs in the channel. The store never keeps such an entry in
    /// its map — absence says the same — but it reads one correctly.
    NoGame,
    /// An announcement is live and users join by reacting on it.
    WaitingForPlayers { players: HashSet<UserId> },
    /// The joined players vote on a word. No operation constructs this
    /// state yet; the store merely routes around it correctly.
    WaitingForVotes { players: HashSet<UserId>, word: String },
}

impl View for GameState {
    type V = GameModel;

    open spec fn view(&self) -> GameModel {
        match self {
            GameState::NoGame => GameModel::NoGame,
            GameState::WaitingForPlayers { players } => GameModel::WaitingForPlayers {
                players: players@,
            },
            GameState::WaitingForVotes { players, word } => GameModel::WaitingForVotes {
                players: players@,
                word: word@,
            },
        }
    }
}

/// What a status query returns: the phase of the channel's game and, while
/// one runs, a read-only borrow of its player set.
#[derive(Debug)]
pub enum GameStatus<'a> {
    NoGame,
    WaitingForPlayers { players: &'a HashSet<UserId> },
    WaitingForVotes { players: &'a HashSet<UserId> },
}

impl<'a> View for GameStatus<'a> {
    type V = StatusModel;

    open spec fn view(&self) -> StatusModel {
        match self {
            GameStatus::NoGame => StatusModel::NoGame,
            GameStatus::WaitingForPlayers { players } => StatusModel::WaitingForPlayers {
                players: players@,
            },
            GameStatus::WaitingForVotes { players } => StatusModel::WaitingForVotes {
                players: players@,
            },
        }
    }
}

/// The answer of a start request. `AlreadyOngoing` is the store's only
/// failure signal, and it is an answer, not an error: the ongoing game is
/// left exactly as it was.
#[derive(Clone, Copy, Debug, PartialEq, Eq, Structural)]
pub enum GameStartResult {
    Started,
    AlreadyOngoing,
}

/// The store: the games by channel, and the subscription index from live
/// announcement message ids to the channel whose game they feed.
///
/// Its abstract value is a [`StoreModel`]; each operation's contract says
/// exactly which model the call leaves behind.
#[derive(Debug)]
pub struct GameStatesManager {
    states: HashMap<ChannelId, GameState>,
    react_subscriptions: HashMap<MessageId, ChannelId>,
}

impl View for GameStatesManager {
    type V = StoreModel;

    closed spec fn view(&self) -> StoreModel {
        StoreModel {
            games: Map::new(
                |channel_id: ChannelId| self.states@.contains_key(channel_id),
                |channel_id: ChannelId| self.states@[channel_id]@,
            ),
            subs: self.react_subscriptions@,
        }
    }
}

impl Default for GameStatesManager {
    /// The same store as [`GameStatesManager::new`] builds: no games, no
    /// subscriptions.
    fn default() -> (r: GameStatesManager)
        ensures
            r@ == StoreModel::empty(),
    {
        GameStatesManager::new()
    }
}

impl GameStatesManager {
    /// A store with no games and no subscriptions.
    pub fn new() -> (r: GameStatesManager)
        ensures
            r@ == StoreModel::empty(),
    {
        let r = GameStatesManager {
            states: HashMap::new(),
            react_subscriptions: HashMap::new(),
        };
        proof {
            assert(r@ =~~= StoreModel::empty());
        }
        r
    }

    /// Reports the channel's game: its phase and, while one runs, its
    /// player set. Read-only and total; a channel the store has never seen
    /// carries no game.
    pub fn status_in<'a>(&'a self, channel_id: ChannelId) -> (r: GameStatus<'a>)
        ensures
            r@ == self@.status_of(channel_id),
    {
        match self.states.get(&channel_id) {
            Option::None => GameStatus::NoGame,
            Option::Some(state) => match state {
                GameState::NoGame => GameStatus::NoGame,
                GameState::WaitingForPlayers { players } => GameStatus::WaitingForPlayers {
                    players,
                },
                GameState::WaitingForVotes { players, word: _ } => GameStatus::WaitingForVotes {
                    players,
                },
            },
        }
    }

    /// Starts a game in the channel if none runs there: the channel moves
    /// to waiting-for-players with an empty player set and the call answers
    /// `Started`. If any game is ongoing the call answers `AlreadyOngoing`
    /// and leaves the store — the ongoing game in particular — untouched.
    pub fn start_in(&mut self, channel_id: ChannelId) -> (r: GameStartResult)
        ensures
            final(self)@ == old(self)@.start_spec(channel_id),
            r == (if old(self)@.start_granted(channel_id) {
                GameStartResult::Started
            } else {
                GameStartResult::AlreadyOngoing
            }),
    {
        let ghost m0 = self@;
        let ongoing: bool = match self.states.get(&channel_id) {
            Option::None => false,
            Option::Some(state) => match state {
                GameState::NoGame => false,
                GameState::WaitingForPlayers { .. } => true,
                GameState::WaitingForVotes { .. } => true,
            },
        };
        if ongoing {
            GameStartResult::AlreadyOngoing
        } else {
            self.states.insert(
                channel_id,
                GameState::WaitingForPlayers { players: HashSet::new() },
            );
            proof {
                assert(self@ =~~= m0.start_spec(channel_id));
            }
            GameStartResult::Started
        }
    }

    /// Registers an announcement message for reaction routing: join
    /// reactions on it will feed the channel's game. A second registration
    /// of the same message id overwrites the first; the games are untouched.
    pub fn subscribe(&mut self, message_id: MessageId, channel_id: ChannelId)
        ensures
            final(self)@ == old(self)@.subscribe_spec(message_id, channel_id),
    {
        let ghost m0 = self@;
        self.react_subscriptions.insert(message_id, channel_id);
        proof {
            assert(self@ =~~= m0.subscribe_spec(message_id, channel_id));
        }
    }

    /// Drops the routing entry for a message id; dropping an absent entry
    /// changes nothing. The games are untouched either way.
    pub fn unsubscribe(&mut self, message_id: MessageId)
        ensures
            final(self)@ == old(self)@.unsubscribe_spec(message_id),
    {
        let ghost m0 = self@;
        self.react_subscriptions.remove(&message_id);
        proof {
            assert(self@ =~~= m0.unsubscribe_spec(message_id));
        }
    }

    /// Routes a reaction-add event, exactly as
    /// [`StoreModel::reaction_add_spec`] states it: events without the join
    /// emoji or on unsubscribed messages change nothing; a join routed to a
    /// channel waiting for players adds the user to that game (a repeated
    /// join changes nothing more) and keeps the subscription; a join routed
    /// to a channel in any other state drops the stale subscription and
    /// touches no game.
    pub fn reaction_add(&mut self, reaction: Reaction)
        ensures
            final(self)@ == old(self)@.reaction_add_spec(reaction),
    {
        let ghost m0 = self@;
        if !reaction.is_join() {
            return ;
        }
        let channel_id: ChannelId = match self.react_subscriptions.get(&reaction.message_id) {
            Option::Some(c) => *c,
            Option::None => {
                return ;
            },
        };
        // The state comes out of the map by value so the player set can be
        // owned while it changes; every arm puts a state back.
        let prev = self.states.remove(&channel_id);
        match prev {
            Option::Some(state) => match state {
                GameState::WaitingForPlayers { mut players } => {
                    players.insert(reaction.user_id);
                    self.states.insert(channel_id, GameState::WaitingForPlayers { players });
                    proof {
                        assert(self@ =~~= m0.reaction_add_spec(reaction));
                    }
                },
                GameState::NoGame => {
                    self.states.insert(channel_id, GameState::NoGame);
                    self.react_subscriptions.remove(&reaction.message_id);
                    proof {
                        assert(self@ =~~= m0.reaction_add_spec(reaction));
                    }
                },
                GameState::WaitingForVotes { players, word } => {
                    self.states.insert(channel_id, GameState::WaitingForVotes { players, word });
                    self.react_subscriptions.remove(&reaction.message_id);
                    proof {
                        assert(self@ =~~= m0.reaction_add_spec(reaction));
                    }
                },
            },
            Option::None => {
                self.react_subscriptions.remove(&reaction.message_id);
                proof {
                    assert(self@ =~~= m0.reaction_add_spec(reaction));
                }
            },
        }
    }

    /// Routes a reaction-remove event, the mirror of a join: a retracted
    /// join reaction takes the user out of the player set while the channel
    /// still waits for players, and the announcement stays open. Every
    /// other event is a no-op — in particular it drops no subscription.
    pub fn reaction_remove(&mut self, reaction: Reaction)
        ensures
            final(self)@ == old(self)@.reaction_remove_spec(reaction),
    {
        let ghost m0 = self@;
        if !reaction.is_join() {
            return ;
        }
        let channel_id: ChannelId = match self.react_subscriptions.get(&reaction.message_id) {
            Option::Some(c) => *c,
            Option::None => {
                return ;
            },
        };
        let prev = self.states.remove(&channel_id);
        match prev {
            Option::Some(state) => match state {
                GameState::WaitingForPlayers { mut players } => {
                    players.remove(&reaction.user_id);
                    self.states.insert(channel_id, GameState::WaitingForPlayers { players });
                    proof {
                        assert(self@ =~~= m0.reaction_remove_spec(reaction));
                    }
                },
                GameState::NoGame => {
                    self.states.insert(channel_id, GameState::NoGame);
                    proof {
                        assert(self@ =~~= m0.reaction_remove_spec(reaction));
                    }
                },
                GameState::WaitingForVotes { players, word } => {
                    self.states.insert(channel_id, GameState::WaitingForVotes { players, word });
                    proof {
                        assert(self@ =~~= m0.reaction_remove_spec(reaction));
                    }
                },
            },
            Option::None => {
                proof {
                    assert(self@ =~~= m0.reaction_remove_spec(reaction));
                }
            },
        }
    }
}

} // verus!
