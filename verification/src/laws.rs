//! The laws of the store, proved once and for all over [`StoreModel`].
//!
//! Every operation of [`crate::game_mgr::GameStatesManager`] ends in the
//! model that the matching `*_spec` function of [`StoreModel`] names, so
//! each law below holds of any sequence of calls on the executable store.

use vstd::prelude::*;

use crate::model::GameModel;
use crate::model::StatusModel;
use crate::model::StoreModel;
use crate::reaction::is_join_emoji;
use crate::reaction::Reaction;
use crate::ChannelId;
use crate::MessageId;

verus! {

/// A fresh store reports no game in any channel.
pub proof fn lemma_fresh_store_reports_no_game(channel_id: ChannelId)
    ensures
        StoreModel::empty().status_of(channel_id) == StatusModel::NoGame,
{
}

/// Only a start request can bring a game into a channel: where none runs,
/// subscribing, unsubscribing and reaction events of every kind leave the
/// channel without a game, and a status query there reports just that.
/// Together with the fresh store reporting no game anywhere, this gives:
/// a status query in a channel that never saw a granted start answers
/// `NoGame`, whatever else the store went through.
pub proof fn lemma_only_start_creates_game(
    m: StoreModel,
    channel_id: ChannelId,
    r: Reaction,
    message_id: MessageId,
    target: ChannelId,
)
    requires
        m.game_in(channel_id) is NoGame,
    ensures
        m.status_of(channel_id) == StatusModel::NoGame,
        m.subscribe_spec(message_id, target).game_in(channel_id) is NoGame,
        m.unsubscribe_spec(message_id).game_in(channel_id) is NoGame,
        m.reaction_add_spec(r).game_in(channel_id) is NoGame,
        m.reaction_remove_spec(r).game_in(channel_id) is NoGame,
{
}

/// Starting is exclusive: right after any start request in a channel, a
/// second request there is refused, and the refused request leaves the
/// whole store exactly as the first left it — the player set included.
/// Two start requests racing for one channel therefore see, in whichever
/// order the lock admits them, exactly one `Started` answer and end in a
/// single game: the empty one the granted request created.
pub proof fn lemma_start_is_exclusive(m: StoreModel, channel_id: ChannelId)
    ensures
        !m.start_spec(channel_id).start_granted(channel_id),
        m.start_spec(channel_id).start_spec(channel_id) == m.start_spec(channel_id),
{
}

/// A granted start leaves the channel waiting for players, with nobody
/// joined yet.
pub proof fn lemma_started_game_waits_with_no_players(m: StoreModel, channel_id: ChannelId)
    requires
        m.start_granted(channel_id),
    ensures
        m.start_spec(channel_id).status_of(channel_id) == (StatusModel::WaitingForPlayers {
            players: Set::empty(),
        }),
{
}

/// A join reaction on a subscribed announcement, while the channel still
/// waits for players, adds the reacting user to the game and keeps the
/// announcement subscribed; reacting again changes nothing further.
pub proof fn lemma_join_reaction_adds_player(
    m: StoreModel,
    message_id: MessageId,
    channel_id: ChannelId,
    r: Reaction,
)
    requires
        is_join_emoji(r.emoji),
        r.message_id == message_id,
        m.game_in(channel_id) is WaitingForPlayers,
    ensures
        ({
            let subscribed = m.subscribe_spec(message_id, channel_id);
            let joined = subscribed.reaction_add_spec(r);
            &&& joined.game_in(channel_id) == GameModel::WaitingForPlayers {
                players: m.game_in(channel_id)->WaitingForPlayers_players.insert(r.user_id),
            }
            &&& joined.subs == subscribed.subs
            &&& joined.reaction_add_spec(r) == joined
        }),
{
    let subscribed = m.subscribe_spec(message_id, channel_id);
    let joined = subscribed.reaction_add_spec(r);
    let players = joined.game_in(channel_id)->WaitingForPlayers_players;
    assert(players.insert(r.user_id) =~= players);
    assert(joined.games.insert(
        channel_id,
        GameModel::WaitingForPlayers { players: players.insert(r.user_id) },
    ) =~= joined.games);
    assert(joined.reaction_add_spec(r) =~~= joined);
}

/// A reaction that does not carry the join emoji changes nothing at all:
/// no player set moves and no subscription is dropped, whether the
/// reaction was added or removed.
pub proof fn lemma_non_join_reaction_is_ignored(m: StoreModel, r: Reaction)
    requires
        !is_join_emoji(r.emoji),
    ensures
        m.reaction_add_spec(r) == m,
        m.reaction_remove_spec(r) == m,
{
}

/// A reaction on a message no subscription knows is a no-op, whether the
/// reaction was added or removed.
pub proof fn lemma_unsubscribed_reaction_is_ignored(m: StoreModel, r: Reaction)
    requires
        !m.subs.contains_key(r.message_id),
    ensures
        m.reaction_add_spec(r) == m,
        m.reaction_remove_spec(r) == m,
{
}

/// Retracting a join mirrors the join exactly: while the channel still
/// waits for players, a user who was not yet in the game and joins and then
/// retracts leaves the whole store — player set and subscriptions — as it
/// was before the join.
pub proof fn lemma_retracted_join_restores_the_store(m: StoreModel, r: Reaction)
    requires
        is_join_emoji(r.emoji),
        m.subs.contains_key(r.message_id),
        m.game_in(m.subs[r.message_id]) matches GameModel::WaitingForPlayers { players }
            && !players.contains(r.user_id),
    ensures
        m.reaction_add_spec(r).reaction_remove_spec(r) == m,
{
    let channel_id = m.subs[r.message_id];
    let players = m.game_in(channel_id)->WaitingForPlayers_players;
    assert(players.insert(r.user_id).remove(r.user_id) =~= players);
    assert(m.reaction_add_spec(r).reaction_remove_spec(r).games =~= m.games);
    assert(m.reaction_add_spec(r).reaction_remove_spec(r) =~~= m);
}

/// A retraction never tears routing down: whatever the reaction and
/// whatever state its target is in, the subscription index afterwards is
/// the one from before.
pub proof fn lemma_retraction_keeps_subscriptions(m: StoreModel, r: Reaction)
    ensures
        m.reaction_remove_spec(r).subs == m.subs,
{
}

/// A stale subscription heals itself: when a join reaction routes to a
/// channel that no longer waits for players — reset to no game, or already
/// voting — the subscription for that message is dropped and no game is
/// created or changed anywhere.
pub proof fn lemma_stale_subscription_self_heals(m: StoreModel, r: Reaction)
    requires
        is_join_emoji(r.emoji),
        m.subs.contains_key(r.message_id),
        !(m.game_in(m.subs[r.message_id]) is WaitingForPlayers),
    ensures
        m.reaction_add_spec(r).games == m.games,
        m.reaction_add_spec(r).subs == m.subs.remove(r.message_id),
        forall|c: ChannelId| m.reaction_add_spec(r).game_in(c) == m.game_in(c),
{
}

} // verus!
