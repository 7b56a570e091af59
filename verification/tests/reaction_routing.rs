//! Reaction routing: the join filter, the subscription index, joining and
//! leaving games, and how stale subscriptions heal themselves.

use randword_bot_rs::game_mgr::GameStartResult;
use randword_bot_rs::game_mgr::GameStatesManager;
use randword_bot_rs::game_mgr::GameStatus;
use randword_bot_rs::reaction::Reaction;
use randword_bot_rs::reaction::ReactionEmoji;

fn join_reaction(message_id: u64, user_id: u64) -> Reaction {
    Reaction { message_id, user_id, emoji: ReactionEmoji::Unicode(String::from(":+1:")) }
}

fn player_count(mgr: &GameStatesManager, channel_id: u64) -> usize {
    match mgr.status_in(channel_id) {
        GameStatus::WaitingForPlayers { players } => players.len(),
        GameStatus::WaitingForVotes { players } => players.len(),
        GameStatus::NoGame => 0,
    }
}

#[test]
fn join_reaction_adds_the_player() {
    let mut mgr = GameStatesManager::new();
    assert_eq!(mgr.start_in(7), GameStartResult::Started);
    mgr.subscribe(42, 7);
    mgr.reaction_add(join_reaction(42, 99));
    match mgr.status_in(7) {
        GameStatus::WaitingForPlayers { players } => assert!(players.contains(&99)),
        _ => panic!("expected a game waiting for players"),
    }
}

#[test]
fn repeated_join_reaction_is_idempotent() {
    let mut mgr = GameStatesManager::new();
    assert_eq!(mgr.start_in(7), GameStartResult::Started);
    mgr.subscribe(42, 7);
    mgr.reaction_add(join_reaction(42, 99));
    let before: usize = player_count(&mgr, 7);
    mgr.reaction_add(join_reaction(42, 99));
    assert_eq!(player_count(&mgr, 7), before);
    assert_eq!(before, 1);
}

#[test]
fn two_users_can_join_the_same_game() {
    let mut mgr = GameStatesManager::new();
    assert_eq!(mgr.start_in(7), GameStartResult::Started);
    mgr.subscribe(42, 7);
    mgr.reaction_add(join_reaction(42, 99));
    mgr.reaction_add(join_reaction(42, 100));
    match mgr.status_in(7) {
        GameStatus::WaitingForPlayers { players } => {
            assert_eq!(players.len(), 2);
            assert!(players.contains(&99));
            assert!(players.contains(&100));
        }
        _ => panic!("expected a game waiting for players"),
    }
}

#[test]
fn non_join_emoji_changes_nothing() {
    let mut mgr = GameStatesManager::new();
    assert_eq!(mgr.start_in(7), GameStartResult::Started);
    mgr.subscribe(42, 7);
    mgr.reaction_add(Reaction {
        message_id: 42,
        user_id: 99,
        emoji: ReactionEmoji::Unicode(String::from(":x:")),
    });
    mgr.reaction_add(Reaction { message_id: 42, user_id: 99, emoji: ReactionEmoji::Custom });
    assert_eq!(player_count(&mgr, 7), 0);
    // The subscription survived the filtered events: a real join still routes.
    mgr.reaction_add(join_reaction(42, 99));
    assert_eq!(player_count(&mgr, 7), 1);
}

#[test]
fn join_on_unsubscribed_message_is_a_no_op() {
    let mut mgr = GameStatesManager::new();
    assert_eq!(mgr.start_in(7), GameStartResult::Started);
    mgr.reaction_add(join_reaction(42, 99));
    assert_eq!(player_count(&mgr, 7), 0);
}

#[test]
fn stale_subscription_is_dropped_and_creates_no_game() {
    let mut mgr = GameStatesManager::new();
    // Channel 7 carries no game while message 42 is still subscribed to it.
    mgr.subscribe(42, 7);
    mgr.reaction_add(join_reaction(42, 99));
    assert!(matches!(mgr.status_in(7), GameStatus::NoGame));
    // The healed index no longer routes message 42: a game started later in
    // channel 7 does not see joins through the dropped subscription.
    assert_eq!(mgr.start_in(7), GameStartResult::Started);
    mgr.reaction_add(join_reaction(42, 99));
    assert_eq!(player_count(&mgr, 7), 0);
}

#[test]
fn unsubscribe_stops_the_routing() {
    let mut mgr = GameStatesManager::new();
    assert_eq!(mgr.start_in(7), GameStartResult::Started);
    mgr.subscribe(42, 7);
    mgr.unsubscribe(42);
    mgr.reaction_add(join_reaction(42, 99));
    assert_eq!(player_count(&mgr, 7), 0);
}

#[test]
fn unsubscribe_of_unknown_message_is_a_no_op() {
    let mut mgr = GameStatesManager::new();
    assert_eq!(mgr.start_in(7), GameStartResult::Started);
    mgr.subscribe(42, 7);
    mgr.unsubscribe(41);
    mgr.reaction_add(join_reaction(42, 99));
    assert_eq!(player_count(&mgr, 7), 1);
}

#[test]
fn later_subscription_of_the_same_message_wins() {
    let mut mgr = GameStatesManager::new();
    assert_eq!(mgr.start_in(7), GameStartResult::Started);
    assert_eq!(mgr.start_in(8), GameStartResult::Started);
    mgr.subscribe(42, 7);
    mgr.subscribe(42, 8);
    mgr.reaction_add(join_reaction(42, 99));
    assert_eq!(player_count(&mgr, 7), 0);
    assert_eq!(player_count(&mgr, 8), 1);
}

#[test]
fn retracted_join_removes_the_player() {
    let mut mgr = GameStatesManager::new();
    assert_eq!(mgr.start_in(7), GameStartResult::Started);
    mgr.subscribe(42, 7);
    mgr.reaction_add(join_reaction(42, 99));
    mgr.reaction_add(join_reaction(42, 100));
    mgr.reaction_remove(join_reaction(42, 99));
    match mgr.status_in(7) {
        GameStatus::WaitingForPlayers { players } => {
            assert_eq!(players.len(), 1);
            assert!(players.contains(&100));
            assert!(!players.contains(&99));
        }
        _ => panic!("expected a game waiting for players"),
    }
}

#[test]
fn retracted_join_keeps_the_announcement_open() {
    let mut mgr = GameStatesManager::new();
    assert_eq!(mgr.start_in(7), GameStartResult::Started);
    mgr.subscribe(42, 7);
    mgr.reaction_add(join_reaction(42, 99));
    mgr.reaction_remove(join_reaction(42, 99));
    assert_eq!(player_count(&mgr, 7), 0);
    // The subscription is still live: the user can join again.
    mgr.reaction_add(join_reaction(42, 99));
    assert_eq!(player_count(&mgr, 7), 1);
}

#[test]
fn retraction_without_a_game_keeps_the_subscription() {
    let mut mgr = GameStatesManager::new();
    mgr.subscribe(42, 7);
    mgr.reaction_remove(join_reaction(42, 99));
    assert!(matches!(mgr.status_in(7), GameStatus::NoGame));
    // Unlike a stale join, the retraction dropped nothing: once a game
    // starts, message 42 still routes to channel 7.
    assert_eq!(mgr.start_in(7), GameStartResult::Started);
    mgr.reaction_add(join_reaction(42, 99));
    assert_eq!(player_count(&mgr, 7), 1);
}

#[test]
fn non_join_retraction_changes_nothing() {
    let mut mgr = GameStatesManager::new();
    assert_eq!(mgr.start_in(7), GameStartResult::Started);
    mgr.subscribe(42, 7);
    mgr.reaction_add(join_reaction(42, 99));
    mgr.reaction_remove(Reaction {
        message_id: 42,
        user_id: 99,
        emoji: ReactionEmoji::Unicode(String::from(":x:")),
    });
    assert_eq!(player_count(&mgr, 7), 1);
}

#[test]
fn retraction_of_an_absent_player_is_a_no_op() {
    let mut mgr = GameStatesManager::new();
    assert_eq!(mgr.start_in(7), GameStartResult::Started);
    mgr.subscribe(42, 7);
    mgr.reaction_add(join_reaction(42, 99));
    mgr.reaction_remove(join_reaction(42, 100));
    assert_eq!(player_count(&mgr, 7), 1);
}

#[test]
fn join_filter_accepts_only_the_join_glyph() {
    assert!(join_reaction(1, 2).is_join());
    let other = Reaction {
        message_id: 1,
        user_id: 2,
        emoji: ReactionEmoji::Unicode(String::from(":-1:")),
    };
    assert!(!other.is_join());
    let custom = Reaction { message_id: 1, user_id: 2, emoji: ReactionEmoji::Custom };
    assert!(!custom.is_join());
}
