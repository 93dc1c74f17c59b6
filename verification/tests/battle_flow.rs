use autobattler_core::battle::{resolve_battle, BattleActionType, MAX_BATTLE_ACTIONS};
use autobattler_core::character::CharacterInstance;
use autobattler_core::game::{settle_battle, GamePhase, GameState, TurnOutcome};
use autobattler_core::playback::{board_diff, BattlePlayback, PlaybackDirective};
use autobattler_core::player::GameInstancePlayer;
use autobattler_core::BOARD_SIZE;

fn fighter(id: u128, cost: u8, attack: i32, health: i32) -> CharacterInstance {
    CharacterInstance {
        id,
        character_id: 0,
        cost,
        upgraded: false,
        attack,
        health,
        attack_bonus: 0,
        health_bonus: 0,
        temp_attack_bonus: 0,
        temp_health_bonus: 0,
    }
}

fn board_with(units: Vec<(usize, CharacterInstance)>) -> Vec<Option<CharacterInstance>> {
    let mut b = vec![None; BOARD_SIZE];
    for (i, u) in units {
        b[i] = Some(u);
    }
    b
}

#[test]
fn one_on_one_attack_reduces_defender_by_attacker_attack() {
    let attacker = fighter(1, 2, 5, 10);
    let defender = fighter(2, 1, 2, 4);
    let own = board_with(vec![(0, attacker)]);
    let opp = board_with(vec![(0, defender)]);
    let resp = resolve_battle(&own, &opp);
    assert_eq!(resp.start_own, own);
    assert_eq!(resp.start_opponent, opp);
    // First action: the own unit attacks; both strike each other.
    let first = &resp.actions[0];
    assert_eq!(first.action, BattleActionType::Attack);
    assert_eq!(first.source, 1);
    assert_eq!(first.target, Some(2));
    let struck = first.result_opponent[0].as_ref().unwrap();
    assert_eq!(struck.health, 4 - 5);
    let counter = first.result_own[0].as_ref().unwrap();
    assert_eq!(counter.health, 10 - 2);
    // Second action: the defender dies and leaves its board.
    let second = &resp.actions[1];
    assert_eq!(second.action, BattleActionType::Die);
    assert_eq!(second.source, 2);
    assert!(second.result_opponent.iter().all(|s| s.is_none()));
    assert_eq!(resp.actions.len(), 2);
    // Final boards: the attacker survives, the defender is gone.
    assert_eq!(resp.final_own[0].as_ref().unwrap().health, 8);
    assert!(resp.final_opponent.iter().all(|s| s.is_none()));
}

#[test]
fn battle_alternates_turns() {
    // Both units survive a pair of exchanges; the queue alternates sides.
    let a = fighter(1, 1, 1, 100);
    let b = fighter(2, 1, 1, 100);
    let own = board_with(vec![(0, a)]);
    let opp = board_with(vec![(0, b)]);
    let resp = resolve_battle(&own, &opp);
    assert_eq!(resp.actions.len(), MAX_BATTLE_ACTIONS);
    assert_eq!(resp.actions[0].source, 1);
    assert_eq!(resp.actions[1].source, 2);
    assert_eq!(resp.actions[2].source, 1);
}

#[test]
fn stalemate_stops_at_the_action_cap() {
    let pacifist_a = fighter(1, 1, 0, 3);
    let pacifist_b = fighter(2, 1, 0, 3);
    let own = board_with(vec![(0, pacifist_a)]);
    let opp = board_with(vec![(0, pacifist_b)]);
    let resp = resolve_battle(&own, &opp);
    assert_eq!(resp.actions.len(), MAX_BATTLE_ACTIONS);
    // Nobody died.
    assert!(resp.final_own[0].is_some());
    assert!(resp.final_opponent[0].is_some());
}

#[test]
fn empty_boards_resolve_to_no_actions() {
    let own = board_with(vec![]);
    let opp = board_with(vec![(0, fighter(9, 1, 1, 1))]);
    let resp = resolve_battle(&own, &opp);
    assert!(resp.actions.is_empty());
    assert_eq!(resp.final_opponent[0].as_ref().unwrap().id, 9);
}

#[test]
fn playback_applies_snapshots_one_action_at_a_time() {
    let attacker = fighter(1, 2, 5, 10);
    let defender = fighter(2, 1, 2, 4);
    let own = board_with(vec![(0, attacker)]);
    let opp = board_with(vec![(0, defender)]);
    let resp = resolve_battle(&own, &opp);
    let mut pb = BattlePlayback::new(resp);
    assert_eq!(
        pb.next_directive(),
        PlaybackDirective::AnimateAttack { source: 1, target: Some(2) }
    );
    assert!(pb.complete_current());
    assert_eq!(pb.opponent[0].as_ref().unwrap().health, -1);
    assert_eq!(pb.next_directive(), PlaybackDirective::AnimateDie { source: 2 });
    assert!(pb.complete_current());
    assert!(pb.opponent.iter().all(|s| s.is_none()));
    assert_eq!(pb.next_directive(), PlaybackDirective::Idle);
    assert!(pb.is_idle());
    assert!(!pb.complete_current());
}

#[test]
fn playback_cancel_discards_the_queue() {
    let own = board_with(vec![(0, fighter(1, 1, 1, 50))]);
    let opp = board_with(vec![(0, fighter(2, 1, 1, 50))]);
    let mut pb = BattlePlayback::new(resolve_battle(&own, &opp));
    assert!(pb.complete_current());
    let shown_own = pb.own.clone();
    pb.cancel();
    assert!(pb.is_idle());
    // The boards stay as last applied; no further diffs run.
    assert_eq!(pb.own, shown_own);
}

#[test]
fn board_diff_reconciles_by_unit_id() {
    let keep_old = fighter(1, 1, 2, 2);
    let keep_new = CharacterInstance { health: 1, ..keep_old.clone() };
    let gone = fighter(2, 1, 3, 3);
    let fresh = fighter(3, 1, 4, 4);
    let prev = board_with(vec![(0, keep_old), (1, gone)]);
    let next = board_with(vec![(0, keep_new.clone()), (5, fresh.clone())]);
    let d = board_diff(&prev, &next);
    assert_eq!(d.removed, vec![2]);
    assert_eq!(d.updated.len(), 1);
    assert_eq!(d.updated[0].id, 1);
    assert_eq!(d.updated[0].health, 1);
    assert_eq!(d.spawned.len(), 1);
    assert_eq!(d.spawned[0].0, 5);
    assert_eq!(d.spawned[0].1.id, 3);
}

#[test]
fn end_to_end_battle_deadline_and_match_close() {
    // Two rosters with one unit each reach a battle deadline.
    let mut alice = GameInstancePlayer::new(Some(1), "alice".to_string(), [0, 1, 2, 3]);
    let mut bob = GameInstancePlayer::new(Some(2), "bob".to_string(), [4, 5, 6, 7]);
    let striker = fighter(10, 3, 6, 9);
    let victim = fighter(20, 1, 1, 2);
    alice.board[0] = Some(striker);
    bob.board[0] = Some(victim);
    bob.health = 3;

    let mut game = GameState::new();
    let players_start = vec![alice.clone_for_count(), bob.clone_for_count()];
    let outcome = game.next_turn(&players_start, 1_000);
    // Round one scheduled 30 seconds out.
    assert_eq!(outcome, TurnOutcome::Scheduled { round: 1, deadline: 1_030 });
    assert!(game.is_battle_due(1_030));
    game.begin_battle();

    // The deadline passes; the two boards battle.
    let resp = resolve_battle(&alice.board, &bob.board);
    let attack = &resp.actions[0];
    assert_eq!(attack.action, BattleActionType::Attack);
    // The defender's effective health fell by the attacker's attack.
    assert_eq!(attack.result_opponent[0].as_ref().unwrap().health, 2 - 6);
    assert!(resp.final_opponent.iter().all(|s| s.is_none()));

    // Settling costs the loser the survivors' summed cost: 3.
    settle_battle(&mut alice, &mut bob, &resp);
    assert_eq!(bob.health, 0);
    assert!(!bob.is_active());
    assert!(alice.is_active());

    // One active roster left: the next turn closes the match.
    let players_end = vec![alice.clone_for_count(), bob.clone_for_count()];
    let outcome = game.next_turn(&players_end, 2_000);
    assert_eq!(outcome, TurnOutcome::Closed);
    assert_eq!(game.phase, GamePhase::Closed);
    // Closing is idempotent.
    let outcome = game.next_turn(&players_end, 3_000);
    assert_eq!(outcome, TurnOutcome::AlreadyClosed);
    assert_eq!(game.phase, GamePhase::Closed);
}

trait CloneForCount {
    fn clone_for_count(&self) -> GameInstancePlayer;
}

impl CloneForCount for GameInstancePlayer {
    fn clone_for_count(&self) -> GameInstancePlayer {
        let mut p = GameInstancePlayer::new(self.user_id, self.display_name.clone(), self.god_choices);
        p.board = self.board.clone();
        p.health = self.health;
        p.money = self.money;
        p.experience = self.experience;
        p.placement = self.placement;
        p
    }
}
