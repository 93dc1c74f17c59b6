//! The match scheduler: the turn counter, the next-battle deadline, the
//! active-roster count, and match termination.  It also deals the god
//! choices at match start and settles a battle's outcome into roster
//! health.  Advancing a turn computes the next deadline as now plus 30
//! seconds plus 5 more for each round already played; when at most one
//! roster is still active the match closes instead, and closing is
//! idempotent.
use vstd::prelude::*;

use crate::battle::first_occupied;
use crate::battle::BattleResponse;
use crate::character::CharacterInstance;
use crate::clip_i16;
use crate::player::GameInstancePlayer;
use crate::rng;
use crate::BOARD_SIZE;

verus! {

/// Seconds granted before the first battle of a turn.
pub const TURN_BASE_SECONDS: i64 = 30;

/// Extra seconds granted per round already played.
pub const TURN_EXTRA_SECONDS: i64 = 5;

/// A bound the clock's reading always stays within: chrono's dates span
/// about 262,000 years either side of the epoch, under 2^45 seconds.
pub const CLOCK_BOUND: i64 = 0x2000_0000_0000;

/// Relies on chrono's `Utc::now`, read back as whole seconds since the
/// Unix epoch; chrono's supported date range keeps the value within
/// `CLOCK_BOUND`.
#[verifier::external_body]
fn now_seconds() -> (r: i64)
    ensures
        -CLOCK_BOUND <= r <= CLOCK_BOUND,
{
    chrono::Utc::now().timestamp()
}

/// The battle deadline for a turn: now, plus the base seconds, plus the
/// extra seconds for each round already played.
pub open spec fn deadline_spec(now: int, turn: int) -> int {
    now + TURN_BASE_SECONDS + TURN_EXTRA_SECONDS * (turn - 1)
}

/// Where a match stands.
#[derive(Clone, Copy, Debug, PartialEq, Eq, Structural)]
pub enum GamePhase {
    /// Created; rosters not yet playing.
    Setup,
    /// Players buy, sell and move until the battle deadline.
    AwaitingPurchases,
    /// Battles of the current round are being resolved and played back.
    InBattle,
    /// Terminal: at most one roster was left active.
    Closed,
}

/// The match's turn state.
#[derive(Clone, Copy, Debug)]
pub struct GameState {
    pub phase: GamePhase,
    /// Rounds played so far.
    pub current_round: i32,
    /// When the next battle resolves, in seconds since the epoch.
    pub next_battle: Option<i64>,
}

impl GameState {
    /// A match just created.
    pub fn new() -> (r: GameState)
        ensures
            r.phase == GamePhase::Setup,
            r.current_round == 0,
            r.next_battle is None,
    {
        GameState { phase: GamePhase::Setup, current_round: 0, next_battle: None }
    }

    /// Whether the battle deadline has passed.
    pub fn is_battle_due(&self, now: i64) -> (r: bool)
        ensures
            r == (match self.next_battle {
                Some(d) => now >= d,
                None => false,
            }),
    {
        match self.next_battle {
            Some(d) => now >= d,
            None => false,
        }
    }

    /// Enters the battle phase of the current round.
    pub fn begin_battle(&mut self)
        requires
            old(self).phase == GamePhase::AwaitingPurchases,
        ensures
            *final(self) == (GameState { phase: GamePhase::InBattle, ..*old(self) }),
    {
        self.phase = GamePhase::InBattle;
    }

    /// Closes the match.  Closing an already closed match changes
    /// nothing.
    pub fn close(&mut self)
        ensures
            *final(self) == (GameState { phase: GamePhase::Closed, ..*old(self) }),
    {
        self.phase = GamePhase::Closed;
    }

    /// Advances the match by one turn at the given clock reading.  On a
    /// closed match this is a no-op.  With at most one roster still
    /// active the match closes; otherwise the round counter rises by one
    /// and the next battle deadline is scheduled.
    pub fn next_turn(&mut self, players: &Vec<GameInstancePlayer>, now: i64) -> (r: TurnOutcome)
        requires
            -CLOCK_BOUND <= now <= CLOCK_BOUND,
            0 <= old(self).current_round < i32::MAX,
        ensures
            old(self).phase == GamePhase::Closed ==> *final(self) == *old(self) && r
                == TurnOutcome::AlreadyClosed,
            old(self).phase != GamePhase::Closed && active_count(players@) <= 1 ==> *final(self)
                == (GameState { phase: GamePhase::Closed, ..*old(self) }) && r
                == TurnOutcome::Closed,
            old(self).phase != GamePhase::Closed && active_count(players@) > 1 ==> {
                &&& final(self).phase == GamePhase::AwaitingPurchases
                &&& final(self).current_round == old(self).current_round + 1
                &&& final(self).next_battle == Some(
                    deadline_spec(now as int, old(self).current_round + 1) as i64,
                )
                &&& r == (TurnOutcome::Scheduled {
                    round: (old(self).current_round + 1) as i32,
                    deadline: deadline_spec(now as int, old(self).current_round + 1) as i64,
                })
            },
    {
        match self.phase {
            GamePhase::Closed => TurnOutcome::AlreadyClosed,
            _ => {
                let actives: usize = count_active(players);
                if actives <= 1 {
                    self.phase = GamePhase::Closed;
                    TurnOutcome::Closed
                } else {
                    let next_round: i32 = self.current_round + 1;
                    let deadline: i64 = next_turn_time_from(now, next_round);
                    self.current_round = next_round;
                    self.next_battle = Some(deadline);
                    self.phase = GamePhase::AwaitingPurchases;
                    TurnOutcome::Scheduled { round: next_round, deadline }
                }
            },
        }
    }

    /// Advances the match by one turn at the current wall clock.  What
    /// the clock read is reported in the outcome; all other guarantees
    /// are those of `next_turn`.
    pub fn next_turn_now(&mut self, players: &Vec<GameInstancePlayer>) -> (r: TurnOutcome)
        requires
            0 <= old(self).current_round < i32::MAX,
        ensures
            old(self).phase == GamePhase::Closed ==> *final(self) == *old(self) && r
                == TurnOutcome::AlreadyClosed,
            old(self).phase != GamePhase::Closed && active_count(players@) <= 1 ==> *final(self)
                == (GameState { phase: GamePhase::Closed, ..*old(self) }) && r
                == TurnOutcome::Closed,
            old(self).phase != GamePhase::Closed && active_count(players@) > 1 ==> {
                &&& final(self).phase == GamePhase::AwaitingPurchases
                &&& final(self).current_round == old(self).current_round + 1
                &&& exists|now: int|
                    -CLOCK_BOUND <= now <= CLOCK_BOUND && final(self).next_battle == Some(
                        #[trigger] deadline_spec(now, old(self).current_round + 1) as i64,
                    )
            },
    {
        let now: i64 = now_seconds();
        let r = self.next_turn(players, now);
        proof {
            if old(self).phase != GamePhase::Closed && active_count(players@) > 1 {
                assert(final(self).next_battle == Some(
                    deadline_spec(now as int, old(self).current_round + 1) as i64,
                ));
            }
        }
        r
    }
}

/// What advancing a turn did.
#[derive(Clone, Copy, Debug, PartialEq, Eq, Structural)]
pub enum TurnOutcome {
    /// The match was already closed; nothing happened.
    AlreadyClosed,
    /// At most one roster was still active, so the match closed now.
    Closed,
    /// The next round is scheduled with its battle deadline.
    Scheduled { round: i32, deadline: i64 },
}

/// Rosters in the prefix that are still fighting: health left and no
/// placement assigned.
pub open spec fn active_count(players: Seq<GameInstancePlayer>) -> int
    decreases players.len(),
{
    if players.len() == 0 {
        0
    } else {
        active_count(players.drop_last()) + if players.last().health > 0 && players.last().placement
            is None {
            1int
        } else {
            0int
        }
    }
}

/// Counts the rosters still fighting.
pub fn count_active(players: &Vec<GameInstancePlayer>) -> (r: usize)
    ensures
        r == active_count(players@),
{
    let mut r: usize = 0;
    let mut i: usize = 0;
    while i < players.len()
        invariant
            i <= players.len(),
            r == active_count(players@.take(i as int)),
            r <= i,
        decreases players.len() - i,
    {
        proof {
            assert(players@.take(i + 1 as int).drop_last() =~= players@.take(i as int));
        }
        if players[i].is_active() {
            r = r + 1;
        }
        i = i + 1;
    }
    proof {
        assert(players@.take(players@.len() as int) =~= players@);
    }
    r
}

/// The battle deadline for a turn, from an explicit clock reading.
pub fn next_turn_time_from(now: i64, turn: i32) -> (r: i64)
    requires
        -CLOCK_BOUND <= now <= CLOCK_BOUND,
        turn >= 1,
    ensures
        r == deadline_spec(now as int, turn as int),
{
    now + TURN_BASE_SECONDS + TURN_EXTRA_SECONDS * (turn as i64 - 1)
}

/// The battle deadline for a turn, from the current wall clock.
pub fn get_next_turn_time(turn: i32) -> (r: i64)
    requires
        turn >= 1,
    ensures
        exists|now: int|
            -CLOCK_BOUND <= now <= CLOCK_BOUND && r == #[trigger] deadline_spec(now, turn as int),
{
    let now: i64 = now_seconds();
    let r = next_turn_time_from(now, turn);
    proof {
        assert(r == deadline_spec(now as int, turn as int));
    }
    r
}

/// Deals each player four distinct god choices from a shuffled deck of
/// god indices; no god is offered to two players.
pub fn deal_god_choices(n_gods: usize, n_players: usize) -> (r: Vec<[i32; 4]>)
    requires
        4 * n_players <= n_gods,
        n_gods <= i32::MAX,
    ensures
        r.len() == n_players,
        forall|p: int, k: int|
            0 <= p < r.len() && 0 <= k < 4 ==> 0 <= #[trigger] r@[p]@[k] < n_gods,
        forall|p1: int, k1: int, p2: int, k2: int|
            0 <= p1 < r.len() && 0 <= k1 < 4 && 0 <= p2 < r.len() && 0 <= k2 < 4 && (p1 != p2 || k1
                != k2) ==> #[trigger] r@[p1]@[k1] != #[trigger] r@[p2]@[k2],
{
    let deck: Vec<usize> = rng::shuffled_indices(n_gods);
    let mut r: Vec<[i32; 4]> = Vec::new();
    let mut p: usize = 0;
    while p < n_players
        invariant
            p <= n_players,
            4 * n_players <= n_gods,
            n_gods <= i32::MAX,
            deck.len() == n_gods,
            forall|k: int| 0 <= k < deck@.len() ==> (#[trigger] deck@[k]) < n_gods,
            forall|k1: int, k2: int|
                0 <= k1 < deck@.len() && 0 <= k2 < deck@.len() && k1 != k2 ==> deck@[k1]
                    != deck@[k2],
            r.len() == p,
            forall|q: int, k: int|
                0 <= q < r.len() && 0 <= k < 4 ==> #[trigger] r@[q]@[k] == deck@[4 * q + k] as i32,
        decreases n_players - p,
    {
        let base: usize = 4 * p;
        let choices: [i32; 4] = [
            deck[base] as i32,
            deck[base + 1] as i32,
            deck[base + 2] as i32,
            deck[base + 3] as i32,
        ];
        r.push(choices);
        p = p + 1;
    }
    proof {
        assert forall|p1: int, k1: int, p2: int, k2: int|
            0 <= p1 < r.len() && 0 <= k1 < 4 && 0 <= p2 < r.len() && 0 <= k2 < 4 && (p1 != p2 || k1
                != k2) implies #[trigger] r@[p1]@[k1] != #[trigger] r@[p2]@[k2] by {
            assert(r@[p1]@[k1] == deck@[4 * p1 + k1] as i32);
            assert(r@[p2]@[k2] == deck@[4 * p2 + k2] as i32);
            assert(4 * p1 + k1 != 4 * p2 + k2);
        }
    }
    r
}

/// Sum of the cost tiers of the units on a board: the damage the losing
/// roster takes from the survivors.
pub open spec fn cost_sum(b: Seq<Option<CharacterInstance>>) -> int
    decreases b.len(),
{
    if b.len() == 0 {
        0
    } else {
        cost_sum(b.drop_last()) + match b.last() {
            Some(c) => c.cost as int,
            None => 0,
        }
    }
}

/// Sums the cost tiers of the units on a board.
pub fn board_cost_sum(b: &Vec<Option<CharacterInstance>>) -> (r: u16)
    requires
        b.len() <= BOARD_SIZE,
    ensures
        r == cost_sum(b@),
{
    let mut r: u16 = 0;
    let mut i: usize = 0;
    while i < b.len()
        invariant
            i <= b.len(),
            b.len() <= BOARD_SIZE,
            r == cost_sum(b@.take(i as int)),
            r <= 255 * i,
        decreases b.len() - i,
    {
        proof {
            assert(b@.take(i + 1 as int).drop_last() =~= b@.take(i as int));
        }
        match b[i] {
            Some(c) => {
                r = r + c.cost as u16;
            },
            None => {},
        }
        i = i + 1;
    }
    proof {
        assert(b@.take(b@.len() as int) =~= b@);
    }
    r
}

/// Settles a resolved battle into roster health: the side wiped out loses
/// health equal to the sum of the survivors' cost tiers, clamped into
/// `i16`; a draw — both sides standing, or neither — costs nobody
/// anything.  Nothing else of either roster moves.
pub fn settle_battle(
    a: &mut GameInstancePlayer,
    b: &mut GameInstancePlayer,
    resp: &BattleResponse,
)
    requires
        resp.final_own.len() <= BOARD_SIZE,
        resp.final_opponent.len() <= BOARD_SIZE,
    ensures
        final(a).board == old(a).board
            && *final(a) == (GameInstancePlayer { health: final(a).health, ..*old(a) }),
        *final(b) == (GameInstancePlayer { health: final(b).health, ..*old(b) }),
        first_occupied(resp.final_own@) is Some && first_occupied(resp.final_opponent@) is None
            ==> final(b).health == clip_i16(old(b).health - cost_sum(resp.final_own@))
            && final(a).health == old(a).health,
        first_occupied(resp.final_own@) is None && first_occupied(resp.final_opponent@) is Some
            ==> final(a).health == clip_i16(old(a).health - cost_sum(resp.final_opponent@))
            && final(b).health == old(b).health,
        (first_occupied(resp.final_own@) is Some) == (first_occupied(resp.final_opponent@)
            is Some) ==> final(a).health == old(a).health && final(b).health == old(b).health,
{
    let own_alive: bool = board_has_units(&resp.final_own);
    let opp_alive: bool = board_has_units(&resp.final_opponent);
    if own_alive && !opp_alive {
        let dmg: u16 = board_cost_sum(&resp.final_own);
        b.health = sat_sub_i16(b.health, dmg);
    } else if !own_alive && opp_alive {
        let dmg: u16 = board_cost_sum(&resp.final_opponent);
        a.health = sat_sub_i16(a.health, dmg);
    }
}

/// Whether any unit stands on the board.
fn board_has_units(b: &Vec<Option<CharacterInstance>>) -> (r: bool)
    ensures
        r == (first_occupied(b@) is Some),
{
    let mut i: usize = 0;
    while i < b.len()
        invariant
            i <= b.len(),
            first_occupied(b@) == crate::battle::first_occupied_from(b@, i as int),
        decreases b.len() - i,
    {
        if b[i].is_some() {
            return true;
        }
        i = i + 1;
    }
    false
}

/// Subtracts a damage total from a health value, clamping into `i16`.
fn sat_sub_i16(h: i16, dmg: u16) -> (r: i16)
    ensures
        r as int == clip_i16(h - dmg),
{
    let wide: i32 = h as i32 - dmg as i32;
    if wide < i16::MIN as i32 {
        i16::MIN
    } else {
        wide as i16
    }
}

} // verus!
