//! The battle resolver: two boards at a battle deadline become a strictly
//! ordered queue of discrete actions — attacks and deaths — each carrying
//! the resulting board snapshots for both sides.  The queue follows a
//! deterministic step relation: units that fell below zero health die
//! first (own side first, lowest index first), otherwise the side whose
//! turn it is attacks with its leftmost unit against the opposing
//! leftmost unit, both striking each other, and the turn passes.
use vstd::prelude::*;
use vstd::pervasive::VecAdditionalExecFns;

use crate::character::CharacterInstance;
use crate::clip_i32;

verus! {

/// Cap on the actions one battle may emit; a battle that cannot make
/// progress (two boards of zero-attack units) stops here as a draw.
pub const MAX_BATTLE_ACTIONS: usize = 100;

/// The kind of one combat event.
#[derive(Clone, Copy, Debug, PartialEq, Eq, Structural)]
pub enum BattleActionType {
    Attack,
    Die,
}

/// One combat event: its kind, the acting unit, an optional target unit,
/// and the boards of both sides after the event resolves.
#[derive(Debug)]
pub struct BattleAction {
    pub action: BattleActionType,
    /// Instance id of the acting unit.
    pub source: u128,
    /// Instance id of the unit attacked, for attacks.
    pub target: Option<u128>,
    pub result_own: Vec<Option<CharacterInstance>>,
    pub result_opponent: Vec<Option<CharacterInstance>>,
}

/// A resolved battle: the starting boards, the ordered action queue, and
/// the boards after the last action.
#[derive(Debug)]
pub struct BattleResponse {
    pub start_own: Vec<Option<CharacterInstance>>,
    pub start_opponent: Vec<Option<CharacterInstance>>,
    pub actions: Vec<BattleAction>,
    pub final_own: Vec<Option<CharacterInstance>>,
    pub final_opponent: Vec<Option<CharacterInstance>>,
}

/// The lowest occupied index at or after `i`, if any.
pub open spec fn first_occupied_from(b: Seq<Option<CharacterInstance>>, i: int) -> Option<int>
    decreases b.len() - i,
    when 0 <= i <= b.len()
{
    if i >= b.len() {
        None
    } else if b[i] is Some {
        Some(i)
    } else {
        first_occupied_from(b, i + 1)
    }
}

/// The lowest occupied index, if any.
pub open spec fn first_occupied(b: Seq<Option<CharacterInstance>>) -> Option<int> {
    first_occupied_from(b, 0)
}

/// The lowest index at or after `i` holding a unit with no health left.
pub open spec fn first_dead_from(b: Seq<Option<CharacterInstance>>, i: int) -> Option<int>
    decreases b.len() - i,
    when 0 <= i <= b.len()
{
    if i >= b.len() {
        None
    } else if (match b[i] {
        Some(c) => c.total_health_int() <= 0,
        None => false,
    }) {
        Some(i)
    } else {
        first_dead_from(b, i + 1)
    }
}

/// The lowest index holding a unit with no health left, if any.
pub open spec fn first_dead(b: Seq<Option<CharacterInstance>>) -> Option<int> {
    first_dead_from(b, 0)
}

/// The unit standing at an occupied index.
pub open spec fn unit_at(b: Seq<Option<CharacterInstance>>, i: int) -> CharacterInstance {
    b[i]->0
}

/// The unit after taking damage: its base health falls by the damage,
/// clamped into `i32`, so its effective health falls by exactly the
/// damage wherever no clamping bites.
pub open spec fn damage_unit(c: CharacterInstance, dmg: int) -> CharacterInstance {
    CharacterInstance { health: clip_i32(c.health - dmg) as i32, ..c }
}

/// One step of the battle relation: with a dead unit on the own board the
/// lowest-indexed one dies; else with a dead unit on the opposing board
/// that one dies; else the leftmost unit of the side to move attacks the
/// opposing leftmost unit and both strike each other with their effective
/// attack.
pub open spec fn step_ok(
    own: Seq<Option<CharacterInstance>>,
    opp: Seq<Option<CharacterInstance>>,
    turn_own: bool,
    a: BattleAction,
) -> bool {
    match first_dead(own) {
        Some(i) => {
            &&& a.action is Die
            &&& a.source == unit_at(own, i).id
            &&& a.target is None
            &&& a.result_own@ == own.update(i, None)
            &&& a.result_opponent@ == opp
        },
        None => match first_dead(opp) {
            Some(i) => {
                &&& a.action is Die
                &&& a.source == unit_at(opp, i).id
                &&& a.target is None
                &&& a.result_own@ == own
                &&& a.result_opponent@ == opp.update(i, None)
            },
            None => {
                &&& a.action is Attack
                &&& first_occupied(own) is Some
                &&& first_occupied(opp) is Some
                &&& {
                    let oi = first_occupied(own)->0;
                    let pi = first_occupied(opp)->0;
                    let ou = unit_at(own, oi);
                    let pu = unit_at(opp, pi);
                    let att = if turn_own {
                        ou
                    } else {
                        pu
                    };
                    let def = if turn_own {
                        pu
                    } else {
                        ou
                    };
                    &&& a.source == att.id
                    &&& a.target == Some(def.id)
                    &&& a.result_own@ == own.update(
                        oi,
                        Some(damage_unit(ou, clip_i32(pu.total_attack_int()))),
                    )
                    &&& a.result_opponent@ == opp.update(
                        pi,
                        Some(damage_unit(pu, clip_i32(ou.total_attack_int()))),
                    )
                }
            },
        },
    }
}

/// Whose turn it is after one step: deaths keep the turn, an attack
/// passes it.
pub open spec fn turn_after(
    own: Seq<Option<CharacterInstance>>,
    opp: Seq<Option<CharacterInstance>>,
    turn_own: bool,
) -> bool {
    if first_dead(own) is Some || first_dead(opp) is Some {
        turn_own
    } else {
        !turn_own
    }
}

/// No step applies: nobody is dead and at least one side has no units
/// left to fight with.
pub open spec fn terminal(
    own: Seq<Option<CharacterInstance>>,
    opp: Seq<Option<CharacterInstance>>,
) -> bool {
    &&& first_dead(own) is None
    &&& first_dead(opp) is None
    &&& (first_occupied(own) is None || first_occupied(opp) is None)
}

/// The action queue follows the step relation from the starting boards
/// and turn to the final boards and turn.
pub open spec fn valid_trace(
    own: Seq<Option<CharacterInstance>>,
    opp: Seq<Option<CharacterInstance>>,
    turn_own: bool,
    actions: Seq<BattleAction>,
    fin_own: Seq<Option<CharacterInstance>>,
    fin_opp: Seq<Option<CharacterInstance>>,
    fin_turn: bool,
) -> bool
    decreases actions.len(),
{
    if actions.len() == 0 {
        fin_own == own && fin_opp == opp && fin_turn == turn_own
    } else {
        &&& step_ok(own, opp, turn_own, actions[0])
        &&& valid_trace(
            actions[0].result_own@,
            actions[0].result_opponent@,
            turn_after(own, opp, turn_own),
            actions.drop_first(),
            fin_own,
            fin_opp,
            fin_turn,
        )
    }
}

/// A queue follows the step relation from the starting boards (own side
/// to move) to the final boards, whatever the final turn.
pub open spec fn resolved_trace(
    own: Seq<Option<CharacterInstance>>,
    opp: Seq<Option<CharacterInstance>>,
    actions: Seq<BattleAction>,
    fin_own: Seq<Option<CharacterInstance>>,
    fin_opp: Seq<Option<CharacterInstance>>,
) -> bool {
    exists|fin_turn: bool|
        valid_trace(own, opp, true, actions, fin_own, fin_opp, fin_turn)
}

/// Two actions agree on everything the step relation pins down: kind,
/// acting unit, target and both resulting boards.
pub open spec fn actions_match(a: BattleAction, b: BattleAction) -> bool {
    &&& a.action == b.action
    &&& a.source == b.source
    &&& a.target == b.target
    &&& a.result_own@ == b.result_own@
    &&& a.result_opponent@ == b.result_opponent@
}

/// At any state the step relation admits at most one action, up to the
/// boards and ids an action carries.
pub proof fn lemma_step_deterministic(
    own: Seq<Option<CharacterInstance>>,
    opp: Seq<Option<CharacterInstance>>,
    turn_own: bool,
    a: BattleAction,
    b: BattleAction,
)
    requires
        step_ok(own, opp, turn_own, a),
        step_ok(own, opp, turn_own, b),
    ensures
        actions_match(a, b),
{
}

/// A terminal state admits no further step.
pub proof fn lemma_terminal_no_step(
    own: Seq<Option<CharacterInstance>>,
    opp: Seq<Option<CharacterInstance>>,
    turn_own: bool,
    a: BattleAction,
)
    requires
        terminal(own, opp),
    ensures
        !step_ok(own, opp, turn_own, a),
{
}

/// The battle is deterministic: two valid traces from one starting state
/// that both end in a terminal state coincide action for action.
pub proof fn lemma_trace_unique(
    own: Seq<Option<CharacterInstance>>,
    opp: Seq<Option<CharacterInstance>>,
    turn_own: bool,
    a_acts: Seq<BattleAction>,
    a_own: Seq<Option<CharacterInstance>>,
    a_opp: Seq<Option<CharacterInstance>>,
    a_turn: bool,
    b_acts: Seq<BattleAction>,
    b_own: Seq<Option<CharacterInstance>>,
    b_opp: Seq<Option<CharacterInstance>>,
    b_turn: bool,
)
    requires
        valid_trace(own, opp, turn_own, a_acts, a_own, a_opp, a_turn),
        terminal(a_own, a_opp),
        valid_trace(own, opp, turn_own, b_acts, b_own, b_opp, b_turn),
        terminal(b_own, b_opp),
    ensures
        a_acts.len() == b_acts.len(),
        forall|i: int| 0 <= i < a_acts.len() ==> #[trigger] actions_match(a_acts[i], b_acts[i]),
        a_own == b_own,
        a_opp == b_opp,
    decreases a_acts.len() + b_acts.len(),
{
    if a_acts.len() == 0 && b_acts.len() == 0 {
    } else if a_acts.len() == 0 {
        lemma_terminal_no_step(own, opp, turn_own, b_acts[0]);
    } else if b_acts.len() == 0 {
        lemma_terminal_no_step(own, opp, turn_own, a_acts[0]);
    } else {
        lemma_step_deterministic(own, opp, turn_own, a_acts[0], b_acts[0]);
        lemma_trace_unique(
            a_acts[0].result_own@,
            a_acts[0].result_opponent@,
            turn_after(own, opp, turn_own),
            a_acts.drop_first(),
            a_own,
            a_opp,
            a_turn,
            b_acts.drop_first(),
            b_own,
            b_opp,
            b_turn,
        );
        assert forall|i: int| 0 <= i < a_acts.len() implies #[trigger] actions_match(
            a_acts[i],
            b_acts[i],
        ) by {
            if i > 0 {
                assert(actions_match(a_acts.drop_first()[i - 1], b_acts.drop_first()[i - 1]));
                assert(a_acts.drop_first()[i - 1] == a_acts[i]);
                assert(b_acts.drop_first()[i - 1] == b_acts[i]);
            }
        }
    }
}

/// Extends a valid trace by one more valid step.
proof fn lemma_trace_snoc(
    own: Seq<Option<CharacterInstance>>,
    opp: Seq<Option<CharacterInstance>>,
    turn_own: bool,
    actions: Seq<BattleAction>,
    m_own: Seq<Option<CharacterInstance>>,
    m_opp: Seq<Option<CharacterInstance>>,
    m_turn: bool,
    a: BattleAction,
)
    requires
        valid_trace(own, opp, turn_own, actions, m_own, m_opp, m_turn),
        step_ok(m_own, m_opp, m_turn, a),
    ensures
        valid_trace(
            own,
            opp,
            turn_own,
            actions.push(a),
            a.result_own@,
            a.result_opponent@,
            turn_after(m_own, m_opp, m_turn),
        ),
    decreases actions.len(),
{
    if actions.len() == 0 {
        assert(actions.push(a)[0] == a);
        assert(actions.push(a).drop_first() =~= Seq::<BattleAction>::empty());
        assert(m_own == own && m_opp == opp && m_turn == turn_own);
        assert(valid_trace(
            a.result_own@,
            a.result_opponent@,
            turn_after(own, opp, turn_own),
            Seq::<BattleAction>::empty(),
            a.result_own@,
            a.result_opponent@,
            turn_after(m_own, m_opp, m_turn),
        ));
    } else {
        lemma_trace_snoc(
            actions[0].result_own@,
            actions[0].result_opponent@,
            turn_after(own, opp, turn_own),
            actions.drop_first(),
            m_own,
            m_opp,
            m_turn,
            a,
        );
        assert(actions.push(a)[0] == actions[0]);
        assert(actions.push(a).drop_first() =~= actions.drop_first().push(a));
    }
}

/// A copy of a board, slot for slot.
fn copy_board(b: &Vec<Option<CharacterInstance>>) -> (r: Vec<Option<CharacterInstance>>)
    ensures
        r@ == b@,
{
    let mut r: Vec<Option<CharacterInstance>> = Vec::new();
    let mut i: usize = 0;
    while i < b.len()
        invariant
            i <= b.len(),
            r@ == b@.take(i as int),
        decreases b.len() - i,
    {
        proof {
            assert(b@.take(i + 1 as int).drop_last() =~= b@.take(i as int));
            assert(b@.take(i + 1 as int).last() == b@[i as int]);
        }
        r.push(b[i]);
        proof {
            assert(r@ =~= b@.take(i + 1 as int));
        }
        i = i + 1;
    }
    proof {
        assert(b@.take(b@.len() as int) =~= b@);
    }
    r
}

/// The lowest occupied index of a board, if any.
fn find_occupied(b: &Vec<Option<CharacterInstance>>) -> (r: Option<usize>)
    ensures
        match r {
            Some(i) => first_occupied(b@) == Some(i as int) && i < b.len() && b@[i as int] is Some,
            None => first_occupied(b@) is None,
        },
{
    let mut i: usize = 0;
    while i < b.len()
        invariant
            i <= b.len(),
            first_occupied(b@) == first_occupied_from(b@, i as int),
        decreases b.len() - i,
    {
        if b[i].is_some() {
            return Some(i);
        }
        i = i + 1;
    }
    None
}

/// The lowest index of a unit with no health left, if any.
fn find_dead(b: &Vec<Option<CharacterInstance>>) -> (r: Option<usize>)
    ensures
        match r {
            Some(i) => first_dead(b@) == Some(i as int) && i < b.len() && b@[i as int] is Some,
            None => first_dead(b@) is None,
        },
{
    let mut i: usize = 0;
    while i < b.len()
        invariant
            i <= b.len(),
            first_dead(b@) == first_dead_from(b@, i as int),
        decreases b.len() - i,
    {
        let dead: bool = match &b[i] {
            Some(c) => c.get_total_health() <= 0,
            None => false,
        };
        if dead {
            return Some(i);
        }
        i = i + 1;
    }
    None
}

/// The unit after an exec strike, equal to the spec-level `damage_unit`.
fn damage_exec(c: &CharacterInstance, dmg: i32) -> (r: CharacterInstance)
    ensures
        r == damage_unit(*c, dmg as int),
{
    let wide: i64 = c.health as i64 - dmg as i64;
    CharacterInstance { health: crate::clamp_to_i32(wide), ..*c }
}

/// Resolves a battle between two boards into an ordered action queue.
/// The queue follows the deterministic step relation from the starting
/// boards (the own side moves first) to the final boards, and it stops
/// only in a terminal state — one side wiped out — unless the action cap
/// cuts a stalemate short.
pub fn resolve_battle(
    own_start: &Vec<Option<CharacterInstance>>,
    opp_start: &Vec<Option<CharacterInstance>>,
) -> (r: BattleResponse)
    ensures
        r.start_own@ == own_start@,
        r.start_opponent@ == opp_start@,
        r.actions.len() <= MAX_BATTLE_ACTIONS,
        resolved_trace(own_start@, opp_start@, r.actions@, r.final_own@, r.final_opponent@),
        terminal(r.final_own@, r.final_opponent@) || r.actions.len() == MAX_BATTLE_ACTIONS,
{
    let mut own: Vec<Option<CharacterInstance>> = copy_board(own_start);
    let mut opp: Vec<Option<CharacterInstance>> = copy_board(opp_start);
    let mut turn_own: bool = true;
    let mut actions: Vec<BattleAction> = Vec::new();
    while actions.len() < MAX_BATTLE_ACTIONS
        invariant_except_break
            actions.len() <= MAX_BATTLE_ACTIONS,
            valid_trace(own_start@, opp_start@, true, actions@, own@, opp@, turn_own),
        ensures
            actions.len() <= MAX_BATTLE_ACTIONS,
            valid_trace(own_start@, opp_start@, true, actions@, own@, opp@, turn_own),
            terminal(own@, opp@) || actions.len() == MAX_BATTLE_ACTIONS,
        decreases MAX_BATTLE_ACTIONS - actions.len(),
    {
        let ghost m_own = own@;
        let ghost m_opp = opp@;
        let ghost m_turn = turn_own;
        match find_dead(&own) {
            Some(i) => {
                let victim: CharacterInstance = match own[i] {
                    Some(c) => c,
                    None => {
                        proof {
                            assert(false);
                        }
                        return BattleResponse {
                            start_own: copy_board(own_start),
                            start_opponent: copy_board(opp_start),
                            actions: Vec::new(),
                            final_own: own,
                            final_opponent: opp,
                        };
                    },
                };
                own.set(i, None);
                let a = BattleAction {
                    action: BattleActionType::Die,
                    source: victim.id,
                    target: None,
                    result_own: copy_board(&own),
                    result_opponent: copy_board(&opp),
                };
                proof {
                    assert(step_ok(m_own, m_opp, m_turn, a));
                    lemma_trace_snoc(
                        own_start@,
                        opp_start@,
                        true,
                        actions@,
                        m_own,
                        m_opp,
                        m_turn,
                        a,
                    );
                }
                actions.push(a);
            },
            None => {
                match find_dead(&opp) {
                    Some(i) => {
                        let victim: CharacterInstance = match opp[i] {
                            Some(c) => c,
                            None => {
                                proof {
                                    assert(false);
                                }
                                return BattleResponse {
                                    start_own: copy_board(own_start),
                                    start_opponent: copy_board(opp_start),
                                    actions: Vec::new(),
                                    final_own: own,
                                    final_opponent: opp,
                                };
                            },
                        };
                        opp.set(i, None);
                        let a = BattleAction {
                            action: BattleActionType::Die,
                            source: victim.id,
                            target: None,
                            result_own: copy_board(&own),
                            result_opponent: copy_board(&opp),
                        };
                        proof {
                            assert(step_ok(m_own, m_opp, m_turn, a));
                            lemma_trace_snoc(
                                own_start@,
                                opp_start@,
                                true,
                                actions@,
                                m_own,
                                m_opp,
                                m_turn,
                                a,
                            );
                        }
                        actions.push(a);
                    },
                    None => {
                        let oi: usize;
                        let pi: usize;
                        match (find_occupied(&own), find_occupied(&opp)) {
                            (Some(a), Some(b)) => {
                                oi = a;
                                pi = b;
                            },
                            _ => {
                                break ;
                            },
                        }
                        let ou: CharacterInstance = match own[oi] {
                            Some(c) => c,
                            None => {
                                proof {
                                    assert(false);
                                }
                                break ;
                            },
                        };
                        let pu: CharacterInstance = match opp[pi] {
                            Some(c) => c,
                            None => {
                                proof {
                                    assert(false);
                                }
                                break ;
                            },
                        };
                        let ou_atk: i32 = ou.get_total_attack();
                        let pu_atk: i32 = pu.get_total_attack();
                        let new_ou = damage_exec(&ou, pu_atk);
                        let new_pu = damage_exec(&pu, ou_atk);
                        own.set(oi, Some(new_ou));
                        opp.set(pi, Some(new_pu));
                        let a = BattleAction {
                            action: BattleActionType::Attack,
                            source: if turn_own {
                                ou.id
                            } else {
                                pu.id
                            },
                            target: if turn_own {
                                Some(pu.id)
                            } else {
                                Some(ou.id)
                            },
                            result_own: copy_board(&own),
                            result_opponent: copy_board(&opp),
                        };
                        proof {
                            assert(step_ok(m_own, m_opp, m_turn, a));
                            lemma_trace_snoc(
                                own_start@,
                                opp_start@,
                                true,
                                actions@,
                                m_own,
                                m_opp,
                                m_turn,
                                a,
                            );
                        }
                        actions.push(a);
                        turn_own = !turn_own;
                    },
                }
            },
        }
    }
    let final_own = copy_board(&own);
    let final_opp = copy_board(&opp);
    proof {
        assert(valid_trace(own_start@, opp_start@, true, actions@, final_own@, final_opp@, turn_own));
        assert(resolved_trace(own_start@, opp_start@, actions@, final_own@, final_opp@)) by {
            let ft = turn_own;
            assert(valid_trace(own_start@, opp_start@, true, actions@, final_own@, final_opp@, ft));
        };
    }
    BattleResponse {
        start_own: copy_board(own_start),
        start_opponent: copy_board(opp_start),
        actions,
        final_own,
        final_opponent: final_opp,
    }
}

} // verus!
