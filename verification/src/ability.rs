//! Abilities: a trigger, a target selector and an effect, with value
//! expressions that are plain integers or percentages of a unit's stats.
use vstd::prelude::*;

use crate::character::CharacterInstance;
use crate::clip_i32;
use crate::div100_trunc;

verus! {

/// When an ability fires.
#[derive(Clone, Copy, Debug)]
pub enum AbilityTrigger {
    /// Cast at the moment the carrying spell or unit is bought.
    OnBuy,
    /// Cast when a battle round begins.
    OnBattleStart,
}

/// Which board slots an ability affects.
#[derive(Clone, Copy, Debug)]
pub enum AbilityTarget {
    /// The slot named explicitly by the caster.
    SelfTarget,
    /// One uniformly random occupied slot of the caster's board.
    AllyTarget,
    /// Every occupied slot of the caster's board.
    AllAllyTarget,
    /// Every occupied slot the caster can reach.
    AllTarget,
    /// A slot of the opposing board; nothing on the caster's own board.
    EnemyTarget,
}

/// A value expression: either a plain amount, or a percentage of the
/// resolved target's health or attack, truncated toward zero.
#[derive(Clone, Copy, Debug)]
pub enum AbilityValue {
    Plain(i32),
    PercentHealth(i32),
    PercentTargetHealth(i32),
    PercentMaxHealth(i32),
    PercentTargetMaxHealth(i32),
    PercentAttack(i32),
    PercentTargetAttack(i32),
    PercentMaxAttack(i32),
    PercentTargetMaxAttack(i32),
}

/// What an ability does to each resolved target.  Only `Buff` is modelled;
/// casting any other effect fails with `GameError::UnimplementedEffect`.
#[derive(Clone, Copy, Debug)]
pub enum AbilityEffect {
    /// Adds an attack and a health delta to the target, permanently when the
    /// flag is set and otherwise until the next battle boundary.
    Buff(Option<AbilityValue>, Option<AbilityValue>, bool),
    Summon(i32),
    Transform(i32),
    SetStats(Option<AbilityValue>, Option<AbilityValue>),
    Damage(Option<AbilityValue>),
    Silence(i32),
    Stun(i32),
    Stealth,
    Taunt(i32),
    Ranged,
    Flying,
    FirstStrike,
}

/// A triggerable effect attached to a spell or unit.
#[derive(Clone, Copy, Debug)]
pub struct Ability {
    pub trigger: AbilityTrigger,
    pub target: AbilityTarget,
    pub effect: AbilityEffect,
}

/// The amount an optional ability value resolves to against a target:
/// zero when absent, the plain amount, or the given percentage of the
/// target's total health or attack with the quotient truncated toward
/// zero and the result clamped into `i32`.
pub open spec fn amount_spec(value: Option<AbilityValue>, target: CharacterInstance) -> int {
    match value {
        None => 0,
        Some(v) => match v {
            AbilityValue::Plain(p) => p as int,
            AbilityValue::PercentHealth(p)
            | AbilityValue::PercentTargetHealth(p)
            | AbilityValue::PercentMaxHealth(p)
            | AbilityValue::PercentTargetMaxHealth(p) => clip_i32(
                div100_trunc(clip_i32(target.total_health_int()) * p),
            ),
            AbilityValue::PercentAttack(p)
            | AbilityValue::PercentTargetAttack(p)
            | AbilityValue::PercentMaxAttack(p)
            | AbilityValue::PercentTargetMaxAttack(p) => clip_i32(
                div100_trunc(clip_i32(target.total_attack_int()) * p),
            ),
        },
    }
}

/// Resolves an optional ability value against a target unit.
pub fn calculate_amount(value: &Option<AbilityValue>, target: &CharacterInstance) -> (r: i32)
    ensures
        r as int == amount_spec(*value, *target),
{
    match value {
        None => 0,
        Some(v) => {
            let base: i32 = match v {
                AbilityValue::Plain(p) => {
                    return *p;
                },
                AbilityValue::PercentHealth(_)
                | AbilityValue::PercentTargetHealth(_)
                | AbilityValue::PercentMaxHealth(_)
                | AbilityValue::PercentTargetMaxHealth(_) => target.get_total_health(),
                AbilityValue::PercentAttack(_)
                | AbilityValue::PercentTargetAttack(_)
                | AbilityValue::PercentMaxAttack(_)
                | AbilityValue::PercentTargetMaxAttack(_) => target.get_total_attack(),
            };
            let percent: i32 = match v {
                AbilityValue::Plain(p) => *p,
                AbilityValue::PercentHealth(p)
                | AbilityValue::PercentTargetHealth(p)
                | AbilityValue::PercentMaxHealth(p)
                | AbilityValue::PercentTargetMaxHealth(p) => *p,
                AbilityValue::PercentAttack(p)
                | AbilityValue::PercentTargetAttack(p)
                | AbilityValue::PercentMaxAttack(p)
                | AbilityValue::PercentTargetMaxAttack(p) => *p,
            };
            percent_of(base, percent)
        },
    }
}

/// `base * percent / 100` with the division truncated toward zero and the
/// result clamped into the `i32` range.
fn percent_of(base: i32, percent: i32) -> (r: i32)
    ensures
        r as int == clip_i32(div100_trunc(base * percent)),
{
    proof {
        assert(-0x4000_0000_0000_0000 <= base * percent <= 0x4000_0000_0000_0000)
            by (nonlinear_arith)
            requires
                i32::MIN <= base <= i32::MAX,
                i32::MIN <= percent <= i32::MAX,
        ;
    }
    let wide: i64 = (base as i64) * (percent as i64);
    let q: i64 = match wide.checked_div(100) {
        Some(q) => q,
        None => 0,
    };
    assert(q as int == div100_trunc(base * percent)) by {
        let x = wide as int;
        assert(x == base * percent);
        if x >= 0 {
            assert(q == x / 100);
        } else {
            assert(q == ((x * -1) / 100) * -1);
            assert((x * -1) == -x);
            assert(q == -((-x) / 100));
        }
    };
    crate::clamp_to_i32(q)
}

} // verus!
