//! A unit placed on a board: a catalog reference plus permanent and
//! temporary stat bonuses.  Total stats are base plus both bonuses,
//! clamped into `i32`.
use vstd::prelude::*;

use crate::catalog::UnitDefinition;
use crate::clip_i32;
use crate::rng;

verus! {

/// One unit standing in a board or shop slot.
#[derive(Clone, Copy, Debug, PartialEq, Eq, Structural)]
pub struct CharacterInstance {
    /// In-memory instance id, fresh and random at creation.
    pub id: u128,
    /// Index of the unit's definition in the catalog.
    pub character_id: i32,
    /// Price in money, copied from the definition's cost tier.
    pub cost: u8,
    /// Whether this unit came out of a three-way merge.
    pub upgraded: bool,
    /// Base attack; doubled relative to the definition when upgraded.
    pub attack: i32,
    /// Base health; doubled relative to the definition when upgraded.
    pub health: i32,
    /// Permanent attack bonus, kept across battles.
    pub attack_bonus: i32,
    /// Permanent health bonus, kept across battles.
    pub health_bonus: i32,
    /// Attack bonus that resets at each battle boundary.
    pub temp_attack_bonus: i32,
    /// Health bonus that resets at each battle boundary.
    pub temp_health_bonus: i32,
}

impl CharacterInstance {
    /// Total attack as an unbounded integer: base plus both bonuses.
    pub open spec fn total_attack_int(self) -> int {
        self.attack + self.attack_bonus + self.temp_attack_bonus
    }

    /// Total health as an unbounded integer: base plus both bonuses.
    pub open spec fn total_health_int(self) -> int {
        self.health + self.health_bonus + self.temp_health_bonus
    }

    /// Total attack, clamped into `i32`.
    pub fn get_total_attack(&self) -> (r: i32)
        ensures
            r as int == clip_i32(self.total_attack_int()),
    {
        let wide: i64 = self.attack as i64 + self.attack_bonus as i64
            + self.temp_attack_bonus as i64;
        crate::clamp_to_i32(wide)
    }

    /// Total health, clamped into `i32`.
    pub fn get_total_health(&self) -> (r: i32)
        ensures
            r as int == clip_i32(self.total_health_int()),
    {
        let wide: i64 = self.health as i64 + self.health_bonus as i64
            + self.temp_health_bonus as i64;
        crate::clamp_to_i32(wide)
    }

    /// A fresh instance of a catalog entry, with a random id, no bonuses,
    /// and base stats doubled when the instance is created upgraded.
    pub fn from_entry(entry: &UnitDefinition, upgraded: bool) -> (r: CharacterInstance)
        requires
            entry.wf(),
        ensures
            r.character_id == entry.id,
            r.cost == entry.cost,
            r.upgraded == upgraded,
            r.attack == if upgraded {
                2 * entry.attack
            } else {
                entry.attack as int
            },
            r.health == if upgraded {
                2 * entry.health
            } else {
                entry.health as int
            },
            r.attack_bonus == 0,
            r.health_bonus == 0,
            r.temp_attack_bonus == 0,
            r.temp_health_bonus == 0,
    {
        CharacterInstance {
            id: rng::fresh_id(),
            character_id: entry.id,
            cost: entry.cost,
            upgraded,
            attack: if upgraded {
                2 * entry.attack
            } else {
                entry.attack
            },
            health: if upgraded {
                2 * entry.health
            } else {
                entry.health
            },
            attack_bonus: 0,
            health_bonus: 0,
            temp_attack_bonus: 0,
            temp_health_bonus: 0,
        }
    }

    /// The same instance with the given permanent attack bonus.
    pub fn with_attack_bonus(self, v: i32) -> (r: CharacterInstance)
        ensures
            r == (CharacterInstance { attack_bonus: v, ..self }),
    {
        CharacterInstance { attack_bonus: v, ..self }
    }

    /// The same instance with the given permanent health bonus.
    pub fn with_health_bonus(self, v: i32) -> (r: CharacterInstance)
        ensures
            r == (CharacterInstance { health_bonus: v, ..self }),
    {
        CharacterInstance { health_bonus: v, ..self }
    }
}

} // verus!
