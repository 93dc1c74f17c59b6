//! The static tables of purchasable units, gods and spells.  Loaded once
//! at process start by the shell and passed by reference; never mutated.
use vstd::prelude::*;

use crate::ability::Ability;
use crate::spell::Spell;

verus! {

/// Bound on a catalog entry's base attack and health, so that derived
/// stats (an upgraded unit doubles them) stay far from overflow.
pub const STAT_LIMIT: i32 = 10000;

/// An immutable catalog row describing a purchasable unit.
#[derive(Debug)]
pub struct UnitDefinition {
    /// Equals the entry's index in the catalog's unit table.
    pub id: i32,
    pub name: String,
    /// Cost tier; the unit appears in shops of rosters at this level or above.
    pub cost: u8,
    pub attack: i32,
    pub health: i32,
    pub abilities: Vec<Ability>,
}

impl UnitDefinition {
    /// Base stats lie in `[0, STAT_LIMIT]`.
    pub open spec fn wf(self) -> bool {
        &&& 0 <= self.attack <= STAT_LIMIT
        &&& 0 <= self.health <= STAT_LIMIT
    }
}

/// An immutable catalog row describing a god (avatar) a player may pick.
#[derive(Debug)]
pub struct God {
    pub id: i32,
    pub name: String,
    pub description: String,
    pub pantheon: String,
}

/// The read-only tables the core draws units, spells and gods from.
#[derive(Debug)]
pub struct Catalog {
    pub units: Vec<UnitDefinition>,
    pub spells: Vec<Spell>,
    pub gods: Vec<God>,
}

impl Catalog {
    /// Every unit entry is well formed and sits at the index its id names,
    /// so a unit instance's `character_id` leads back to its definition.
    pub open spec fn wf(self) -> bool {
        &&& self.units.len() <= i32::MAX
        &&& forall|i: int|
            0 <= i < self.units.len() ==> (#[trigger] self.units@[i]).id == i
                && self.units@[i].wf()
    }
}

} // verus!
