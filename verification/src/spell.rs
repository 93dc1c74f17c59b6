//! A consumable spell: a catalog definition that moves unchanged from the
//! catalog into a shop slot and from there into a roster's inventory.
use vstd::prelude::*;

use crate::ability::Ability;

verus! {

/// A purchasable spell with its cost, the level it unlocks at, and the
/// abilities it casts.
#[derive(Debug)]
pub struct Spell {
    pub id: i32,
    pub name: String,
    pub description: String,
    pub cost: u8,
    pub lvl: u8,
    pub abilities: Vec<Ability>,
}

impl Spell {
    /// Field-for-field agreement; the ability lists agree as sequences.
    /// Used instead of `==` because two equal ability vectors need not be
    /// one spec-level object.
    pub open spec fn matches(self, other: Spell) -> bool {
        &&& self.id == other.id
        &&& self.name@ == other.name@
        &&& self.description@ == other.description@
        &&& self.cost == other.cost
        &&& self.lvl == other.lvl
        &&& self.abilities@ == other.abilities@
    }
}

impl Clone for Spell {
    /// The clone agrees with the original on every field.
    fn clone(&self) -> (r: Spell)
        ensures
            r.matches(*self),
    {
        Spell {
            id: self.id,
            name: self.name.clone(),
            description: self.description.clone(),
            cost: self.cost,
            lvl: self.lvl,
            abilities: copy_abilities(&self.abilities),
        }
    }
}

/// Copies an ability list element by element.
pub(crate) fn copy_abilities(v: &Vec<Ability>) -> (r: Vec<Ability>)
    ensures
        r@ == v@,
{
    let mut r: Vec<Ability> = Vec::new();
    let mut i: usize = 0;
    while i < v.len()
        invariant
            i <= v.len(),
            r@ == v@.take(i as int),
        decreases v.len() - i,
    {
        r.push(v[i]);
        proof {
            assert(v@.take(i + 1 as int).drop_last() =~= v@.take(i as int));
            assert(r@ =~= v@.take(i + 1 as int));
        }
        i = i + 1;
    }
    proof {
        assert(v@.take(v@.len() as int) =~= v@);
    }
    r
}

} // verus!
