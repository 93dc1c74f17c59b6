//! The rotating pool of purchasable units and spells offered to a roster.
//! A locked shop survives the next refresh: its remaining offers are kept
//! and only the missing slots are topped up; an unlocked shop is replaced.
use vstd::prelude::*;
use vstd::pervasive::VecAdditionalExecFns;

use crate::catalog::Catalog;
use crate::catalog::UnitDefinition;
use crate::character::CharacterInstance;
use crate::min_int;
use crate::rng;
use crate::spell::Spell;
use crate::SHOP_SIZE;
use crate::SHOP_SPELL_SIZE;

verus! {

/// Units in the prefix whose cost tier is within the given level.
pub open spec fn count_eligible_units(units: Seq<UnitDefinition>, lvl: u8) -> int
    decreases units.len(),
{
    if units.len() == 0 {
        0
    } else {
        count_eligible_units(units.drop_last(), lvl) + if units.last().cost <= lvl {
            1int
        } else {
            0int
        }
    }
}

/// Spells in the prefix whose required level is within the given level.
pub open spec fn count_eligible_spells(spells: Seq<Spell>, lvl: u8) -> int
    decreases spells.len(),
{
    if spells.len() == 0 {
        0
    } else {
        count_eligible_spells(spells.drop_last(), lvl) + if spells.last().lvl <= lvl {
            1int
        } else {
            0int
        }
    }
}

/// The occupied slots of a shop row, in order.
pub open spec fn kept_slots<T>(s: Seq<Option<T>>) -> Seq<Option<T>>
    decreases s.len(),
{
    if s.len() == 0 {
        Seq::empty()
    } else {
        kept_slots(s.drop_last()) + if s.last() is Some {
            seq![s.last()]
        } else {
            Seq::empty()
        }
    }
}

/// A fresh, unupgraded, bonus-free instance of a catalog unit whose cost
/// tier is within the given level.
pub open spec fn is_unit_offer(c: CharacterInstance, catalog: Catalog, lvl: u8) -> bool {
    &&& 0 <= c.character_id < catalog.units.len()
    &&& c.cost == catalog.units@[c.character_id as int].cost
    &&& c.cost <= lvl
    &&& !c.upgraded
    &&& c.attack == catalog.units@[c.character_id as int].attack
    &&& c.health == catalog.units@[c.character_id as int].health
    &&& c.attack_bonus == 0
    &&& c.health_bonus == 0
    &&& c.temp_attack_bonus == 0
    &&& c.temp_health_bonus == 0
}

/// A copy of some catalog spell whose required level is within the level.
pub open spec fn is_spell_offer(s: Spell, catalog: Catalog, lvl: u8) -> bool {
    &&& s.lvl <= lvl
    &&& exists|j: int| 0 <= j < catalog.spells.len() && s.matches(#[trigger] catalog.spells@[j])
}

/// The per-roster pool of purchasable units and spells.
#[derive(Debug)]
pub struct Shop {
    pub characters: Vec<Option<CharacterInstance>>,
    pub spells: Vec<Option<Spell>>,
    pub locked: bool,
}

impl Shop {
    /// The rows never outgrow the shop's fixed capacities.
    pub open spec fn wf(self) -> bool {
        &&& self.characters.len() <= SHOP_SIZE
        &&& self.spells.len() <= SHOP_SPELL_SIZE
    }

    /// Every occupied slot offers something drawn from the catalog at the
    /// given level.
    pub open spec fn offers_at(self, catalog: Catalog, lvl: u8) -> bool {
        &&& forall|i: int|
            0 <= i < self.characters.len() ==> ((#[trigger] self.characters@[i]) matches Some(c)
                ==> is_unit_offer(c, catalog, lvl))
        &&& forall|i: int|
            0 <= i < self.spells.len() ==> ((#[trigger] self.spells@[i]) matches Some(s)
                ==> is_spell_offer(s, catalog, lvl))
    }

    /// A freshly rolled shop: unlocked, every slot occupied, and as many
    /// unit and spell offers as the capacities and the eligible catalog
    /// rows allow.
    pub open spec fn fresh_at(self, catalog: Catalog, lvl: u8) -> bool {
        &&& !self.locked
        &&& self.characters.len() == min_int(
            SHOP_SIZE as int,
            count_eligible_units(catalog.units@, lvl),
        )
        &&& self.spells.len() == min_int(
            SHOP_SPELL_SIZE as int,
            count_eligible_spells(catalog.spells@, lvl),
        )
        &&& forall|i: int| 0 <= i < self.characters.len() ==> (#[trigger] self.characters@[i]) is Some
        &&& forall|i: int| 0 <= i < self.spells.len() ==> (#[trigger] self.spells@[i]) is Some
        &&& self.offers_at(catalog, lvl)
    }

    /// A shop refilled from `prev`: the occupied slots of `prev` stay as a
    /// prefix, in order, only the missing slots were topped up with offers
    /// at the given level, and the lock is cleared.
    pub open spec fn refilled_from(self, prev: Shop, catalog: Catalog, lvl: u8) -> bool {
        &&& !self.locked
        &&& self.characters@.take(kept_slots(prev.characters@).len() as int) == kept_slots(
            prev.characters@,
        )
        &&& self.characters.len() == kept_slots(prev.characters@).len() + min_int(
            SHOP_SIZE - kept_slots(prev.characters@).len(),
            count_eligible_units(catalog.units@, lvl),
        )
        &&& forall|i: int|
            kept_slots(prev.characters@).len() <= i < self.characters.len()
                ==> ((#[trigger] self.characters@[i]) matches Some(c) && is_unit_offer(
                c,
                catalog,
                lvl,
            ))
        &&& self.spells@.take(kept_slots(prev.spells@).len() as int) == kept_slots(prev.spells@)
        &&& self.spells.len() == kept_slots(prev.spells@).len() + min_int(
            SHOP_SPELL_SIZE - kept_slots(prev.spells@).len(),
            count_eligible_spells(catalog.spells@, lvl),
        )
        &&& forall|i: int|
            kept_slots(prev.spells@).len() <= i < self.spells.len()
                ==> ((#[trigger] self.spells@[i]) matches Some(s) && is_spell_offer(
                s,
                catalog,
                lvl,
            ))
    }

    /// A full, unlocked shop rolled for the given level: as many unit and
    /// spell offers as the capacities and the eligible catalog rows allow.
    pub fn new(catalog: &Catalog, lvl: u8) -> (r: Shop)
        requires
            catalog.wf(),
        ensures
            r.wf(),
            r.fresh_at(*catalog, lvl),
    {
        Shop {
            characters: Shop::get_new_characters(catalog, SHOP_SIZE, lvl),
            spells: Shop::get_new_spells(catalog, SHOP_SPELL_SIZE, lvl),
            locked: false,
        }
    }

    /// Keeps the purchased-but-unsold offers, tops up only the missing
    /// slots at the given level, and clears the lock.
    pub fn fill(&mut self, catalog: &Catalog, lvl: u8)
        requires
            old(self).wf(),
            catalog.wf(),
        ensures
            final(self).wf(),
            final(self).refilled_from(*old(self), *catalog, lvl),
    {
        proof {
            lemma_kept_slots_len(old(self).characters@);
            lemma_kept_slots_len(old(self).spells@);
        }
        // Keep the occupied unit slots, in order.
        let mut kept_c: Vec<Option<CharacterInstance>> = Vec::new();
        let mut i: usize = 0;
        while i < self.characters.len()
            invariant
                i <= self.characters.len(),
                kept_c@ == kept_slots(self.characters@.take(i as int)),
            decreases self.characters.len() - i,
        {
            proof {
                assert(self.characters@.take(i + 1 as int).drop_last() =~= self.characters@.take(
                    i as int,
                ));
            }
            let slot: Option<CharacterInstance> = self.characters[i];
            if slot.is_some() {
                kept_c.push(slot);
            }
            i = i + 1;
        }
        proof {
            assert(self.characters@.take(self.characters@.len() as int) =~= self.characters@);
            lemma_kept_slots_len(self.characters@);
        }
        // Keep the occupied spell slots, in order, moving them out.
        let mut old_s: Vec<Option<Spell>> = Vec::new();
        core::mem::swap(&mut self.spells, &mut old_s);
        let ghost orig_s = old_s@;
        let mut kept_s: Vec<Option<Spell>> = Vec::new();
        let mut j: usize = 0;
        let n_s: usize = old_s.len();
        while j < n_s
            invariant
                j <= n_s,
                n_s == old_s.len(),
                n_s == orig_s.len(),
                forall|p: int| j <= p < n_s ==> old_s@[p] == orig_s[p],
                kept_s@ == kept_slots(orig_s.take(j as int)),
            decreases n_s - j,
        {
            proof {
                assert(orig_s.take(j + 1 as int).drop_last() =~= orig_s.take(j as int));
            }
            let mut slot: Option<Spell> = None;
            old_s.set_and_swap(j, &mut slot);
            if slot.is_some() {
                kept_s.push(slot);
            }
            j = j + 1;
        }
        proof {
            assert(orig_s.take(orig_s.len() as int) =~= orig_s);
            lemma_kept_slots_len(orig_s);
        }
        // Top up only what is missing.
        let missing_c: usize = SHOP_SIZE - kept_c.len();
        let mut new_c: Vec<Option<CharacterInstance>> = Shop::get_new_characters(
            catalog,
            missing_c,
            lvl,
        );
        let ghost kept_c_view = kept_c@;
        kept_c.append(&mut new_c);
        self.characters = kept_c;
        let missing_s: usize = SHOP_SPELL_SIZE - kept_s.len();
        let mut new_s: Vec<Option<Spell>> = Shop::get_new_spells(catalog, missing_s, lvl);
        let ghost kept_s_view = kept_s@;
        kept_s.append(&mut new_s);
        self.spells = kept_s;
        self.locked = false;
        proof {
            assert(final(self).characters@.take(kept_c_view.len() as int) =~= kept_c_view);
            assert(final(self).spells@.take(kept_s_view.len() as int) =~= kept_s_view);
        }
    }

    /// Draws up to `count` fresh unit offers whose cost tier is within the
    /// level: a uniform random sample, without replacement, of the eligible
    /// catalog units.  A small catalog yields fewer offers, never an error.
    pub fn get_new_characters(catalog: &Catalog, count: usize, lvl: u8) -> (r: Vec<
        Option<CharacterInstance>,
    >)
        requires
            catalog.wf(),
        ensures
            r.len() == min_int(count as int, count_eligible_units(catalog.units@, lvl)),
            forall|i: int| 0 <= i < r.len() ==> (#[trigger] r@[i]) is Some,
            forall|i: int|
                0 <= i < r.len() ==> ((#[trigger] r@[i]) matches Some(c) ==> is_unit_offer(
                    c,
                    *catalog,
                    lvl,
                )),
    {
        let mut eligible: Vec<usize> = Vec::new();
        let mut i: usize = 0;
        while i < catalog.units.len()
            invariant
                i <= catalog.units.len(),
                catalog.wf(),
                eligible.len() == count_eligible_units(catalog.units@.take(i as int), lvl),
                forall|k: int|
                    0 <= k < eligible.len() ==> (#[trigger] eligible@[k]) < catalog.units.len()
                        && catalog.units@[eligible@[k] as int].cost <= lvl,
            decreases catalog.units.len() - i,
        {
            proof {
                assert(catalog.units@.take(i + 1 as int).drop_last() =~= catalog.units@.take(
                    i as int,
                ));
            }
            if catalog.units[i].cost <= lvl {
                eligible.push(i);
            }
            i = i + 1;
        }
        proof {
            assert(catalog.units@.take(catalog.units@.len() as int) =~= catalog.units@);
            lemma_count_eligible_units_bound(catalog.units@, lvl);
        }
        let picks: Vec<usize> = rng::sample_indices(eligible.len(), count);
        let mut out: Vec<Option<CharacterInstance>> = Vec::new();
        let mut k: usize = 0;
        while k < picks.len()
            invariant
                k <= picks.len(),
                catalog.wf(),
                out.len() == k,
                forall|p: int| 0 <= p < picks.len() ==> (#[trigger] picks@[p]) < eligible.len(),
                forall|p: int|
                    0 <= p < eligible.len() ==> (#[trigger] eligible@[p]) < catalog.units.len()
                        && catalog.units@[eligible@[p] as int].cost <= lvl,
                forall|p: int| 0 <= p < out.len() ==> (#[trigger] out@[p]) is Some,
                forall|p: int|
                    0 <= p < out.len() ==> ((#[trigger] out@[p]) matches Some(c) ==> is_unit_offer(
                        c,
                        *catalog,
                        lvl,
                    )),
            decreases picks.len() - k,
        {
            let idx: usize = eligible[picks[k]];
            let inst = CharacterInstance::from_entry(&catalog.units[idx], false);
            out.push(Some(inst));
            k = k + 1;
        }
        out
    }

    /// Draws up to `count` fresh spell offers whose required level is
    /// within the level, sampled uniformly without replacement from the
    /// eligible catalog spells.
    pub fn get_new_spells(catalog: &Catalog, count: usize, lvl: u8) -> (r: Vec<Option<Spell>>)
        requires
            catalog.wf(),
        ensures
            r.len() == min_int(count as int, count_eligible_spells(catalog.spells@, lvl)),
            forall|i: int| 0 <= i < r.len() ==> (#[trigger] r@[i]) is Some,
            forall|i: int|
                0 <= i < r.len() ==> ((#[trigger] r@[i]) matches Some(s) ==> is_spell_offer(
                    s,
                    *catalog,
                    lvl,
                )),
    {
        let mut eligible: Vec<usize> = Vec::new();
        let mut i: usize = 0;
        while i < catalog.spells.len()
            invariant
                i <= catalog.spells.len(),
                eligible.len() == count_eligible_spells(catalog.spells@.take(i as int), lvl),
                forall|k: int|
                    0 <= k < eligible.len() ==> (#[trigger] eligible@[k]) < catalog.spells.len()
                        && catalog.spells@[eligible@[k] as int].lvl <= lvl,
            decreases catalog.spells.len() - i,
        {
            proof {
                assert(catalog.spells@.take(i + 1 as int).drop_last() =~= catalog.spells@.take(
                    i as int,
                ));
            }
            if catalog.spells[i].lvl <= lvl {
                eligible.push(i);
            }
            i = i + 1;
        }
        proof {
            assert(catalog.spells@.take(catalog.spells@.len() as int) =~= catalog.spells@);
            lemma_count_eligible_spells_bound(catalog.spells@, lvl);
        }
        let picks: Vec<usize> = rng::sample_indices(eligible.len(), count);
        let mut out: Vec<Option<Spell>> = Vec::new();
        let mut k: usize = 0;
        while k < picks.len()
            invariant
                k <= picks.len(),
                out.len() == k,
                forall|p: int| 0 <= p < picks.len() ==> (#[trigger] picks@[p]) < eligible.len(),
                forall|p: int|
                    0 <= p < eligible.len() ==> (#[trigger] eligible@[p]) < catalog.spells.len()
                        && catalog.spells@[eligible@[p] as int].lvl <= lvl,
                forall|p: int| 0 <= p < out.len() ==> (#[trigger] out@[p]) is Some,
                forall|p: int|
                    0 <= p < out.len() ==> ((#[trigger] out@[p]) matches Some(s) ==> is_spell_offer(
                        s,
                        *catalog,
                        lvl,
                    )),
            decreases picks.len() - k,
        {
            let idx: usize = eligible[picks[k]];
            let sp: Spell = catalog.spells[idx].clone();
            out.push(Some(sp));
            k = k + 1;
        }
        out
    }
}

impl Default for Shop {
    /// An empty, unlocked shop.
    fn default() -> (r: Shop)
        ensures
            r.characters.len() == 0,
            r.spells.len() == 0,
            !r.locked,
            r.wf(),
    {
        Shop { characters: Vec::new(), spells: Vec::new(), locked: false }
    }
}

/// The kept slots of a row are never more numerous than the row.
pub proof fn lemma_kept_slots_len<T>(s: Seq<Option<T>>)
    ensures
        0 <= kept_slots(s).len() <= s.len(),
    decreases s.len(),
{
    if s.len() > 0 {
        lemma_kept_slots_len(s.drop_last());
    }
}

/// Every kept slot comes from some slot of the original row.
pub proof fn lemma_kept_slots_membership<T>(s: Seq<Option<T>>, k: int)
    requires
        0 <= k < kept_slots(s).len(),
    ensures
        exists|j: int| 0 <= j < s.len() && kept_slots(s)[k] == #[trigger] s[j],
    decreases s.len(),
{
    lemma_kept_slots_len(s);
    if s.len() > 0 {
        if k < kept_slots(s.drop_last()).len() {
            lemma_kept_slots_membership(s.drop_last(), k);
            let j = choose|j: int|
                0 <= j < s.drop_last().len() && kept_slots(s.drop_last())[k] == #[trigger] s.drop_last()[j];
            assert(kept_slots(s)[k] == s[j]);
        } else {
            assert(kept_slots(s)[k] == s[s.len() - 1]);
        }
    }
}

/// The eligible units are never more numerous than the catalog.
pub proof fn lemma_count_eligible_units_bound(units: Seq<UnitDefinition>, lvl: u8)
    ensures
        0 <= count_eligible_units(units, lvl) <= units.len(),
    decreases units.len(),
{
    if units.len() > 0 {
        lemma_count_eligible_units_bound(units.drop_last(), lvl);
    }
}

/// The eligible spells are never more numerous than the catalog.
pub proof fn lemma_count_eligible_spells_bound(spells: Seq<Spell>, lvl: u8)
    ensures
        0 <= count_eligible_spells(spells, lvl) <= spells.len(),
    decreases spells.len(),
{
    if spells.len() > 0 {
        lemma_count_eligible_spells_bound(spells.drop_last(), lvl);
    }
}

} // verus!
