//! A roster: one player's board, economy and shop, with every mutating
//! operation transactional — it either fully applies or reports a
//! `GameError` and leaves the roster unchanged.  The one documented
//! exception is `buy_spell`, which commits the purchase before casting the
//! spell's on-buy abilities, as the game's economy defines it to.
use vstd::prelude::*;
use vstd::pervasive::VecAdditionalExecFns;

use crate::ability::Ability;
use crate::ability::AbilityEffect;
use crate::ability::AbilityTarget;
use crate::ability::AbilityTrigger;
use crate::ability::AbilityValue;
use crate::ability::amount_spec;
use crate::ability::calculate_amount;
use crate::catalog::Catalog;
use crate::catalog::God;
use crate::character::CharacterInstance;
use crate::clip_i32;
use crate::rng;
use crate::shop::kept_slots;
use crate::shop::Shop;
use crate::spell::copy_abilities;
use crate::spell::Spell;
use crate::GameError;
use crate::BOARD_SIZE;
use crate::EXP_PER_LVL;
use crate::MAX_LVL;
use crate::MAX_SPELLS;
use crate::START_EXP;
use crate::START_HEALTH;
use crate::START_MONEY;

verus! {

/// The level an experience total grants: experience divided by
/// `EXP_PER_LVL`, clamped at `MAX_LVL`.
pub open spec fn lvl_of(experience: u8) -> u8 {
    if experience / EXP_PER_LVL > MAX_LVL {
        MAX_LVL
    } else {
        experience / EXP_PER_LVL
    }
}

/// The lowest free board index at or after `i`, if any.
pub open spec fn first_free_from(b: Seq<Option<CharacterInstance>>, i: int) -> Option<int>
    decreases b.len() - i,
    when 0 <= i <= b.len()
{
    if i >= b.len() {
        None
    } else if b[i] is None {
        Some(i)
    } else {
        first_free_from(b, i + 1)
    }
}

/// The lowest free board index, if any.
pub open spec fn first_free(b: Seq<Option<CharacterInstance>>) -> Option<int> {
    first_free_from(b, 0)
}

/// How many board slots are occupied.
pub open spec fn occupied_count(b: Seq<Option<CharacterInstance>>) -> int
    decreases b.len(),
{
    if b.len() == 0 {
        0
    } else {
        occupied_count(b.drop_last()) + if b.last() is Some {
            1int
        } else {
            0int
        }
    }
}

/// The units on the board that share the catalog id and are not yet
/// upgraded, in board order: the candidates for a three-way merge.
pub open spec fn upgradeable_of(b: Seq<Option<CharacterInstance>>, cid: i32) -> Seq<
    CharacterInstance,
>
    decreases b.len(),
{
    if b.len() == 0 {
        Seq::empty()
    } else {
        upgradeable_of(b.drop_last(), cid) + match b.last() {
            Some(c) => if c.character_id == cid && !c.upgraded {
                seq![c]
            } else {
                Seq::empty()
            },
            None => Seq::empty(),
        }
    }
}

/// The board with every unit whose instance id is one of the three given
/// ids removed.
pub open spec fn clear3(
    b: Seq<Option<CharacterInstance>>,
    id0: u128,
    id1: u128,
    id2: u128,
) -> Seq<Option<CharacterInstance>> {
    Seq::new(
        b.len(),
        |i: int|
            match b[i] {
                Some(c) => if c.id == id0 || c.id == id1 || c.id == id2 {
                    None
                } else {
                    Some(c)
                },
                None => None,
            },
    )
}

/// Sum of the permanent attack bonuses of the board units whose instance
/// id is one of the three given ids.
pub open spec fn sum_attack3(
    b: Seq<Option<CharacterInstance>>,
    id0: u128,
    id1: u128,
    id2: u128,
) -> int
    decreases b.len(),
{
    if b.len() == 0 {
        0
    } else {
        sum_attack3(b.drop_last(), id0, id1, id2) + match b.last() {
            Some(c) => if c.id == id0 || c.id == id1 || c.id == id2 {
                c.attack_bonus as int
            } else {
                0
            },
            None => 0,
        }
    }
}

/// Sum of the permanent health bonuses of the board units whose instance
/// id is one of the three given ids.
pub open spec fn sum_health3(
    b: Seq<Option<CharacterInstance>>,
    id0: u128,
    id1: u128,
    id2: u128,
) -> int
    decreases b.len(),
{
    if b.len() == 0 {
        0
    } else {
        sum_health3(b.drop_last(), id0, id1, id2) + match b.last() {
            Some(c) => if c.id == id0 || c.id == id1 || c.id == id2 {
                c.health_bonus as int
            } else {
                0
            },
            None => 0,
        }
    }
}

/// The unit after a buff: the attack and health amounts are resolved
/// against the unit itself and added, clamped, to the permanent bonuses
/// when `permanent` holds and to the temporary bonuses otherwise.
pub open spec fn buffed_unit(
    c: CharacterInstance,
    atk: Option<AbilityValue>,
    hp: Option<AbilityValue>,
    permanent: bool,
) -> CharacterInstance {
    let a = amount_spec(atk, c);
    let h = amount_spec(hp, c);
    if permanent {
        CharacterInstance {
            attack_bonus: clip_i32(c.attack_bonus + a) as i32,
            health_bonus: clip_i32(c.health_bonus + h) as i32,
            ..c
        }
    } else {
        CharacterInstance {
            temp_attack_bonus: clip_i32(c.temp_attack_bonus + a) as i32,
            temp_health_bonus: clip_i32(c.temp_health_bonus + h) as i32,
            ..c
        }
    }
}

/// The board with every occupied slot buffed.
pub open spec fn buffed_all(
    b: Seq<Option<CharacterInstance>>,
    atk: Option<AbilityValue>,
    hp: Option<AbilityValue>,
    permanent: bool,
) -> Seq<Option<CharacterInstance>> {
    Seq::new(
        b.len(),
        |i: int|
            match b[i] {
                Some(c) => Some(buffed_unit(c, atk, hp, permanent)),
                None => None,
            },
    )
}

/// Two board slots hold the same unit identity: both empty, or both the
/// same instance with possibly different bonuses.
pub open spec fn same_unit_identity(
    x: Option<CharacterInstance>,
    y: Option<CharacterInstance>,
) -> bool {
    match x {
        Some(c) => match y {
            Some(d) => c.id == d.id && c.character_id == d.character_id && c.cost == d.cost
                && c.upgraded == d.upgraded && c.attack == d.attack && c.health == d.health,
            None => false,
        },
        None => y is None,
    }
}

/// Two boards agree slot for slot on which units stand where; only the
/// bonuses may differ.  This is what an ability cast preserves.
pub open spec fn same_shape(
    a: Seq<Option<CharacterInstance>>,
    b: Seq<Option<CharacterInstance>>,
) -> bool {
    &&& a.len() == b.len()
    &&& forall|i: int| 0 <= i < a.len() ==> same_unit_identity(#[trigger] a[i], #[trigger] b[i])
}

/// Some ability of the spell targets a single ally, so buying it demands
/// an explicit target index.
pub open spec fn wants_ally_target(s: Spell) -> bool {
    exists|i: int| 0 <= i < s.abilities.len() && (#[trigger] s.abilities@[i]).target is AllyTarget
}

/// Everything of a roster but its shop is unchanged.
pub open spec fn eq_but_shop(a: GameInstancePlayer, b: GameInstancePlayer) -> bool {
    &&& a.id == b.id
    &&& a.user_id == b.user_id
    &&& a.display_name == b.display_name
    &&& a.board == b.board
    &&& a.spells == b.spells
    &&& a.god == b.god
    &&& a.god_choices == b.god_choices
    &&& a.health == b.health
    &&& a.money == b.money
    &&& a.experience == b.experience
    &&& a.placement == b.placement
}

/// Everything of a roster but its board is unchanged.
pub open spec fn eq_but_board(a: GameInstancePlayer, b: GameInstancePlayer) -> bool {
    &&& a.id == b.id
    &&& a.user_id == b.user_id
    &&& a.display_name == b.display_name
    &&& a.spells == b.spells
    &&& a.god == b.god
    &&& a.god_choices == b.god_choices
    &&& a.shop == b.shop
    &&& a.health == b.health
    &&& a.money == b.money
    &&& a.experience == b.experience
    &&& a.placement == b.placement
}

/// What `cast_ability` guarantees: the target selector picks the affected
/// slots, a `Buff` adds the resolved amounts to the right bonuses, every
/// other effect fails loudly, and nothing else of the roster moves.
pub open spec fn cast_outcome(
    pre: GameInstancePlayer,
    post: GameInstancePlayer,
    a: Ability,
    target: Option<usize>,
    res: Result<(), GameError>,
) -> bool {
    &&& eq_but_board(pre, post)
    &&& same_shape(pre.board@, post.board@)
    &&& match a.effect {
        AbilityEffect::Buff(av, hv, perm) => match a.target {
            AbilityTarget::SelfTarget => match target {
                Some(t) => if t < pre.board.len() && pre.board@[t as int] is Some {
                    res is Ok && (match pre.board@[t as int] {
                        Some(c) => post.board@ == pre.board@.update(
                            t as int,
                            Some(buffed_unit(c, av, hv, perm)),
                        ),
                        None => false,
                    })
                } else {
                    res == Err::<(), GameError>(GameError::InvalidTarget) && post == pre
                },
                None => res == Err::<(), GameError>(GameError::InvalidTarget) && post == pre,
            },
            AbilityTarget::AllAllyTarget | AbilityTarget::AllTarget => res is Ok && post.board@
                == buffed_all(pre.board@, av, hv, perm),
            AbilityTarget::AllyTarget => res is Ok && if occupied_count(pre.board@) == 0 {
                post == pre
            } else {
                exists|i: int|
                    #![trigger pre.board@[i]]
                    0 <= i < pre.board.len() && pre.board@[i] is Some && post.board@
                        == pre.board@.update(i, Some(buffed_unit(pre.board@[i]->0, av, hv, perm)))
            },
            AbilityTarget::EnemyTarget => res is Ok && post == pre,
        },
        _ => res == Err::<(), GameError>(GameError::UnimplementedEffect) && post == pre,
    }
}

/// Whether the members of an upgrade group can merge: every member
/// shares the first member's catalog id and none is already upgraded.
/// That the group is exactly three wide is checked separately.
pub open spec fn upgrade_group_ok(cs: Seq<CharacterInstance>) -> bool {
    forall|i: int|
        0 <= i < cs.len() ==> !(#[trigger] cs[i]).upgraded && cs[i].character_id
            == cs[0].character_id
}

/// What a successful three-way merge leaves behind: the board loses every
/// unit carrying one of the group's instance ids, nothing else moves, and
/// the returned unit is an upgraded fresh instance of the group's catalog
/// entry carrying the summed permanent bonuses of the removed board units.
pub open spec fn upgrade_ok_post(
    pre: GameInstancePlayer,
    post: GameInstancePlayer,
    catalog: Catalog,
    cs: Seq<CharacterInstance>,
    u: CharacterInstance,
) -> bool {
    &&& eq_but_board(pre, post)
    &&& post.board@ == clear3(pre.board@, cs[0].id, cs[1].id, cs[2].id)
    &&& merged_unit_props(u, pre.board@, catalog, cs[0].character_id, cs[0].id, cs[1].id, cs[2].id)
}

/// The unit a merge produces: an upgraded fresh instance of the catalog
/// entry, carrying as permanent bonuses the sums of the permanent bonuses
/// of the board units that carried the merged instance ids, and no
/// temporary bonuses.
pub open spec fn merged_unit_props(
    u: CharacterInstance,
    b: Seq<Option<CharacterInstance>>,
    catalog: Catalog,
    cid: i32,
    id0: u128,
    id1: u128,
    id2: u128,
) -> bool {
    let entry = catalog.units@[cid as int];
    &&& u.character_id == cid
    &&& u.cost == entry.cost
    &&& u.upgraded
    &&& u.attack == 2 * entry.attack
    &&& u.health == 2 * entry.health
    &&& u.attack_bonus == clip_i32(sum_attack3(b, id0, id1, id2))
    &&& u.health_bonus == clip_i32(sum_health3(b, id0, id1, id2))
    &&& u.temp_attack_bonus == 0
    &&& u.temp_health_bonus == 0
}

/// Where a purchased or merged unit lands: straight into a free target
/// slot, or into the target slot with the incumbent moved to the first
/// free index.  Meaningful only when such an index exists.
pub open spec fn placed_board(
    b: Seq<Option<CharacterInstance>>,
    board_idx: int,
    placed: CharacterInstance,
) -> Seq<Option<CharacterInstance>> {
    if b[board_idx] is None {
        b.update(board_idx, Some(placed))
    } else {
        b.update(first_free(b)->0, b[board_idx]).update(board_idx, Some(placed))
    }
}

/// What a successful purchase of a shop unit leaves behind.
pub open spec fn buy_ok_post(
    pre: GameInstancePlayer,
    post: GameInstancePlayer,
    catalog: Catalog,
    shop_idx: int,
    board_idx: int,
) -> bool {
    let bought = pre.shop.characters@[shop_idx]->0;
    let cid = bought.character_id;
    let cands = upgradeable_of(pre.board@, cid);
    &&& post.money == pre.money - bought.cost
    &&& post.shop.characters@ == pre.shop.characters@.update(shop_idx, None)
    &&& post.shop.spells == pre.shop.spells
    &&& post.shop.locked == pre.shop.locked
    &&& post.id == pre.id
    &&& post.user_id == pre.user_id
    &&& post.display_name == pre.display_name
    &&& post.spells == pre.spells
    &&& post.god == pre.god
    &&& post.god_choices == pre.god_choices
    &&& post.health == pre.health
    &&& post.experience == pre.experience
    &&& post.placement == pre.placement
    &&& if cands.len() == 2 {
        exists|u: CharacterInstance|
            #[trigger] merged_unit_props(u, pre.board@, catalog, cid, cands[0].id, cands[1].id, bought.id)
                && post.board@ == placed_board(
                clear3(pre.board@, cands[0].id, cands[1].id, bought.id),
                board_idx,
                u,
            )
    } else {
        post.board@ == placed_board(pre.board@, board_idx, bought)
    }
}

/// The committed part of a spell purchase: money paid, the spell moved
/// from the shop slot into the inventory, and everything else of the
/// roster — board aside — unchanged.
pub open spec fn spell_commit(
    pre: GameInstancePlayer,
    post: GameInstancePlayer,
    shop_idx: int,
    sp: Spell,
) -> bool {
    &&& post.money == pre.money - sp.cost
    &&& post.spells@ == pre.spells@.push(sp)
    &&& post.shop.spells@ == pre.shop.spells@.update(shop_idx, None)
    &&& post.shop.characters == pre.shop.characters
    &&& post.shop.locked == pre.shop.locked
    &&& post.id == pre.id
    &&& post.user_id == pre.user_id
    &&& post.display_name == pre.display_name
    &&& post.god == pre.god
    &&& post.god_choices == pre.god_choices
    &&& post.health == pre.health
    &&& post.experience == pre.experience
    &&& post.placement == pre.placement
}

/// No ability of the spell fires on purchase.
pub open spec fn no_on_buy(sp: Spell) -> bool {
    forall|i: int| 0 <= i < sp.abilities.len() ==> !((#[trigger] sp.abilities@[i]).trigger is OnBuy)
}

/// Every on-buy ability of the spell is a modelled buff whose target
/// resolution cannot fail against this board: a self-targeting one finds
/// the cast target standing on an occupied slot.  Casts preserve which
/// slots are occupied, so this read of the board before the purchase
/// settles every cast after it.
pub open spec fn on_buy_casts_succeed(
    sp: Spell,
    tgt: Option<usize>,
    b: Seq<Option<CharacterInstance>>,
) -> bool {
    forall|i: int|
        0 <= i < sp.abilities.len() && (#[trigger] sp.abilities@[i]).trigger is OnBuy ==> {
            &&& sp.abilities@[i].effect is Buff
            &&& (sp.abilities@[i].target is SelfTarget ==> (match tgt {
                Some(t) => t < b.len() && b[t as int] is Some,
                None => false,
            }))
        }
}

/// What an opposing roster shows of itself between rounds.
#[derive(Debug)]
pub struct GameOpponentInfo {
    pub name: String,
    pub experience: u8,
    pub health: i16,
    /// The opponent's chosen god, or zero when none is picked yet.
    pub character_id: i32,
    pub is_next_opponent: bool,
}

/// One player's full economic and battle state for a match.
#[derive(Debug)]
pub struct GameInstancePlayer {
    /// In-memory roster id, fresh and random at creation.
    pub id: u128,
    /// Persistent account id, if the player is not a bot.
    pub user_id: Option<i32>,
    pub display_name: String,
    /// Fixed-capacity board of unit slots; always `BOARD_SIZE` long.
    pub board: Vec<Option<CharacterInstance>>,
    /// Spells owned, at most `MAX_SPELLS`.
    pub spells: Vec<Spell>,
    pub god: Option<God>,
    /// The four god ids this player may still choose between.
    pub god_choices: [i32; 4],
    pub shop: Shop,
    /// Reaching zero or below eliminates the roster.
    pub health: i16,
    pub money: u16,
    pub experience: u8,
    /// Final ranking, set once when the roster leaves the match.
    pub placement: Option<u8>,
}

impl GameInstancePlayer {
    /// The board has its fixed capacity, the spell inventory respects its
    /// cap, and the shop respects its capacities.
    pub open spec fn wf(self) -> bool {
        &&& self.board.len() == BOARD_SIZE
        &&& self.spells.len() <= MAX_SPELLS
        &&& self.shop.wf()
    }

    /// Every unit the shop offers points into the catalog and is not yet
    /// upgraded; what `generate_shop` and `reroll` establish and
    /// `buy_character` relies on to merge.
    pub open spec fn shop_units_clean(self, catalog: Catalog) -> bool {
        forall|i: int|
            0 <= i < self.shop.characters.len() ==> (match #[trigger] self.shop.characters@[i] {
                Some(c) => 0 <= c.character_id < catalog.units.len() && !c.upgraded,
                None => true,
            })
    }

    /// A fresh roster at the match start: empty board and shop, starting
    /// health, money and experience, no god picked, no placement.
    pub fn new(user_id: Option<i32>, display_name: String, god_choices: [i32; 4]) -> (r:
        GameInstancePlayer)
        ensures
            r.wf(),
            r.user_id == user_id,
            r.display_name == display_name,
            r.god_choices == god_choices,
            r.board.len() == BOARD_SIZE,
            forall|i: int| 0 <= i < r.board.len() ==> (#[trigger] r.board@[i]) is None,
            r.spells.len() == 0,
            r.god is None,
            r.shop.characters.len() == 0,
            r.shop.spells.len() == 0,
            !r.shop.locked,
            r.health == START_HEALTH,
            r.money == START_MONEY,
            r.experience == START_EXP,
            r.placement is None,
    {
        GameInstancePlayer {
            id: rng::fresh_id(),
            user_id,
            display_name,
            board: empty_board(),
            spells: Vec::new(),
            god: None,
            god_choices,
            shop: Shop::default(),
            health: START_HEALTH,
            money: START_MONEY,
            experience: START_EXP,
            placement: None,
        }
    }

    /// The same roster with its god picked.
    pub fn with_god(self, god: God) -> (r: GameInstancePlayer)
        ensures
            r == (GameInstancePlayer { god: Some(god), ..self }),
    {
        GameInstancePlayer { god: Some(god), ..self }
    }

    /// The roster's level: experience over `EXP_PER_LVL`, capped at
    /// `MAX_LVL`.
    pub fn get_lvl(&self) -> (r: u8)
        ensures
            r == lvl_of(self.experience),
    {
        let l: u8 = self.experience / EXP_PER_LVL;
        if l > MAX_LVL {
            MAX_LVL
        } else {
            l
        }
    }

    /// Still fighting: health left and no final placement assigned.
    pub fn is_active(&self) -> (r: bool)
        ensures
            r == (self.health > 0 && self.placement is None),
    {
        self.health > 0 && self.placement.is_none()
    }

    /// The lowest free board index, if any.
    pub fn get_free_board_index(&self) -> (r: Option<usize>)
        ensures
            match r {
                Some(f) => first_free(self.board@) == Some(f as int),
                None => first_free(self.board@) is None,
            },
    {
        let mut i: usize = 0;
        while i < self.board.len()
            invariant
                i <= self.board.len(),
                first_free(self.board@) == first_free_from(self.board@, i as int),
                forall|j: int| 0 <= j < i ==> (#[trigger] self.board@[j]) is Some,
            decreases self.board.len() - i,
        {
            if self.board[i].is_none() {
                return Some(i);
            }
            i = i + 1;
        }
        None
    }

    /// What this roster shows an opponent between rounds.
    pub fn opponent_info(&self, is_next_opponent: bool) -> (r: GameOpponentInfo)
        ensures
            r.name == self.display_name,
            r.experience == self.experience,
            r.health == self.health,
            r.character_id == (match self.god {
                Some(g) => g.id,
                None => 0,
            }),
            r.is_next_opponent == is_next_opponent,
    {
        GameOpponentInfo {
            name: self.display_name.clone(),
            experience: self.experience,
            health: self.health,
            character_id: match &self.god {
                Some(g) => g.id,
                None => 0,
            },
            is_next_opponent,
        }
    }

    /// The merge candidates for a catalog id: every unupgraded board unit
    /// sharing it, in board order.
    pub fn get_upgradeable(&self, character_id: i32) -> (r: Vec<CharacterInstance>)
        ensures
            r@ == upgradeable_of(self.board@, character_id),
    {
        let mut r: Vec<CharacterInstance> = Vec::new();
        let mut i: usize = 0;
        while i < self.board.len()
            invariant
                i <= self.board.len(),
                r@ == upgradeable_of(self.board@.take(i as int), character_id),
            decreases self.board.len() - i,
        {
            proof {
                assert(self.board@.take(i + 1 as int).drop_last() =~= self.board@.take(i as int));
            }
            match self.board[i] {
                Some(c) => {
                    if c.character_id == character_id && !c.upgraded {
                        r.push(c);
                    }
                },
                None => {},
            }
            i = i + 1;
        }
        proof {
            assert(self.board@.take(self.board@.len() as int) =~= self.board@);
        }
        r
    }

    /// Swaps two board slots; empty slots move like any other.  Fails only
    /// on an out-of-range index, leaving the roster unchanged.
    pub fn move_character(&mut self, from_idx: usize, to_idx: usize) -> (res: Result<
        (),
        GameError,
    >)
        requires
            old(self).wf(),
        ensures
            final(self).wf(),
            (from_idx >= BOARD_SIZE || to_idx >= BOARD_SIZE) ==> res == Err::<(), GameError>(
                GameError::InvalidIndex,
            ) && *final(self) == *old(self),
            (from_idx < BOARD_SIZE && to_idx < BOARD_SIZE) ==> res is Ok && eq_but_board(
                *old(self),
                *final(self),
            ) && final(self).board@ == old(self).board@.update(
                from_idx as int,
                old(self).board@[to_idx as int],
            ).update(to_idx as int, old(self).board@[from_idx as int]),
    {
        if from_idx >= self.board.len() || to_idx >= self.board.len() {
            return Err(GameError::InvalidIndex);
        }
        let a: Option<CharacterInstance> = self.board[from_idx];
        let b: Option<CharacterInstance> = self.board[to_idx];
        self.board.set(from_idx, b);
        self.board.set(to_idx, a);
        Ok(())
    }

    /// Rolls the shop for the current level: a locked shop keeps its
    /// remaining offers and only tops up the missing slots, an unlocked
    /// shop is fully replaced.  Either way the lock is cleared.
    pub fn generate_shop(&mut self, catalog: &Catalog)
        requires
            old(self).wf(),
            catalog.wf(),
            old(self).shop_units_clean(*catalog),
        ensures
            final(self).wf(),
            final(self).shop_units_clean(*catalog),
            eq_but_shop(*old(self), *final(self)),
            !final(self).shop.locked,
            old(self).shop.locked ==> final(self).shop.refilled_from(
                old(self).shop,
                *catalog,
                lvl_of(old(self).experience),
            ),
            !old(self).shop.locked ==> final(self).shop.fresh_at(
                *catalog,
                lvl_of(old(self).experience),
            ),
    {
        let lvl: u8 = self.get_lvl();
        if self.shop.locked {
            let ghost prev = self.shop;
            self.shop.fill(catalog, lvl);
            proof {
                assert forall|i: int|
                    0 <= i < self.shop.characters.len() implies (match #[trigger] self.shop.characters@[i] {
                    Some(c) => 0 <= c.character_id < catalog.units.len() && !c.upgraded,
                    None => true,
                }) by {
                    let kept = kept_slots(prev.characters@);
                    crate::shop::lemma_kept_slots_len(prev.characters@);
                    crate::shop::lemma_count_eligible_units_bound(catalog.units@, lvl);
                    if i < kept.len() {
                        assert(self.shop.characters@.take(kept.len() as int)[i]
                            == self.shop.characters@[i]);
                        crate::shop::lemma_kept_slots_membership(prev.characters@, i);
                        let j = choose|j: int|
                            0 <= j < prev.characters@.len() && kept[i]
                                == #[trigger] prev.characters@[j];
                        assert(old(self).shop_units_clean(*catalog));
                        assert(match prev.characters@[j] {
                            Some(c) => 0 <= c.character_id < catalog.units.len() && !c.upgraded,
                            None => true,
                        });
                    }
                }
            }
        } else {
            self.shop = Shop::new(catalog, lvl);
        }
    }

    /// Spends one coin to replace the shop outright, locked or not.  With
    /// no money it fails and leaves everything, the shop too, untouched.
    pub fn reroll(&mut self, catalog: &Catalog) -> (res: Result<(), GameError>)
        requires
            old(self).wf(),
            catalog.wf(),
        ensures
            final(self).wf(),
            old(self).money == 0 ==> res == Err::<(), GameError>(GameError::InsufficientFunds)
                && *final(self) == *old(self),
            old(self).money >= 1 ==> res is Ok && final(self).money == old(self).money - 1
                && eq_but_shop(
                *old(self),
                (GameInstancePlayer { money: old(self).money, ..*final(self) }),
            ) && final(self).shop.fresh_at(*catalog, lvl_of(old(self).experience))
                && final(self).shop_units_clean(*catalog),
    {
        if self.money < 1 {
            return Err(GameError::InsufficientFunds);
        }
        self.money = self.money - 1;
        let lvl: u8 = self.get_lvl();
        self.shop = Shop::new(catalog, lvl);
        Ok(())
    }

    /// Resolves an ability against this roster's board: `Self` needs an
    /// explicit occupied slot, `Ally` picks one occupied slot at random,
    /// `AllAlly` and `All` hit every occupied slot, and `Enemy` touches
    /// nothing here.  Only `Buff` effects are modelled; anything else
    /// fails loudly with `UnimplementedEffect`.
    pub fn cast_ability(&mut self, a: &Ability, target: Option<usize>) -> (res: Result<
        (),
        GameError,
    >)
        requires
            old(self).wf(),
        ensures
            final(self).wf(),
            cast_outcome(*old(self), *final(self), *a, target, res),
    {
        let (av, hv, perm): (Option<AbilityValue>, Option<AbilityValue>, bool) = match a.effect {
            AbilityEffect::Buff(av, hv, p) => (av, hv, p),
            _ => {
                return Err(GameError::UnimplementedEffect);
            },
        };
        match a.target {
            AbilityTarget::SelfTarget => {
                match target {
                    None => Err(GameError::InvalidTarget),
                    Some(t) => {
                        if t >= self.board.len() {
                            return Err(GameError::InvalidTarget);
                        }
                        match self.board[t] {
                            None => Err(GameError::InvalidTarget),
                            Some(c) => {
                                let newc = buff_exec(&c, &av, &hv, perm);
                                self.board.set(t, Some(newc));
                                Ok(())
                            },
                        }
                    },
                }
            },
            AbilityTarget::AllAllyTarget | AbilityTarget::AllTarget => {
                let mut b: Vec<Option<CharacterInstance>> = Vec::new();
                core::mem::swap(&mut self.board, &mut b);
                let ghost orig = b@;
                let mut i: usize = 0;
                while i < b.len()
                    invariant
                        i <= b.len(),
                        b.len() == orig.len(),
                        forall|j: int| i <= j < orig.len() ==> b@[j] == orig[j],
                        forall|j: int|
                            0 <= j < i ==> b@[j] == buffed_all(orig, av, hv, perm)[j],
                    decreases b.len() - i,
                {
                    match b[i] {
                        Some(c) => {
                            let nc = buff_exec(&c, &av, &hv, perm);
                            b.set(i, Some(nc));
                        },
                        None => {},
                    }
                    i = i + 1;
                }
                self.board = b;
                proof {
                    assert(self.board@ =~= buffed_all(orig, av, hv, perm));
                }
                Ok(())
            },
            AbilityTarget::AllyTarget => {
                let mut occ: Vec<usize> = Vec::new();
                let mut i: usize = 0;
                while i < self.board.len()
                    invariant
                        i <= self.board.len(),
                        occ.len() == occupied_count(self.board@.take(i as int)),
                        forall|k: int|
                            0 <= k < occ.len() ==> (#[trigger] occ@[k]) < i && self.board@[occ@[k] as int] is Some,
                    decreases self.board.len() - i,
                {
                    proof {
                        assert(self.board@.take(i + 1 as int).drop_last() =~= self.board@.take(
                            i as int,
                        ));
                    }
                    match self.board[i] {
                        Some(_) => {
                            occ.push(i);
                        },
                        None => {},
                    }
                    i = i + 1;
                }
                proof {
                    assert(self.board@.take(self.board@.len() as int) =~= self.board@);
                }
                match rng::pick_index(occ.len()) {
                    None => Ok(()),
                    Some(k) => {
                        let idx: usize = occ[k];
                        match self.board[idx] {
                            Some(c) => {
                                let nc = buff_exec(&c, &av, &hv, perm);
                                self.board.set(idx, Some(nc));
                                proof {
                                    lemma_occupied_count_nonneg(old(self).board@);
                                    assert(old(self).board@[idx as int] is Some);
                                    assert(final(self).board@ == old(self).board@.update(
                                        idx as int,
                                        Some(buffed_unit(c, av, hv, perm)),
                                    ));
                                }
                                Ok(())
                            },
                            None => {
                                proof {
                                    assert(false);
                                }
                                Err(GameError::InvalidTarget)
                            },
                        }
                    },
                }
            },
            AbilityTarget::EnemyTarget => Ok(()),
        }
    }

    /// Buys the spell in a shop slot.  A spell with an ability that
    /// targets a single ally demands a target index inside the board
    /// (the slot may be empty); other spells take none.  On success the
    /// money falls by the spell's cost, the spell moves from the shop into
    /// the inventory, and every `OnBuy` ability is cast in order.  The
    /// purchase commits before the casts, so a failing cast surfaces its
    /// error with the purchase already applied — the one documented
    /// non-atomic path — while the casts themselves only ever adjust
    /// bonuses of units already on the board.
    pub fn buy_spell(&mut self, shop_idx: usize, target_idx: Option<usize>) -> (res: Result<
        (),
        GameError,
    >)
        requires
            old(self).wf(),
        ensures
            final(self).wf(),
            old(self).spells.len() >= MAX_SPELLS ==> res == Err::<(), GameError>(
                GameError::CapacityExceeded,
            ) && *final(self) == *old(self),
            old(self).spells.len() < MAX_SPELLS && shop_idx >= old(self).shop.spells.len() ==> res
                == Err::<(), GameError>(GameError::InvalidIndex) && *final(self) == *old(self),
            old(self).spells.len() < MAX_SPELLS && shop_idx < old(self).shop.spells.len() ==> (
            match old(self).shop.spells@[shop_idx as int] {
                None => res == Err::<(), GameError>(GameError::SlotEmpty) && *final(self) == *old(
                    self,
                ),
                Some(sp) => {
                    if old(self).money < sp.cost {
                        res == Err::<(), GameError>(GameError::InsufficientFunds) && *final(self)
                            == *old(self)
                    } else if wants_ally_target(sp) && (match target_idx {
                        Some(t) => t >= BOARD_SIZE,
                        None => true,
                    }) {
                        res == Err::<(), GameError>(GameError::InvalidTarget) && *final(self)
                            == *old(self)
                    } else {
                        &&& spell_commit(*old(self), *final(self), shop_idx as int, sp)
                        &&& same_shape(old(self).board@, final(self).board@)
                        &&& (res is Ok || res == Err::<(), GameError>(GameError::InvalidTarget)
                            || res == Err::<(), GameError>(GameError::UnimplementedEffect))
                        &&& no_on_buy(sp) ==> res is Ok && final(self).board == old(self).board
                        &&& on_buy_casts_succeed(
                            sp,
                            if wants_ally_target(sp) {
                                target_idx
                            } else {
                                None
                            },
                            old(self).board@,
                        ) ==> res is Ok
                    }
                },
            }),
    {
        if self.spells.len() >= MAX_SPELLS {
            return Err(GameError::CapacityExceeded);
        }
        if shop_idx >= self.shop.spells.len() {
            return Err(GameError::InvalidIndex);
        }
        let cost: u16 = match &self.shop.spells[shop_idx] {
            Some(sp) => sp.cost as u16,
            None => {
                return Err(GameError::SlotEmpty);
            },
        };
        if self.money < cost {
            return Err(GameError::InsufficientFunds);
        }
        let needs: bool = match &self.shop.spells[shop_idx] {
            Some(sp) => spell_wants_target(sp),
            None => false,
        };
        let tgt: Option<usize> = if needs {
            match target_idx {
                Some(t) => {
                    if t >= self.board.len() {
                        return Err(GameError::InvalidTarget);
                    }
                    Some(t)
                },
                None => {
                    return Err(GameError::InvalidTarget);
                },
            }
        } else {
            None
        };
        // Commit the purchase.
        let ghost pre = *self;
        let mut slot: Option<Spell> = None;
        self.shop.spells.set_and_swap(shop_idx, &mut slot);
        let sp: Spell = slot.unwrap();
        let ghost spg = sp;
        self.money = self.money - cost;
        let abilities: Vec<Ability> = copy_abilities(&sp.abilities);
        self.spells.push(sp);
        // Cast the on-buy abilities; the first failure surfaces.
        let mut k: usize = 0;
        while k < abilities.len()
            invariant
                k <= abilities.len(),
                abilities@ == spg.abilities@,
                self.wf(),
                pre == *old(self),
                pre.spells.len() < MAX_SPELLS,
                shop_idx < pre.shop.spells.len(),
                pre.shop.spells@[shop_idx as int] == Some(spg),
                pre.money >= spg.cost,
                wants_ally_target(spg) ==> (match target_idx {
                    Some(t) => t < BOARD_SIZE,
                    None => false,
                }),
                tgt == (if wants_ally_target(spg) {
                    target_idx
                } else {
                    None::<usize>
                }),
                pre.board.len() == BOARD_SIZE,
                spell_commit(pre, *self, shop_idx as int, spg),
                same_shape(pre.board@, self.board@),
                (forall|j: int| 0 <= j < k ==> !((#[trigger] abilities@[j]).trigger is OnBuy))
                    ==> self.board == pre.board,
            decreases abilities.len() - k,
        {
            let ab: Ability = abilities[k];
            let fire: bool = match ab.trigger {
                AbilityTrigger::OnBuy => true,
                _ => false,
            };
            if fire {
                let ghost mid = *self;
                let r = self.cast_ability(&ab, tgt);
                proof {
                    lemma_same_shape_trans(pre.board@, mid.board@, self.board@);
                }
                match r {
                    Ok(_) => {},
                    Err(e) => {
                        proof {
                            // A failing cast contradicts a board on which
                            // every on-buy cast was bound to succeed.
                            if on_buy_casts_succeed(spg, tgt, pre.board@) {
                                assert(spg.abilities@[k as int].trigger is OnBuy);
                                assert(spg.abilities@[k as int].effect is Buff);
                                match ab.target {
                                    AbilityTarget::SelfTarget => {
                                        let t = tgt->0;
                                        assert(pre.board@[t as int] is Some);
                                        assert(same_unit_identity(
                                            pre.board@[t as int],
                                            mid.board@[t as int],
                                        ));
                                        assert(false);
                                    },
                                    _ => {
                                        assert(false);
                                    },
                                }
                            }
                        }
                        return Err(e);
                    },
                }
            }
            k = k + 1;
        }
        Ok(())
    }

    /// Buys the unit in a shop slot and places it at a board index.  When
    /// exactly two unupgraded board units already share the unit's catalog
    /// id, the three merge into one upgraded unit carrying the two board
    /// units' summed permanent bonuses.  An occupied target slot moves its
    /// incumbent to the first free index; a full board refuses.  On
    /// success the money falls by the unit's cost and the shop slot
    /// empties; on failure the roster is untouched.
    pub fn buy_character(&mut self, catalog: &Catalog, shop_idx: usize, board_idx: usize) -> (res:
        Result<(), GameError>)
        requires
            old(self).wf(),
            catalog.wf(),
            old(self).shop_units_clean(*catalog),
        ensures
            final(self).wf(),
            res is Err ==> *final(self) == *old(self),
            shop_idx >= old(self).shop.characters.len() ==> res == Err::<(), GameError>(
                GameError::InvalidIndex,
            ),
            shop_idx < old(self).shop.characters.len() && old(self).shop.characters@[shop_idx as int]
                is None ==> res == Err::<(), GameError>(GameError::SlotEmpty),
            shop_idx < old(self).shop.characters.len() ==> (match old(
                self,
            ).shop.characters@[shop_idx as int] {
                Some(bought) => {
                    if old(self).money < bought.cost {
                        res == Err::<(), GameError>(GameError::InsufficientFunds)
                    } else if board_idx >= BOARD_SIZE {
                        res == Err::<(), GameError>(GameError::InvalidIndex)
                    } else if upgradeable_of(old(self).board@, bought.character_id).len() != 2
                        && old(self).board@[board_idx as int] is Some && first_free(old(self).board@)
                        is None {
                        res == Err::<(), GameError>(GameError::CapacityExceeded)
                    } else {
                        res is Ok && buy_ok_post(
                            *old(self),
                            *final(self),
                            *catalog,
                            shop_idx as int,
                            board_idx as int,
                        )
                    }
                },
                None => true,
            }),
    {
        if shop_idx >= self.shop.characters.len() {
            return Err(GameError::InvalidIndex);
        }
        let slot: Option<CharacterInstance> = self.shop.characters[shop_idx];
        let bought: CharacterInstance = match slot {
            Some(c) => c,
            None => {
                return Err(GameError::SlotEmpty);
            },
        };
        let cost: u16 = bought.cost as u16;
        if self.money < cost {
            return Err(GameError::InsufficientFunds);
        }
        if board_idx >= self.board.len() {
            return Err(GameError::InvalidIndex);
        }
        let ghost pre = *self;
        let ups: Vec<CharacterInstance> = self.get_upgradeable(bought.character_id);
        let ghost cands = upgradeable_of(pre.board@, bought.character_id);
        let merged: bool = ups.len() == 2;
        let placed: CharacterInstance;
        if merged {
            let mut group: Vec<CharacterInstance> = ups;
            group.push(bought);
            proof {
                lemma_upgradeable_elements(pre.board@, bought.character_id, 0);
                lemma_upgradeable_elements(pre.board@, bought.character_id, 1);
            }
            let up_res = self.upgrade(catalog, group);
            placed = match up_res {
                Ok(u) => u,
                Err(_) => {
                    proof {
                        assert(false);
                    }
                    return Err(GameError::InvalidTarget);
                },
            };
        } else {
            placed = bought;
        }
        let free: Option<usize> = self.get_free_board_index();
        let target_slot: Option<CharacterInstance> = self.board[board_idx];
        match target_slot {
            Some(incumbent) => {
                match free {
                    None => {
                        proof {
                            if merged {
                                // A merge just cleared the candidates' slots,
                                // so a free slot must exist.
                                lemma_upgradeable_elements(pre.board@, bought.character_id, 0);
                                let j = choose|j: int|
                                    0 <= j < pre.board@.len() && #[trigger] pre.board@[j] == Some(
                                        cands[0],
                                    );
                                assert(self.board@[j] is None);
                                lemma_first_free_some(self.board@, j);
                                assert(false);
                            }
                        }
                        return Err(GameError::CapacityExceeded);
                    },
                    Some(f) => {
                        proof {
                            lemma_first_free_points_at_none(self.board@, 0);
                        }
                        self.board.set(f, Some(incumbent));
                        self.board.set(board_idx, Some(placed));
                    },
                }
            },
            None => {
                self.board.set(board_idx, Some(placed));
            },
        }
        self.money = self.money - cost;
        self.shop.characters.set(shop_idx, None);
        Ok(())
    }

    /// Merges an upgrade group: exactly three units, all sharing one
    /// catalog id and none already upgraded.  Every board unit carrying
    /// one of the group's instance ids leaves the board, and the returned
    /// unit is a fresh upgraded instance of the catalog entry carrying the
    /// summed permanent bonuses of those removed board units (a freshly
    /// bought third member stands on no board slot and so contributes
    /// none).  On any failure the roster is untouched.
    pub fn upgrade(&mut self, catalog: &Catalog, characters: Vec<CharacterInstance>) -> (res:
        Result<CharacterInstance, GameError>)
        requires
            old(self).wf(),
            catalog.wf(),
        ensures
            final(self).wf(),
            res is Err ==> *final(self) == *old(self),
            characters.len() != 3 ==> res == Err::<CharacterInstance, GameError>(
                GameError::CapacityExceeded,
            ),
            characters.len() == 3 && !upgrade_group_ok(characters@) ==> res == Err::<
                CharacterInstance,
                GameError,
            >(GameError::InvalidTarget),
            characters.len() == 3 && upgrade_group_ok(characters@) && !(0 <= characters@[0].character_id
                < catalog.units.len()) ==> res == Err::<CharacterInstance, GameError>(
                GameError::InvalidIndex,
            ),
            characters.len() == 3 && upgrade_group_ok(characters@) && 0 <= characters@[0].character_id
                < catalog.units.len() ==> (res matches Ok(u) && upgrade_ok_post(
                *old(self),
                *final(self),
                *catalog,
                characters@,
                u,
            )),
    {
        if characters.len() != 3 {
            return Err(GameError::CapacityExceeded);
        }
        let c0: CharacterInstance = characters[0];
        let c1: CharacterInstance = characters[1];
        let c2: CharacterInstance = characters[2];
        if c0.upgraded || c1.upgraded || c2.upgraded || c1.character_id != c0.character_id
            || c2.character_id != c0.character_id {
            return Err(GameError::InvalidTarget);
        }
        assert(upgrade_group_ok(characters@)) by {
            assert forall|i: int| 0 <= i < characters@.len() implies !(
            #[trigger] characters@[i]).upgraded && characters@[i].character_id
                == characters@[0].character_id by {
                if i == 0 {
                } else if i == 1 {
                } else {
                    assert(i == 2);
                }
            }
        };
        let cid: i32 = c0.character_id;
        if cid < 0 {
            return Err(GameError::InvalidIndex);
        }
        let cidu: usize = cid as usize;
        if cidu >= catalog.units.len() {
            return Err(GameError::InvalidIndex);
        }
        // Sum the permanent bonuses of the board units being consumed.
        let ghost orig = self.board@;
        let mut sum_a: i64 = 0;
        let mut sum_h: i64 = 0;
        let mut i: usize = 0;
        while i < self.board.len()
            invariant
                i <= self.board.len(),
                self.board.len() == BOARD_SIZE,
                sum_a == sum_attack3(self.board@.take(i as int), c0.id, c1.id, c2.id),
                sum_h == sum_health3(self.board@.take(i as int), c0.id, c1.id, c2.id),
                -(i as int) * 0x8000_0000 <= sum_a <= (i as int) * 0x8000_0000,
                -(i as int) * 0x8000_0000 <= sum_h <= (i as int) * 0x8000_0000,
            decreases self.board.len() - i,
        {
            proof {
                assert(self.board@.take(i + 1 as int).drop_last() =~= self.board@.take(i as int));
            }
            match self.board[i] {
                Some(c) => {
                    if c.id == c0.id || c.id == c1.id || c.id == c2.id {
                        sum_a = sum_a + c.attack_bonus as i64;
                        sum_h = sum_h + c.health_bonus as i64;
                    }
                },
                None => {},
            }
            i = i + 1;
        }
        proof {
            assert(self.board@.take(self.board@.len() as int) =~= self.board@);
        }
        // Remove the consumed units from the board.
        let mut b: Vec<Option<CharacterInstance>> = Vec::new();
        core::mem::swap(&mut self.board, &mut b);
        let mut j: usize = 0;
        while j < b.len()
            invariant
                j <= b.len(),
                b.len() == orig.len(),
                forall|p: int| j <= p < orig.len() ==> b@[p] == orig[p],
                forall|p: int| 0 <= p < j ==> b@[p] == clear3(orig, c0.id, c1.id, c2.id)[p],
            decreases b.len() - j,
        {
            match b[j] {
                Some(c) => {
                    if c.id == c0.id || c.id == c1.id || c.id == c2.id {
                        b.set(j, None);
                    }
                },
                None => {},
            }
            j = j + 1;
        }
        self.board = b;
        proof {
            assert(self.board@ =~= clear3(orig, c0.id, c1.id, c2.id));
        }
        // Build the merged unit.
        let base = CharacterInstance::from_entry(&catalog.units[cidu], true);
        let merged = base.with_attack_bonus(crate::clamp_to_i32(sum_a)).with_health_bonus(
            crate::clamp_to_i32(sum_h),
        );
        Ok(merged)
    }

    /// Records the roster's final ranking.  The placement is set once:
    /// a roster that already holds one keeps it unchanged.
    pub fn assign_placement(&mut self, placement: u8)
        ensures
            old(self).placement is None ==> *final(self) == (GameInstancePlayer {
                placement: Some(placement),
                ..*old(self)
            }),
            old(self).placement is Some ==> *final(self) == *old(self),
    {
        if self.placement.is_none() {
            self.placement = Some(placement);
        }
    }

    /// Clears every unit's temporary bonuses, as a battle boundary does;
    /// permanent bonuses and everything else stay.
    pub fn reset_temp_bonuses(&mut self)
        requires
            old(self).wf(),
        ensures
            final(self).wf(),
            eq_but_board(*old(self), *final(self)),
            final(self).board.len() == old(self).board.len(),
            forall|i: int|
                0 <= i < old(self).board.len() ==> final(self).board@[i] == (match old(
                    self,
                ).board@[i] {
                    Some(c) => Some(
                        CharacterInstance { temp_attack_bonus: 0, temp_health_bonus: 0, ..c },
                    ),
                    None => None,
                }),
    {
        let mut b: Vec<Option<CharacterInstance>> = Vec::new();
        core::mem::swap(&mut self.board, &mut b);
        let ghost orig = b@;
        let mut i: usize = 0;
        while i < b.len()
            invariant
                i <= b.len(),
                b.len() == orig.len(),
                forall|j: int| i <= j < orig.len() ==> b@[j] == orig[j],
                forall|j: int|
                    0 <= j < i ==> b@[j] == (match orig[j] {
                        Some(c) => Some(
                            CharacterInstance { temp_attack_bonus: 0, temp_health_bonus: 0, ..c },
                        ),
                        None => None,
                    }),
            decreases b.len() - i,
        {
            match b[i] {
                Some(c) => {
                    b.set(
                        i,
                        Some(CharacterInstance { temp_attack_bonus: 0, temp_health_bonus: 0, ..c }),
                    );
                },
                None => {},
            }
            i = i + 1;
        }
        self.board = b;
    }

    /// Clears an occupied slot and refunds a flat single coin, whatever
    /// the unit originally cost — a deliberate economy policy.  Fails on
    /// an out-of-range index or an empty slot, leaving the roster
    /// unchanged.
    pub fn sell_character(&mut self, character_idx: usize) -> (res: Result<(), GameError>)
        requires
            old(self).wf(),
        ensures
            final(self).wf(),
            character_idx >= BOARD_SIZE ==> res == Err::<(), GameError>(GameError::InvalidIndex)
                && *final(self) == *old(self),
            character_idx < BOARD_SIZE && old(self).board@[character_idx as int] is None ==> res
                == Err::<(), GameError>(GameError::SlotEmpty) && *final(self) == *old(self),
            character_idx < BOARD_SIZE && old(self).board@[character_idx as int] is Some ==> res
                is Ok && eq_but_board(
                *old(self),
                (GameInstancePlayer { money: old(self).money, ..*final(self) }),
            ) && final(self).board@ == old(self).board@.update(character_idx as int, None)
                && final(self).money == (if old(self).money < u16::MAX {
                old(self).money + 1
            } else {
                u16::MAX as int
            }),
    {
        if character_idx >= self.board.len() {
            return Err(GameError::InvalidIndex);
        }
        if self.board[character_idx].is_some() {
            if self.money < u16::MAX {
                self.money = self.money + 1;
            }
            self.board.set(character_idx, None);
            Ok(())
        } else {
            Err(GameError::SlotEmpty)
        }
    }
}

impl Default for GameInstancePlayer {
    /// A fresh anonymous roster: no account, an empty display name, no
    /// god choices yet, and the starting economy.
    fn default() -> (r: GameInstancePlayer)
        ensures
            r.wf(),
            r.user_id is None,
            r.display_name@.len() == 0,
            r.god_choices == [0i32, 0i32, 0i32, 0i32],
            forall|i: int| 0 <= i < r.board.len() ==> (#[trigger] r.board@[i]) is None,
            r.spells.len() == 0,
            r.god is None,
            r.shop.characters.len() == 0,
            r.shop.spells.len() == 0,
            !r.shop.locked,
            r.health == START_HEALTH,
            r.money == START_MONEY,
            r.experience == START_EXP,
            r.placement is None,
    {
        GameInstancePlayer::new(None, String::new(), [0, 0, 0, 0])
    }
}

/// A board of `BOARD_SIZE` empty slots.
fn empty_board() -> (r: Vec<Option<CharacterInstance>>)
    ensures
        r.len() == BOARD_SIZE,
        forall|i: int| 0 <= i < r.len() ==> (#[trigger] r@[i]) is None,
{
    let mut r: Vec<Option<CharacterInstance>> = Vec::new();
    let mut i: usize = 0;
    while i < BOARD_SIZE
        invariant
            i <= BOARD_SIZE,
            r.len() == i,
            forall|j: int| 0 <= j < r.len() ==> (#[trigger] r@[j]) is None,
        decreases BOARD_SIZE - i,
    {
        r.push(None);
        i = i + 1;
    }
    r
}

/// The unit after an exec buff, equal to the spec-level `buffed_unit`.
fn buff_exec(
    c: &CharacterInstance,
    av: &Option<AbilityValue>,
    hv: &Option<AbilityValue>,
    perm: bool,
) -> (r: CharacterInstance)
    ensures
        r == buffed_unit(*c, *av, *hv, perm),
{
    let a: i32 = calculate_amount(av, c);
    let h: i32 = calculate_amount(hv, c);
    if perm {
        CharacterInstance {
            attack_bonus: crate::sat_add_i32(c.attack_bonus, a),
            health_bonus: crate::sat_add_i32(c.health_bonus, h),
            ..*c
        }
    } else {
        CharacterInstance {
            temp_attack_bonus: crate::sat_add_i32(c.temp_attack_bonus, a),
            temp_health_bonus: crate::sat_add_i32(c.temp_health_bonus, h),
            ..*c
        }
    }
}

/// Every merge candidate shares the catalog id, is unupgraded, and stands
/// somewhere on the board.
pub proof fn lemma_upgradeable_elements(b: Seq<Option<CharacterInstance>>, cid: i32, k: int)
    requires
        0 <= k < upgradeable_of(b, cid).len(),
    ensures
        upgradeable_of(b, cid)[k].character_id == cid,
        !upgradeable_of(b, cid)[k].upgraded,
        exists|j: int| 0 <= j < b.len() && #[trigger] b[j] == Some(upgradeable_of(b, cid)[k]),
    decreases b.len(),
{
    if b.len() > 0 {
        if k < upgradeable_of(b.drop_last(), cid).len() {
            lemma_upgradeable_elements(b.drop_last(), cid, k);
            let j = choose|j: int|
                0 <= j < b.drop_last().len() && #[trigger] b.drop_last()[j] == Some(
                    upgradeable_of(b.drop_last(), cid)[k],
                );
            assert(b[j] == Some(upgradeable_of(b, cid)[k]));
        } else {
            assert(b[b.len() - 1] == Some(upgradeable_of(b, cid)[k]));
        }
    }
}

/// A board with some empty slot has a first free index.
pub proof fn lemma_first_free_some(b: Seq<Option<CharacterInstance>>, j: int)
    requires
        0 <= j < b.len(),
        b[j] is None,
    ensures
        first_free(b) is Some,
        first_free(b) matches Some(f) ==> 0 <= f < b.len() && b[f] is None,
{
    lemma_first_free_from_some(b, 0, j);
}

proof fn lemma_first_free_from_some(b: Seq<Option<CharacterInstance>>, i: int, j: int)
    requires
        0 <= i <= j < b.len(),
        b[j] is None,
    ensures
        first_free_from(b, i) is Some,
        first_free_from(b, i) matches Some(f) ==> i <= f < b.len() && b[f] is None,
    decreases j - i,
{
    if b[i] is None {
    } else {
        lemma_first_free_from_some(b, i + 1, j);
    }
}

/// Wherever the first free index points, the slot there is empty.
pub proof fn lemma_first_free_points_at_none(b: Seq<Option<CharacterInstance>>, i: int)
    requires
        0 <= i <= b.len(),
    ensures
        first_free_from(b, i) matches Some(f) ==> i <= f < b.len() && b[f] is None,
        first_free_from(b, i) is None ==> forall|j: int| i <= j < b.len() ==> (#[trigger] b[j]) is Some,
    decreases b.len() - i,
{
    if i < b.len() && !(b[i] is None) {
        lemma_first_free_points_at_none(b, i + 1);
    }
}

/// Whether some ability of the spell targets a single ally.
fn spell_wants_target(sp: &Spell) -> (r: bool)
    ensures
        r == wants_ally_target(*sp),
{
    let mut i: usize = 0;
    while i < sp.abilities.len()
        invariant
            i <= sp.abilities.len(),
            forall|j: int| 0 <= j < i ==> !((#[trigger] sp.abilities@[j]).target is AllyTarget),
        decreases sp.abilities.len() - i,
    {
        let hit: bool = match sp.abilities[i].target {
            AbilityTarget::AllyTarget => true,
            _ => false,
        };
        if hit {
            return true;
        }
        i = i + 1;
    }
    false
}

/// Agreement on unit identities chains across boards.
pub proof fn lemma_same_shape_trans(
    a: Seq<Option<CharacterInstance>>,
    b: Seq<Option<CharacterInstance>>,
    c: Seq<Option<CharacterInstance>>,
)
    requires
        same_shape(a, b),
        same_shape(b, c),
    ensures
        same_shape(a, c),
{
    assert forall|i: int| 0 <= i < a.len() implies same_unit_identity(
        #[trigger] a[i],
        #[trigger] c[i],
    ) by {
        assert(same_unit_identity(a[i], b[i]));
        assert(same_unit_identity(b[i], c[i]));
    }
}

/// A board's occupied count is never negative.
pub proof fn lemma_occupied_count_nonneg(b: Seq<Option<CharacterInstance>>)
    ensures
        0 <= occupied_count(b) <= b.len(),
    decreases b.len(),
{
    if b.len() > 0 {
        lemma_occupied_count_nonneg(b.drop_last());
    }
}

/// The capacity bounds of a well-formed roster: the board occupancy never
/// exceeds `BOARD_SIZE`, the spell inventory never exceeds `MAX_SPELLS`,
/// and the shop rows never exceed their capacities.  Money is a `u16`, so
/// it can neither go negative nor leave its type's range.  Every mutating
/// roster operation requires and re-establishes well-formedness, so these
/// bounds survive any sequence of such operations.
pub proof fn lemma_roster_capacities(p: GameInstancePlayer)
    requires
        p.wf(),
    ensures
        0 <= occupied_count(p.board@) <= BOARD_SIZE,
        p.spells.len() <= MAX_SPELLS,
        p.shop.characters.len() <= crate::SHOP_SIZE,
        p.shop.spells.len() <= crate::SHOP_SPELL_SIZE,
{
    lemma_occupied_count_nonneg(p.board@);
}

/// Levels never fall as experience grows.
pub proof fn lemma_lvl_monotonic(e1: u8, e2: u8)
    requires
        e1 <= e2,
    ensures
        lvl_of(e1) <= lvl_of(e2),
{
    assert(e1 / EXP_PER_LVL <= e2 / EXP_PER_LVL) by (nonlinear_arith)
        requires
            e1 <= e2,
            EXP_PER_LVL > 0,
    ;
}

/// The level clamp: no experience means level zero, and experience at or
/// beyond `EXP_PER_LVL * MAX_LVL` pins the level at `MAX_LVL`.
pub proof fn lemma_lvl_clamped(e: u8)
    ensures
        lvl_of(0) == 0,
        e >= EXP_PER_LVL * MAX_LVL ==> lvl_of(e) == MAX_LVL,
{
    if e >= EXP_PER_LVL * MAX_LVL {
        assert(e / EXP_PER_LVL >= MAX_LVL) by (nonlinear_arith)
            requires
                e >= EXP_PER_LVL * MAX_LVL,
                EXP_PER_LVL > 0,
        ;
    }
}

} // verus!
