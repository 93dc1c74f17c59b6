use autobattler_core::ability::{Ability, AbilityEffect, AbilityTarget, AbilityTrigger, AbilityValue};
use autobattler_core::catalog::{Catalog, God, UnitDefinition};
use autobattler_core::character::CharacterInstance;
use autobattler_core::player::GameInstancePlayer;
use autobattler_core::spell::Spell;
use autobattler_core::GameError;
use autobattler_core::{BOARD_SIZE, MAX_SPELLS, START_HEALTH, START_MONEY};

fn unit(id: i32, cost: u8, attack: i32, health: i32) -> UnitDefinition {
    UnitDefinition {
        id,
        name: format!("unit-{}", id),
        cost,
        attack,
        health,
        abilities: Vec::new(),
    }
}

fn test_catalog() -> Catalog {
    Catalog {
        units: vec![
            unit(0, 1, 2, 3),
            unit(1, 1, 1, 1),
            unit(2, 2, 4, 4),
            unit(3, 3, 5, 6),
        ],
        spells: vec![heal_spell(0, 1, 1)],
        gods: vec![God {
            id: 0,
            name: "first".to_string(),
            description: "a god".to_string(),
            pantheon: "north".to_string(),
        }],
    }
}

fn heal_spell(id: i32, cost: u8, lvl: u8) -> Spell {
    Spell {
        id,
        name: format!("spell-{}", id),
        description: "restores spirits".to_string(),
        cost,
        lvl,
        abilities: vec![Ability {
            trigger: AbilityTrigger::OnBuy,
            target: AbilityTarget::AllyTarget,
            effect: AbilityEffect::Buff(Some(AbilityValue::Plain(1)), Some(AbilityValue::Plain(2)), true),
        }],
    }
}

fn fresh_player() -> GameInstancePlayer {
    GameInstancePlayer::new(Some(7), "tester".to_string(), [0, 1, 2, 3])
}

fn instance_of(catalog: &Catalog, idx: usize, id: u128) -> CharacterInstance {
    let entry = &catalog.units[idx];
    CharacterInstance {
        id,
        character_id: entry.id,
        cost: entry.cost,
        upgraded: false,
        attack: entry.attack,
        health: entry.health,
        attack_bonus: 0,
        health_bonus: 0,
        temp_attack_bonus: 0,
        temp_health_bonus: 0,
    }
}

#[test]
fn new_player_starts_with_constants() {
    let p = fresh_player();
    assert_eq!(p.health, START_HEALTH);
    assert_eq!(p.money, START_MONEY);
    assert_eq!(p.board.len(), BOARD_SIZE);
    assert!(p.board.iter().all(|s| s.is_none()));
    assert!(p.placement.is_none());
    assert_eq!(p.god_choices, [0, 1, 2, 3]);
}

#[test]
fn reroll_with_no_money_fails_and_keeps_shop() {
    let catalog = test_catalog();
    let mut p = fresh_player();
    p.generate_shop(&catalog);
    let before_units: Vec<Option<i32>> = p
        .shop
        .characters
        .iter()
        .map(|s| s.as_ref().map(|c| c.character_id))
        .collect();
    p.money = 0;
    assert_eq!(p.reroll(&catalog), Err(GameError::InsufficientFunds));
    assert_eq!(p.money, 0);
    let after_units: Vec<Option<i32>> = p
        .shop
        .characters
        .iter()
        .map(|s| s.as_ref().map(|c| c.character_id))
        .collect();
    assert_eq!(before_units, after_units);
}

#[test]
fn reroll_costs_exactly_one_coin() {
    let catalog = test_catalog();
    let mut p = fresh_player();
    p.money = 5;
    assert_eq!(p.reroll(&catalog), Ok(()));
    assert_eq!(p.money, 4);
    assert!(!p.shop.locked);
    // Level 1 roster: only cost-1 units may be offered.
    for slot in &p.shop.characters {
        let c = slot.as_ref().expect("fresh shop slots are occupied");
        assert!(c.cost <= p.get_lvl());
    }
}

#[test]
fn buy_character_on_empty_slot() {
    let catalog = test_catalog();
    let mut p = fresh_player();
    p.generate_shop(&catalog);
    let bought = p.shop.characters[0].clone().expect("shop slot 0 holds a unit");
    let money_before = p.money;
    assert_eq!(p.buy_character(&catalog, 0, 2), Ok(()));
    assert_eq!(p.money, money_before - bought.cost as u16);
    assert!(p.shop.characters[0].is_none());
    let placed = p.board[2].as_ref().expect("the bought unit stands at index 2");
    assert_eq!(placed.id, bought.id);
    assert_eq!(placed.character_id, bought.character_id);
}

#[test]
fn buy_character_errors() {
    let catalog = test_catalog();
    let mut p = fresh_player();
    p.generate_shop(&catalog);
    assert_eq!(p.buy_character(&catalog, 99, 0), Err(GameError::InvalidIndex));
    assert_eq!(p.buy_character(&catalog, 0, 99), Err(GameError::InvalidIndex));
    let money = p.money;
    p.money = 0;
    assert_eq!(p.buy_character(&catalog, 0, 0), Err(GameError::InsufficientFunds));
    p.money = money;
    assert_eq!(p.buy_character(&catalog, 0, 0), Ok(()));
    assert_eq!(p.buy_character(&catalog, 0, 1), Err(GameError::SlotEmpty));
}

#[test]
fn buy_character_merges_three_into_one_upgrade() {
    let catalog = test_catalog();
    let mut p = fresh_player();
    // Two unupgraded units of catalog id 0 with bonuses (1, 2) and (3, 4).
    let mut a = instance_of(&catalog, 0, 100);
    a.attack_bonus = 1;
    a.health_bonus = 2;
    let mut b = instance_of(&catalog, 0, 101);
    b.attack_bonus = 3;
    b.health_bonus = 4;
    p.board[1] = Some(a);
    p.board[5] = Some(b);
    // The shop offers a third, bonus-free.
    p.shop.characters = vec![Some(instance_of(&catalog, 0, 102))];
    p.money = 10;
    assert_eq!(p.buy_character(&catalog, 0, 3), Ok(()));
    // The three originals are gone; one upgraded unit carries (4, 6).
    let mut found = None;
    let mut occupied = 0;
    for slot in &p.board {
        if let Some(c) = slot {
            occupied += 1;
            found = Some(c.clone());
        }
    }
    assert_eq!(occupied, 1);
    let merged = found.expect("the merged unit stands on the board");
    assert!(merged.upgraded);
    assert_eq!(merged.character_id, 0);
    assert_eq!(merged.attack_bonus, 1 + 3);
    assert_eq!(merged.health_bonus, 2 + 4);
    assert_eq!(merged.attack, 2 * catalog.units[0].attack);
    assert_eq!(merged.health, 2 * catalog.units[0].health);
    assert_eq!(merged.temp_attack_bonus, 0);
    assert_eq!(merged.temp_health_bonus, 0);
}

#[test]
fn buy_character_moves_incumbent_to_free_slot() {
    let catalog = test_catalog();
    let mut p = fresh_player();
    let incumbent = instance_of(&catalog, 1, 200);
    p.board[0] = Some(incumbent.clone());
    p.shop.characters = vec![Some(instance_of(&catalog, 2, 201))];
    p.money = 10;
    assert_eq!(p.buy_character(&catalog, 0, 0), Ok(()));
    assert_eq!(p.board[0].as_ref().unwrap().id, 201);
    assert_eq!(p.board[1].as_ref().unwrap().id, 200);
}

#[test]
fn buy_character_full_board_with_occupied_target_fails() {
    let catalog = test_catalog();
    let mut p = fresh_player();
    for i in 0..BOARD_SIZE {
        // Already-upgraded units cannot merge, so no slot frees up.
        let mut u = instance_of(&catalog, i % 4, 300 + i as u128);
        u.upgraded = true;
        p.board[i] = Some(u);
    }
    p.shop.characters = vec![Some(instance_of(&catalog, 3, 400))];
    p.money = 10;
    let money_before = p.money;
    assert_eq!(p.buy_character(&catalog, 0, 0), Err(GameError::CapacityExceeded));
    assert_eq!(p.money, money_before);
    assert!(p.shop.characters[0].is_some());
}

#[test]
fn sell_character_refunds_one_coin() {
    let catalog = test_catalog();
    let mut p = fresh_player();
    p.board[4] = Some(instance_of(&catalog, 3, 500));
    p.money = 2;
    assert_eq!(p.sell_character(4), Ok(()));
    // A flat refund of 1, independent of the unit's cost of 3.
    assert_eq!(p.money, 3);
    assert!(p.board[4].is_none());
    // Selling an empty slot fails without touching money.
    assert_eq!(p.sell_character(4), Err(GameError::SlotEmpty));
    assert_eq!(p.money, 3);
    assert_eq!(p.sell_character(BOARD_SIZE), Err(GameError::InvalidIndex));
}

#[test]
fn move_character_swaps_slots() {
    let catalog = test_catalog();
    let mut p = fresh_player();
    p.board[0] = Some(instance_of(&catalog, 0, 600));
    assert_eq!(p.move_character(0, 7), Ok(()));
    assert!(p.board[0].is_none());
    assert_eq!(p.board[7].as_ref().unwrap().id, 600);
    assert_eq!(p.move_character(3, 8), Err(GameError::InvalidIndex));
}

#[test]
fn get_lvl_divides_and_clamps() {
    let mut p = fresh_player();
    p.experience = 0;
    assert_eq!(p.get_lvl(), 0);
    p.experience = 2;
    assert_eq!(p.get_lvl(), 1);
    p.experience = 5;
    assert_eq!(p.get_lvl(), 2);
    p.experience = 12;
    assert_eq!(p.get_lvl(), 6);
    p.experience = 255;
    assert_eq!(p.get_lvl(), 6);
    // Monotonic on a sweep.
    let mut last = 0;
    for e in 0..=255u8 {
        p.experience = e;
        let l = p.get_lvl();
        assert!(l >= last);
        last = l;
    }
}

#[test]
fn buy_spell_casts_on_buy_buff() {
    let catalog = test_catalog();
    let mut p = fresh_player();
    p.board[2] = Some(instance_of(&catalog, 0, 700));
    p.shop.spells = vec![Some(heal_spell(0, 1, 1))];
    p.money = 4;
    assert_eq!(p.buy_spell(0, Some(2)), Ok(()));
    assert_eq!(p.money, 3);
    assert!(p.shop.spells[0].is_none());
    assert_eq!(p.spells.len(), 1);
    let buffed = p.board[2].as_ref().unwrap();
    assert_eq!(buffed.attack_bonus, 1);
    assert_eq!(buffed.health_bonus, 2);
}

#[test]
fn buy_spell_validates_inventory_index_money_and_target() {
    let mut p = fresh_player();
    p.shop.spells = vec![Some(target_spell())];
    p.money = 5;
    // Full inventory.
    let filler: Vec<_> = (0..MAX_SPELLS as i32).map(|i| heal_spell(i, 1, 1)).collect();
    p.spells = filler;
    assert_eq!(p.buy_spell(0, Some(0)), Err(GameError::CapacityExceeded));
    p.spells = Vec::new();
    // Bad shop index.
    assert_eq!(p.buy_spell(9, Some(0)), Err(GameError::InvalidIndex));
    // Not enough money.
    p.money = 0;
    assert_eq!(p.buy_spell(0, Some(0)), Err(GameError::InsufficientFunds));
    p.money = 5;
    // An ally-targeting spell without a target, or with one off the board.
    assert_eq!(p.buy_spell(0, None), Err(GameError::InvalidTarget));
    assert_eq!(p.buy_spell(0, Some(BOARD_SIZE)), Err(GameError::InvalidTarget));
    // The failures left the purchase uncommitted.
    assert_eq!(p.money, 5);
    assert!(p.shop.spells[0].is_some());
    assert!(p.spells.is_empty());
}

fn target_spell() -> Spell {
    Spell {
        id: 9,
        name: "focus".to_string(),
        description: "one ally grows".to_string(),
        cost: 1,
        lvl: 1,
        abilities: vec![Ability {
            trigger: AbilityTrigger::OnBuy,
            target: AbilityTarget::AllyTarget,
            effect: AbilityEffect::Buff(Some(AbilityValue::Plain(2)), None, false),
        }],
    }
}

#[test]
fn buy_spell_ally_target_buffs_some_unit() {
    let catalog = test_catalog();
    let mut p = fresh_player();
    p.board[3] = Some(instance_of(&catalog, 0, 800));
    p.shop.spells = vec![Some(target_spell())];
    p.money = 5;
    assert_eq!(p.buy_spell(0, Some(0)), Ok(()));
    // The only occupied slot must have received the temporary buff.
    let buffed = p.board[3].as_ref().unwrap();
    assert_eq!(buffed.temp_attack_bonus, 2);
}

#[test]
fn unimplemented_effect_fails_loudly_after_commit() {
    let mut p = fresh_player();
    let spell = Spell {
        id: 5,
        name: "shadow".to_string(),
        description: "not modelled yet".to_string(),
        cost: 2,
        lvl: 1,
        abilities: vec![Ability {
            trigger: AbilityTrigger::OnBuy,
            target: AbilityTarget::AllTarget,
            effect: AbilityEffect::Stealth,
        }],
    };
    p.shop.spells = vec![Some(spell)];
    p.money = 5;
    assert_eq!(p.buy_spell(0, None), Err(GameError::UnimplementedEffect));
    // The purchase itself had already committed: documented non-atomic path.
    assert_eq!(p.money, 3);
    assert_eq!(p.spells.len(), 1);
    assert!(p.shop.spells[0].is_none());
}

#[test]
fn upgrade_rejects_bad_groups() {
    let catalog = test_catalog();
    let mut p = fresh_player();
    let a = instance_of(&catalog, 0, 900);
    let b = instance_of(&catalog, 0, 901);
    let c_other = instance_of(&catalog, 1, 902);
    assert_eq!(
        p.upgrade(&catalog, vec![a.clone(), b.clone()]),
        Err(GameError::CapacityExceeded)
    );
    assert_eq!(
        p.upgrade(&catalog, vec![a.clone(), b.clone(), c_other]),
        Err(GameError::InvalidTarget)
    );
    let mut upgraded = instance_of(&catalog, 0, 903);
    upgraded.upgraded = true;
    assert_eq!(
        p.upgrade(&catalog, vec![a, b, upgraded]),
        Err(GameError::InvalidTarget)
    );
}

#[test]
fn cast_self_target_needs_an_occupied_slot() {
    let catalog = test_catalog();
    let mut p = fresh_player();
    p.board[2] = Some(instance_of(&catalog, 0, 850));
    let ability = Ability {
        trigger: AbilityTrigger::OnBuy,
        target: AbilityTarget::SelfTarget,
        effect: AbilityEffect::Buff(Some(AbilityValue::PercentHealth(50)), None, false),
    };
    // Half of the unit's total health of 3 truncates to 1.
    assert_eq!(p.cast_ability(&ability, Some(2)), Ok(()));
    assert_eq!(p.board[2].as_ref().unwrap().temp_attack_bonus, 1);
    // An empty slot, a missing target and a bad index all fail.
    assert_eq!(p.cast_ability(&ability, Some(3)), Err(GameError::InvalidTarget));
    assert_eq!(p.cast_ability(&ability, None), Err(GameError::InvalidTarget));
    assert_eq!(p.cast_ability(&ability, Some(99)), Err(GameError::InvalidTarget));
}

#[test]
fn reset_temp_bonuses_clears_only_temporaries() {
    let catalog = test_catalog();
    let mut p = fresh_player();
    let mut u = instance_of(&catalog, 0, 950);
    u.attack_bonus = 5;
    u.temp_attack_bonus = 7;
    u.temp_health_bonus = 9;
    p.board[0] = Some(u);
    p.reset_temp_bonuses();
    let after = p.board[0].as_ref().unwrap();
    assert_eq!(after.attack_bonus, 5);
    assert_eq!(after.temp_attack_bonus, 0);
    assert_eq!(after.temp_health_bonus, 0);
}

#[test]
fn placement_is_set_once() {
    let mut p = fresh_player();
    assert!(p.is_active());
    p.assign_placement(2);
    assert_eq!(p.placement, Some(2));
    assert!(!p.is_active());
    // A second ranking cannot overwrite the first.
    p.assign_placement(1);
    assert_eq!(p.placement, Some(2));
}

#[test]
fn opponent_info_reports_the_roster() {
    let p = fresh_player();
    let info = p.opponent_info(true);
    assert_eq!(info.name, "tester");
    assert_eq!(info.health, START_HEALTH);
    assert_eq!(info.character_id, 0);
    assert!(info.is_next_opponent);
}

#[test]
fn with_god_picks_the_god() {
    let catalog = test_catalog();
    let p = fresh_player().with_god(God {
        id: 3,
        name: "third".to_string(),
        description: "a god".to_string(),
        pantheon: "south".to_string(),
    });
    assert_eq!(p.opponent_info(false).character_id, 3);
    let _ = catalog;
}
