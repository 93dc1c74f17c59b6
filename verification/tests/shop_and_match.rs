use autobattler_core::ability::{calculate_amount, AbilityValue};
use autobattler_core::catalog::{Catalog, God, UnitDefinition};
use autobattler_core::character::CharacterInstance;
use autobattler_core::game::{deal_god_choices, get_next_turn_time, next_turn_time_from};
use autobattler_core::lobby::{Lobby, LobbyUser, NewLobbyUser, User};
use autobattler_core::player::GameInstancePlayer;
use autobattler_core::shop::Shop;
use autobattler_core::spell::Spell;
use autobattler_core::{SHOP_SIZE, SHOP_SPELL_SIZE};

fn unit(id: i32, cost: u8) -> UnitDefinition {
    UnitDefinition {
        id,
        name: format!("unit-{}", id),
        cost,
        attack: 2,
        health: 2,
        abilities: Vec::new(),
    }
}

fn spell(id: i32, lvl: u8) -> Spell {
    Spell {
        id,
        name: format!("spell-{}", id),
        description: "does something".to_string(),
        cost: 1,
        lvl,
        abilities: Vec::new(),
    }
}

fn wide_catalog() -> Catalog {
    Catalog {
        units: (0..10).map(|i| unit(i, if i < 6 { 1 } else { 2 })).collect(),
        spells: vec![spell(0, 1), spell(1, 1), spell(2, 3)],
        gods: (0..12)
            .map(|i| God {
                id: i,
                name: format!("god-{}", i),
                description: "watches".to_string(),
                pantheon: "old".to_string(),
            })
            .collect(),
    }
}

#[test]
fn fresh_shop_is_full_and_level_filtered() {
    let catalog = wide_catalog();
    let shop = Shop::new(&catalog, 1);
    assert_eq!(shop.characters.len(), SHOP_SIZE.min(6));
    assert_eq!(shop.spells.len(), SHOP_SPELL_SIZE.min(2));
    assert!(!shop.locked);
    for slot in &shop.characters {
        let c = slot.as_ref().expect("fresh unit slots are occupied");
        assert!(c.cost <= 1);
        assert!(!c.upgraded);
        assert_eq!(c.attack_bonus, 0);
        // The offer mirrors its catalog entry.
        let entry = &catalog.units[c.character_id as usize];
        assert_eq!(c.attack, entry.attack);
        assert_eq!(c.cost, entry.cost);
    }
    for slot in &shop.spells {
        let s = slot.as_ref().expect("fresh spell slots are occupied");
        assert!(s.lvl <= 1);
    }
}

#[test]
fn small_catalog_yields_partial_shop() {
    let catalog = Catalog {
        units: vec![unit(0, 1), unit(1, 2)],
        spells: Vec::new(),
        gods: Vec::new(),
    };
    let shop = Shop::new(&catalog, 1);
    // One eligible unit, no eligible spells: a partial shop, no error.
    assert_eq!(shop.characters.len(), 1);
    assert!(shop.spells.is_empty());
}

#[test]
fn fill_keeps_unsold_offers_and_tops_up() {
    let catalog = wide_catalog();
    let mut shop = Shop::new(&catalog, 1);
    // Buy everything but one distinctive offer.
    let kept = shop.characters[2].clone().expect("slot 2 holds a unit");
    for i in 0..shop.characters.len() {
        if i != 2 {
            shop.characters[i] = None;
        }
    }
    shop.spells = vec![None, None];
    shop.locked = true;
    shop.fill(&catalog, 1);
    assert!(!shop.locked);
    assert_eq!(shop.characters.len(), SHOP_SIZE.min(6));
    // The kept offer stands first, same instance.
    assert_eq!(shop.characters[0].as_ref().unwrap().id, kept.id);
    for slot in &shop.characters {
        assert!(slot.is_some());
    }
}

#[test]
fn generate_shop_respects_the_lock() {
    let catalog = wide_catalog();
    let mut p = GameInstancePlayer::new(None, "keeper".to_string(), [0, 0, 0, 0]);
    p.generate_shop(&catalog);
    let kept = p.shop.characters[1].clone().expect("slot 1 holds a unit");
    for i in 0..p.shop.characters.len() {
        if i != 1 {
            p.shop.characters[i] = None;
        }
    }
    p.shop.locked = true;
    p.generate_shop(&catalog);
    // The locked shop kept its offer (now first) and refilled the rest.
    assert_eq!(p.shop.characters[0].as_ref().unwrap().id, kept.id);
    assert!(!p.shop.locked);
    assert!(p.shop.characters.iter().all(|s| s.is_some()));
}

#[test]
fn percent_values_truncate_toward_zero() {
    let target = CharacterInstance {
        id: 1,
        character_id: 0,
        cost: 1,
        upgraded: false,
        attack: 7,
        health: 15,
        attack_bonus: 0,
        health_bonus: 5,
        temp_attack_bonus: 0,
        temp_health_bonus: 0,
    };
    // Total health 20: half of it is exactly 10.
    assert_eq!(calculate_amount(&Some(AbilityValue::PercentHealth(50)), &target), 10);
    // 55% of 20 is 11; 33% of 20 truncates from 6.6 to 6.
    assert_eq!(calculate_amount(&Some(AbilityValue::PercentHealth(55)), &target), 11);
    assert_eq!(calculate_amount(&Some(AbilityValue::PercentHealth(33)), &target), 6);
    // Attack percentages resolve against total attack of 7.
    assert_eq!(calculate_amount(&Some(AbilityValue::PercentAttack(50)), &target), 3);
    // A plain value passes through; a missing value is zero.
    assert_eq!(calculate_amount(&Some(AbilityValue::Plain(-4)), &target), -4);
    assert_eq!(calculate_amount(&None, &target), 0);
}

#[test]
fn deadlines_grow_with_the_round() {
    assert_eq!(next_turn_time_from(1_000, 1), 1_030);
    assert_eq!(next_turn_time_from(1_000, 2), 1_035);
    assert_eq!(next_turn_time_from(1_000, 7), 1_060);
    // Against the real clock the deadline still lies in the future.
    let d = get_next_turn_time(1);
    assert!(d > 0);
}

#[test]
fn god_choices_are_distinct_across_players() {
    let choices = deal_god_choices(12, 3);
    assert_eq!(choices.len(), 3);
    let mut seen = Vec::new();
    for four in &choices {
        for g in four {
            assert!((0..12).contains(g));
            assert!(!seen.contains(g), "god {} dealt twice", g);
            seen.push(*g);
        }
    }
    assert_eq!(seen.len(), 12);
}

#[test]
fn lobby_rows_carry_their_parents() {
    let lobby = Lobby { id: 42 };
    let user = User { id: 7, username: "renate".to_string() };
    let row = NewLobbyUser::from_parents(&lobby, &user);
    assert_eq!(row.lobby_id, 42);
    assert_eq!(row.user_id, 7);
    assert_eq!(row.username, "renate");
    let member = LobbyUser {
        id: 1,
        lobby_id: 42,
        user_id: 7,
        username: "renate".to_string(),
        ready: true,
        created_at: 0,
        updated_at: 0,
    };
    let info = member.info();
    assert_eq!(info.id, 1);
    assert_eq!(info.name, "renate");
    assert!(info.ready);
}
