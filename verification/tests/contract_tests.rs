use ai_heroes::errors::GameError;
use ai_heroes::events::Notification;
use ai_heroes::types::HeroClass;
use ai_heroes::types::Rarity;
use ai_heroes::AIHeroesContract;

const OWNER: u64 = 1;
const ALICE: u64 = 10;
const CREATION_FEE: u128 = 1_000_000_000_000_000_000;
const AI_FEE: u128 = 1_000_000_000_000_000_000;

fn setup() -> AIHeroesContract {
    AIHeroesContract::init(OWNER, 777)
}

#[test]
fn init_starts_unpaused_with_no_heroes_and_no_revenue() {
    let c = setup();
    assert_eq!(c.get_total_heroes(), 0);
    assert_eq!(c.get_total_revenue(), 0);
    assert!(c.require_not_paused().is_ok());
    assert!(c.get_hero(1).is_none());
    assert_eq!(c.get_user_hero_count(ALICE), 0);
    assert!(c.get_user_heroes(ALICE).is_empty());
    assert!(c.events.is_empty());
}

#[test]
fn pause_control_is_owner_only() {
    let mut c = setup();
    assert_eq!(c.set_paused(ALICE, true).unwrap_err(), GameError::Unauthorized);
    assert_eq!(c.emergency_pause(ALICE).unwrap_err(), GameError::Unauthorized);
    c.set_paused(OWNER, true).unwrap();
    assert_eq!(c.require_not_paused().unwrap_err(), GameError::Paused);
    // reads stay available while paused
    assert_eq!(c.get_total_heroes(), 0);
    // mutating operations short-circuit
    assert_eq!(
        c.level_up_hero(ALICE, 1).unwrap_err(),
        GameError::Paused
    );
    assert_eq!(c.transfer_hero(ALICE, 1, 2).unwrap_err(), GameError::Paused);
    assert_eq!(
        c.record_player_action(ALICE, 5, String::from("a"), 0, 0).unwrap_err(),
        GameError::Paused
    );
    assert_eq!(
        c.record_battle_outcome(OWNER, 5, 1, 2, 1, 10, 0).unwrap_err(),
        GameError::Paused
    );
    assert_eq!(
        c.record_economic_transaction(ALICE, 5, String::from("t"), 1, String::from("EGLD"))
            .unwrap_err(),
        GameError::Paused
    );
    assert_eq!(
        c.update_battle_stats(OWNER, 1, true, 1).unwrap_err(),
        GameError::Paused
    );
    assert_eq!(c.equip_item(ALICE, 1, 2, 0).unwrap_err(), GameError::Paused);
}

#[test]
fn creation_records_fee_event_then_creation_event() {
    let mut c = setup();
    c.create_hero(ALICE, CREATION_FEE, 100, HeroClass::Necromancer, b"Morrow".to_vec()).unwrap();
    assert_eq!(c.events.len(), 2);
    assert!(matches!(
        &c.events[0],
        Notification::FeeCollected { amount, from: a, .. } if *amount == CREATION_FEE && *a == ALICE
    ));
    assert!(matches!(
        &c.events[1],
        Notification::HeroCreated { hero_id: 1, owner: a, class: HeroClass::Necromancer, ai_generated: false } if *a == ALICE
    ));
}

#[test]
fn empty_personality_resolves_to_warrior_with_minimum_enhancement() {
    // byte length zero: class index 0 and scalar 0 mod 20 + 10 = 10
    let mut c = setup();
    let id = c
        .generate_ai_hero(ALICE, AI_FEE, 100, 3, b"Blank".to_vec(), None, Vec::new())
        .unwrap();
    let hero = c.get_hero(id).unwrap();
    assert_eq!(hero.class, HeroClass::Warrior);
    assert_eq!(hero.stats.strength, 110);
    assert_eq!(hero.stats.magic_power, 110);
    assert_eq!(hero.ai_traits.personality, Vec::<u8>::new());
}

#[test]
fn owner_count_always_matches_set_cardinality() {
    // the registry invariant, observed through the public accessors after
    // every create and transfer
    let mut c = setup();
    for i in 0..5 {
        let name = format!("h{}", i).into_bytes();
        c.create_hero(ALICE, CREATION_FEE, 100, HeroClass::Rogue, name).unwrap();
        assert_eq!(c.get_user_heroes(ALICE).len() as u32, c.get_user_hero_count(ALICE));
    }
    c.transfer_hero(ALICE, 3, 77).unwrap();
    assert_eq!(c.get_user_heroes(ALICE).len() as u32, c.get_user_hero_count(ALICE));
    assert_eq!(c.get_user_heroes(77).len() as u32, c.get_user_hero_count(77));
    c.transfer_hero(77, 3, ALICE).unwrap();
    assert_eq!(c.get_user_heroes(ALICE).len() as u32, c.get_user_hero_count(ALICE));
    assert_eq!(c.get_user_hero_count(77), 0);
}

#[test]
fn evolve_hero_gates_on_level_then_experience() {
    let mut c = setup();
    c.create_hero(ALICE, CREATION_FEE, 100, HeroClass::Elementalist, b"E".to_vec()).unwrap();
    let fee: u128 = 500_000_000_000_000_000;
    assert_eq!(c.evolve_hero(ALICE, fee - 1, 200, 1).unwrap_err(), GameError::Underpaid);
    assert_eq!(c.evolve_hero(ALICE, fee, 200, 1).unwrap_err(), GameError::GateNotMet);
    // reach level 10 but hold less than 1000 experience
    for _ in 0..9 {
        let level = c.get_hero(1).unwrap().level;
        c.update_battle_stats(OWNER, 1, false, (level as u64) * 100).unwrap();
        c.level_up_hero(ALICE, 1).unwrap();
    }
    assert_eq!(c.get_hero(1).unwrap().level, 10);
    assert_eq!(
        c.evolve_hero(ALICE, fee, 200, 1).unwrap_err(),
        GameError::InsufficientExperience
    );
    c.update_battle_stats(OWNER, 1, false, 1000).unwrap();
    c.evolve_hero(ALICE, fee, 200, 1).unwrap();
    let hero = c.get_hero(1).unwrap();
    assert_eq!(hero.level, 15);
    assert_eq!(hero.experience, 0);
    // rarity thresholds not reached at level 15
    assert_eq!(hero.rarity, Rarity::Common);
}

#[test]
fn level_up_and_evolve_report_missing_heroes() {
    let mut c = setup();
    assert_eq!(c.level_up_hero(ALICE, 9).unwrap_err(), GameError::HeroNotFound);
    assert_eq!(
        c.evolve_hero(ALICE, CREATION_FEE, 100, 9).unwrap_err(),
        GameError::HeroNotFound
    );
    assert_eq!(
        c.update_battle_stats(OWNER, 9, true, 1).unwrap_err(),
        GameError::HeroNotFound
    );
    assert!(c.get_hero_stats(9).is_none());
    assert!(c.get_hero_battle_stats(9).is_none());
    assert!(c.get_hero_evolution_history(9).is_none());
}

#[test]
fn hero_stat_views_report_level_stats_and_counters() {
    let mut c = setup();
    c.create_hero(ALICE, CREATION_FEE, 100, HeroClass::Mage, b"M".to_vec()).unwrap();
    let (level, stats) = c.get_hero_stats(1).unwrap();
    assert_eq!(level, 1);
    assert_eq!(stats.intelligence, 130);
    c.update_battle_stats(OWNER, 1, true, 5).unwrap();
    c.update_battle_stats(OWNER, 1, false, 5).unwrap();
    assert_eq!(c.get_hero_battle_stats(1).unwrap(), (2, 1));
}

#[test]
fn game_settings_store_arbitrary_entries() {
    let mut c = setup();
    assert_eq!(
        c.set_game_setting(ALICE, String::from("k"), String::from("v")).unwrap_err(),
        GameError::Unauthorized
    );
    c.set_game_setting(OWNER, String::from("season"), String::from("winter")).unwrap();
    assert_eq!(
        c.game_settings.get(&String::from("season")).map(|v| v.clone()),
        Some(String::from("winter"))
    );
    // the defaults written at initialization are present
    assert!(c.game_settings.get(&String::from("max_heroes_per_user")).is_some());
    assert!(c.game_settings.get(&String::from("ai_generation_fee")).is_some());
}
