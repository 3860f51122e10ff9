use ai_heroes::errors::GameError;
use ai_heroes::types::EvolutionType;
use ai_heroes::types::HeroClass;
use ai_heroes::types::Rarity;
use ai_heroes::AIHeroesContract;

const OWNER: u64 = 1;
const ALICE: u64 = 10;
const CREATION_FEE: u128 = 1_000_000_000_000_000_000;
const STAT_BOOST_COST: u128 = 500_000_000_000_000_000;
const RARITY_UPGRADE_COST: u128 = 1_000_000_000_000_000_000;
const ELEMENTAL_INFUSION_COST: u128 = 1_500_000_000_000_000_000;
const ABILITY_FEE: u128 = 200_000_000_000_000_000;
const ASCENSION_FEE: u128 = 5_000_000_000_000_000_000;

fn setup_with_hero() -> AIHeroesContract {
    let mut c = AIHeroesContract::init(OWNER, 777);
    c.create_hero(ALICE, CREATION_FEE, 100, HeroClass::Warrior, b"Aldric".to_vec()).unwrap();
    c
}

fn grind_to_level(c: &mut AIHeroesContract, hero_id: u64, target: u32) {
    loop {
        let level = c.get_hero(hero_id).unwrap().level;
        if level >= target {
            break;
        }
        let needed = (level as u64) * 100;
        c.update_battle_stats(OWNER, hero_id, false, needed).unwrap();
        c.level_up_hero(ALICE, hero_id).unwrap();
    }
}

#[test]
fn rarity_upgrade_at_level_24_fails_with_gate_error_regardless_of_payment() {
    // scenario: the level requirement is judged before the payment
    let mut c = setup_with_hero();
    grind_to_level(&mut c, 1, 24);
    assert_eq!(c.get_hero(1).unwrap().level, 24);
    let generous: u128 = 50_000_000_000_000_000_000;
    let r = c.trigger_evolution(ALICE, generous, 900, 3, 1, EvolutionType::RarityUpgrade);
    assert_eq!(r.unwrap_err(), GameError::GateNotMet);
    // with no payment at all the level requirement still fails first
    let r = c.trigger_evolution(ALICE, 0, 900, 3, 1, EvolutionType::RarityUpgrade);
    assert_eq!(r.unwrap_err(), GameError::GateNotMet);
    // one more level meets the requirement; now payment is judged
    grind_to_level(&mut c, 1, 25);
    let r = c.trigger_evolution(ALICE, RARITY_UPGRADE_COST - 1, 900, 3, 1, EvolutionType::RarityUpgrade);
    assert_eq!(r.unwrap_err(), GameError::Underpaid);
    c.trigger_evolution(ALICE, RARITY_UPGRADE_COST, 900, 3, 1, EvolutionType::RarityUpgrade)
        .unwrap();
    assert_eq!(c.get_hero(1).unwrap().rarity, Rarity::Rare);
}

#[test]
fn stat_boost_applies_fixed_deltas_and_one_bonus_level() {
    let mut c = setup_with_hero();
    grind_to_level(&mut c, 1, 10);
    let before = c.get_hero(1).unwrap().stats;
    let level_before = c.get_hero(1).unwrap().level;
    c.trigger_evolution(ALICE, STAT_BOOST_COST, 900, 3, 1, EvolutionType::StatBoost).unwrap();
    let hero = c.get_hero(1).unwrap();
    assert_eq!(hero.level, level_before + 1);
    assert_eq!(hero.last_evolution, 900);
    assert_eq!(hero.stats.vitality, before.vitality + 25);
    assert_eq!(hero.stats.strength, before.strength + 15);
    assert_eq!(hero.stats.magic_power, before.magic_power + 12);
    assert_eq!(hero.stats.agility, before.agility + 10);
    assert_eq!(hero.stats.intelligence, before.intelligence + 8);
    assert_eq!(hero.stats.luck, before.luck);
}

#[test]
fn class_evolution_requires_battle_experience() {
    let mut c = setup_with_hero();
    grind_to_level(&mut c, 1, 50);
    // level 50 reached through grinding leaves battle_count high enough only
    // after explicit battles; the grind already recorded battles, so check the
    // gate by reading the counters
    let fought = c.get_hero(1).unwrap().battle_count;
    assert!(fought >= 20);
    let before = c.get_hero(1).unwrap().stats;
    c.trigger_evolution(ALICE, 2_000_000_000_000_000_000, 900, 3, 1, EvolutionType::ClassEvolution)
        .unwrap();
    let hero = c.get_hero(1).unwrap();
    // warrior bonus
    assert_eq!(hero.stats.vitality, before.vitality + 80);
    assert_eq!(hero.stats.strength, before.strength + 50);
    assert_eq!(hero.stats.magic_power, before.magic_power + 40);
}

#[test]
fn elemental_infusion_grants_tick_chosen_ability_once() {
    let mut c = setup_with_hero();
    grind_to_level(&mut c, 1, 30);
    c.trigger_evolution(ALICE, RARITY_UPGRADE_COST, 900, 3, 1, EvolutionType::RarityUpgrade)
        .unwrap();
    assert_eq!(c.get_hero(1).unwrap().rarity, Rarity::Rare);
    // tick 7 draws ability 102 (7 mod 5 = 2)
    c.trigger_evolution(ALICE, ELEMENTAL_INFUSION_COST, 901, 7, 1, EvolutionType::ElementalInfusion)
        .unwrap();
    assert_eq!(c.get_hero(1).unwrap().special_abilities, vec![102]);
    // the same draw again does not duplicate the ability
    c.trigger_evolution(ALICE, ELEMENTAL_INFUSION_COST, 902, 7, 1, EvolutionType::ElementalInfusion)
        .unwrap();
    assert_eq!(c.get_hero(1).unwrap().special_abilities, vec![102]);
}

#[test]
fn unlock_already_held_ability_fails_and_leaves_list_unchanged() {
    // idempotence: a second unlock of the same id is rejected outright
    let mut c = setup_with_hero();
    grind_to_level(&mut c, 1, 25);
    c.unlock_special_ability(ALICE, ABILITY_FEE, 1, 5).unwrap();
    assert_eq!(c.get_hero(1).unwrap().special_abilities, vec![5]);
    let r = c.unlock_special_ability(ALICE, ABILITY_FEE, 1, 5);
    assert_eq!(r.unwrap_err(), GameError::AbilityAlreadyUnlocked);
    assert_eq!(c.get_hero(1).unwrap().special_abilities, vec![5]);
    // and the revenue ledger saw exactly one ability fee
    assert_eq!(
        c.get_revenue_by_type(&String::from("ability_unlock")),
        ABILITY_FEE
    );
}

#[test]
fn ability_slots_cap_at_five() {
    let mut c = setup_with_hero();
    grind_to_level(&mut c, 1, 25);
    for ability in [5u32, 6, 7, 8, 9] {
        c.unlock_special_ability(ALICE, ABILITY_FEE, 1, ability).unwrap();
    }
    let r = c.unlock_special_ability(ALICE, ABILITY_FEE, 1, 10);
    assert_eq!(r.unwrap_err(), GameError::AbilitySlotsFull);
    assert_eq!(c.get_hero(1).unwrap().special_abilities.len(), 5);
}

#[test]
fn ability_unlock_gates_on_level_and_payment() {
    let mut c = setup_with_hero();
    assert_eq!(
        c.unlock_special_ability(ALICE, ABILITY_FEE, 1, 5).unwrap_err(),
        GameError::GateNotMet
    );
    grind_to_level(&mut c, 1, 25);
    assert_eq!(
        c.unlock_special_ability(ALICE, ABILITY_FEE - 1, 1, 5).unwrap_err(),
        GameError::Underpaid
    );
}

#[test]
fn ascension_doubles_core_stats_and_is_not_repeatable() {
    // scenario: a level-100 Legendary hero with 50 wins ascends exactly once
    let mut c = setup_with_hero();
    grind_to_level(&mut c, 1, 25);
    for _ in 0..3 {
        c.trigger_evolution(ALICE, RARITY_UPGRADE_COST, 900, 3, 1, EvolutionType::RarityUpgrade)
            .unwrap();
    }
    assert_eq!(c.get_hero(1).unwrap().rarity, Rarity::Legendary);
    for _ in 0..50 {
        c.update_battle_stats(OWNER, 1, true, 0).unwrap();
    }
    grind_to_level(&mut c, 1, 100);
    assert!(c.can_ascend(1));

    let before = c.get_hero(1).unwrap().stats;
    c.ascend_hero(ALICE, ASCENSION_FEE, 1000, 1).unwrap();
    let hero = c.get_hero(1).unwrap();
    assert_eq!(hero.rarity, Rarity::Mythical);
    assert_eq!(hero.level, 1);
    assert_eq!(hero.experience, 0);
    assert_eq!(hero.stats.strength, before.strength * 2);
    assert_eq!(hero.stats.intelligence, before.intelligence * 2);
    assert_eq!(hero.stats.agility, before.agility * 2);
    assert_eq!(hero.stats.vitality, before.vitality * 2);
    assert_eq!(hero.stats.magic_power, before.magic_power * 2);
    assert_eq!(hero.stats.luck, before.luck);
    let held: Vec<u32> = hero.special_abilities.iter().filter(|a| **a == 999).cloned().collect();
    assert_eq!(held.len(), 1);

    // re-entry is impossible: rarity is no longer Legendary
    let r = c.ascend_hero(ALICE, ASCENSION_FEE, 1001, 1);
    assert_eq!(r.unwrap_err(), GameError::GateNotMet);
    let held: Vec<u32> =
        c.get_hero(1).unwrap().special_abilities.iter().filter(|a| **a == 999).cloned().collect();
    assert_eq!(held.len(), 1);
}

#[test]
fn ascension_gate_checks_level_rarity_and_wins() {
    let mut c = setup_with_hero();
    assert_eq!(
        c.ascend_hero(ALICE, ASCENSION_FEE, 1000, 1).unwrap_err(),
        GameError::GateNotMet
    );
    assert_eq!(
        c.ascend_hero(ALICE, ASCENSION_FEE - 1, 1000, 1).unwrap_err(),
        GameError::Underpaid
    );
    assert!(!c.can_ascend(1));
}

#[test]
fn evolution_costs_match_the_table() {
    assert_eq!(
        ai_heroes::evolution::get_evolution_cost(&EvolutionType::StatBoost),
        STAT_BOOST_COST
    );
    assert_eq!(
        ai_heroes::evolution::get_evolution_cost(&EvolutionType::RarityUpgrade),
        RARITY_UPGRADE_COST
    );
    assert_eq!(
        ai_heroes::evolution::get_evolution_cost(&EvolutionType::ClassEvolution),
        2_000_000_000_000_000_000
    );
    assert_eq!(
        ai_heroes::evolution::get_evolution_cost(&EvolutionType::ElementalInfusion),
        ELEMENTAL_INFUSION_COST
    );
    assert_eq!(ai_heroes::evolution::get_ability_cost(), ABILITY_FEE);
    assert_eq!(ai_heroes::evolution::get_ascension_cost(), ASCENSION_FEE);
    assert_eq!(ai_heroes::evolution::get_random_elemental_ability(7), 102);
    assert_eq!(ai_heroes::evolution::get_random_elemental_ability(10), 100);
}

#[test]
fn can_evolve_reports_each_gate() {
    let mut c = setup_with_hero();
    assert!(!c.can_evolve(1, EvolutionType::StatBoost));
    grind_to_level(&mut c, 1, 10);
    assert!(c.can_evolve(1, EvolutionType::StatBoost));
    assert!(!c.can_evolve(1, EvolutionType::RarityUpgrade));
    assert!(!c.can_evolve(1, EvolutionType::ElementalInfusion));
    assert!(!c.can_evolve(99, EvolutionType::StatBoost));
    let history = c.get_hero_evolution_history(1).unwrap();
    assert_eq!(history.1, 0);
}
