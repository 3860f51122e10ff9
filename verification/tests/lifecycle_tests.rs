use ai_heroes::errors::GameError;
use ai_heroes::events::Notification;
use ai_heroes::types::HeroClass;
use ai_heroes::types::Rarity;
use ai_heroes::AIHeroesContract;

const OWNER: u64 = 1;
const SC_ADDRESS: u64 = 777;
const ALICE: u64 = 10;
const BOB: u64 = 11;
const CREATION_FEE: u128 = 1_000_000_000_000_000_000;
const AI_FEE: u128 = 1_000_000_000_000_000_000;
const BASIC_FEE: u128 = 500_000_000_000_000_000;

fn setup() -> AIHeroesContract {
    AIHeroesContract::init(OWNER, SC_ADDRESS)
}

/// Grants experience through the authorized battle callback, then levels up.
fn grind_to_level(c: &mut AIHeroesContract, player: u64, hero_id: u64, target: u32) {
    loop {
        let level = c.get_hero(hero_id).unwrap().level;
        if level >= target {
            break;
        }
        let needed = (level as u64) * 100;
        c.update_battle_stats(OWNER, hero_id, false, needed).unwrap();
        c.level_up_hero(player, hero_id).unwrap();
    }
}

#[test]
fn create_hero_assigns_sequential_ids_and_template_stats() {
    let mut c = setup();
    let id1 = c
        .create_hero(ALICE, CREATION_FEE, 100, HeroClass::Warrior, b"Aldric".to_vec())
        .unwrap();
    let id2 = c
        .create_hero(ALICE, CREATION_FEE, 101, HeroClass::Mage, b"Mira".to_vec())
        .unwrap();
    assert_eq!(id1, 1);
    assert_eq!(id2, 2);
    assert_eq!(c.get_total_heroes(), 2);

    let hero = c.get_hero(1).unwrap();
    assert_eq!(hero.level, 1);
    assert_eq!(hero.experience, 0);
    assert_eq!(hero.stats.strength, 130);
    assert_eq!(hero.stats.intelligence, 100);
    assert_eq!(hero.stats.agility, 110);
    assert_eq!(hero.stats.vitality, 120);
    assert_eq!(hero.stats.luck, 100);
    assert_eq!(hero.stats.magic_power, 90);
    assert_eq!(hero.rarity, Rarity::Common);
    assert_eq!(hero.owner, ALICE);
    assert_eq!(hero.name, b"Aldric".to_vec());
}

#[test]
fn create_hero_rejects_underpayment_and_respects_pause() {
    let mut c = setup();
    let r = c.create_hero(ALICE, CREATION_FEE - 1, 100, HeroClass::Rogue, b"X".to_vec());
    assert_eq!(r.unwrap_err(), GameError::Underpaid);

    c.set_paused(OWNER, true).unwrap();
    let r = c.create_hero(ALICE, CREATION_FEE, 100, HeroClass::Rogue, b"X".to_vec());
    assert_eq!(r.unwrap_err(), GameError::Paused);

    c.set_paused(OWNER, false).unwrap();
    assert!(c.create_hero(ALICE, CREATION_FEE, 100, HeroClass::Rogue, b"X".to_vec()).is_ok());
}

#[test]
fn quota_of_fifty_heroes_is_enforced_before_creation() {
    let mut c = setup();
    for i in 0..50 {
        let name = format!("hero{}", i).into_bytes();
        c.create_hero(ALICE, CREATION_FEE, 100, HeroClass::Warrior, name).unwrap();
    }
    assert_eq!(c.get_user_hero_count(ALICE), 50);
    let r = c.create_hero(ALICE, CREATION_FEE, 100, HeroClass::Warrior, b"one_too_many".to_vec());
    assert_eq!(r.unwrap_err(), GameError::QuotaExceeded);
    // another account is unaffected
    assert!(c.create_hero(BOB, CREATION_FEE, 100, HeroClass::Warrior, b"ok".to_vec()).is_ok());
}

#[test]
fn enhanced_generation_with_personality_length_23_adds_13_to_warrior_template() {
    // scenario: 23 mod 20 + 10 = 13 on every stat of the Warrior template
    let mut c = setup();
    let personality = vec![b'x'; 23];
    let id = c
        .generate_ai_hero(
            ALICE,
            AI_FEE,
            500,
            42,
            b"Enzo".to_vec(),
            Some(HeroClass::Warrior),
            personality,
        )
        .unwrap();
    let hero = c.get_hero(id).unwrap();
    assert_eq!(hero.stats.strength, 143);
    assert_eq!(hero.stats.intelligence, 113);
    assert_eq!(hero.stats.agility, 123);
    assert_eq!(hero.stats.vitality, 133);
    assert_eq!(hero.stats.luck, 113);
    assert_eq!(hero.stats.magic_power, 103);
    assert_eq!(hero.class, HeroClass::Warrior);
}

#[test]
fn enhanced_generation_without_hint_derives_class_from_personality_length() {
    let mut c = setup();
    // length 2 resolves to the third class of the enumeration
    let id = c
        .generate_ai_hero(ALICE, AI_FEE, 500, 42, b"N".to_vec(), None, vec![b'a'; 2])
        .unwrap();
    assert_eq!(c.get_hero(id).unwrap().class, HeroClass::Rogue);
    // identical lengths always resolve to the same class
    let id2 = c
        .generate_ai_hero(ALICE, AI_FEE, 501, 43, b"M".to_vec(), None, vec![b'z'; 2])
        .unwrap();
    assert_eq!(c.get_hero(id2).unwrap().class, HeroClass::Rogue);
    // the uniform template of 100 raised by 2 % 20 + 10 = 12
    assert_eq!(c.get_hero(id).unwrap().stats.strength, 112);
    assert_eq!(c.get_hero(id).unwrap().stats.magic_power, 112);
}

#[test]
fn enhanced_generation_records_prompt_and_entropy_traits() {
    let mut c = setup();
    let id = c
        .generate_ai_hero(
            ALICE,
            AI_FEE,
            500,
            40,
            b"Zara".to_vec(),
            Some(HeroClass::Mage),
            b"curious".to_vec(),
        )
        .unwrap();
    let hero = c.get_hero(id).unwrap();
    // adaptation 70 + 40 % 31 = 79, learning 60 + 40 % 31 = 69
    assert_eq!(hero.ai_traits.adaptation_rate, 79);
    assert_eq!(hero.ai_traits.learning_factor, 69);
    assert_eq!(hero.ai_traits.ai_seed, 40 + id);
    let request = c.ai_requests.get(1).unwrap();
    let expected = b"Generate RPG hero with name: Zara, preferred class: Mage, personality: curious. Return JSON with stats, traits, and battle style.".to_vec();
    assert_eq!(request.data, expected);
    assert!(!request.processed);
    assert_eq!(request.callback_address, SC_ADDRESS);
}

#[test]
fn basic_generation_uses_half_fee_and_default_traits() {
    let mut c = setup();
    let r = c.generate_basic_hero(ALICE, BASIC_FEE - 1, 200, b"Thorn".to_vec(), HeroClass::Paladin);
    assert_eq!(r.unwrap_err(), GameError::Underpaid);
    let id = c
        .generate_basic_hero(ALICE, BASIC_FEE, 200, b"Thorn".to_vec(), HeroClass::Paladin)
        .unwrap();
    let hero = c.get_hero(id).unwrap();
    assert_eq!(hero.stats.strength, 120);
    assert_eq!(hero.ai_traits.personality, b"Balanced".to_vec());
    assert_eq!(hero.ai_traits.adaptation_rate, 50);
    assert_eq!(hero.ai_traits.learning_factor, 50);
}

#[test]
fn transfer_moves_hero_seven_between_registries() {
    // scenario: hero #7 leaves A's set and joins B's, counts moving by one
    let mut c = setup();
    for i in 0..7 {
        let name = format!("h{}", i).into_bytes();
        c.create_hero(ALICE, CREATION_FEE, 100, HeroClass::Warrior, name).unwrap();
    }
    assert_eq!(c.get_user_hero_count(ALICE), 7);
    assert_eq!(c.get_user_hero_count(BOB), 0);

    c.transfer_hero(ALICE, 7, BOB).unwrap();

    assert_eq!(c.get_user_hero_count(ALICE), 6);
    assert_eq!(c.get_user_hero_count(BOB), 1);
    assert!(!c.get_user_heroes(ALICE).contains(&7));
    assert!(c.get_user_heroes(BOB).contains(&7));
    assert_eq!(c.get_hero(7).unwrap().owner, BOB);
    assert!(matches!(
        c.events.last(),
        Some(Notification::HeroTransferred { hero_id: 7, from: ALICE, to: BOB })
    ));
}

#[test]
fn transfer_rejects_non_owner_self_and_zero_recipient() {
    let mut c = setup();
    c.create_hero(ALICE, CREATION_FEE, 100, HeroClass::Warrior, b"A".to_vec()).unwrap();
    assert_eq!(c.transfer_hero(BOB, 1, BOB).unwrap_err(), GameError::NotOwner);
    assert_eq!(c.transfer_hero(ALICE, 1, 0).unwrap_err(), GameError::InvalidRecipient);
    assert_eq!(c.transfer_hero(ALICE, 1, ALICE).unwrap_err(), GameError::SelfTransfer);
    assert_eq!(c.transfer_hero(ALICE, 99, BOB).unwrap_err(), GameError::HeroNotFound);
    // the failed attempts changed nothing
    assert_eq!(c.get_user_hero_count(ALICE), 1);
    assert_eq!(c.get_hero(1).unwrap().owner, ALICE);
}

#[test]
fn level_up_consumes_threshold_and_applies_warrior_growth() {
    let mut c = setup();
    c.create_hero(ALICE, CREATION_FEE, 100, HeroClass::Warrior, b"A".to_vec()).unwrap();
    assert_eq!(
        c.level_up_hero(ALICE, 1).unwrap_err(),
        GameError::InsufficientExperience
    );
    // 150 experience: one level consumes 100, leaving 50 under the new threshold
    c.update_battle_stats(OWNER, 1, false, 150).unwrap();
    c.level_up_hero(ALICE, 1).unwrap();
    let hero = c.get_hero(1).unwrap();
    assert_eq!(hero.level, 2);
    assert_eq!(hero.experience, 50);
    assert!(hero.experience < (hero.level as u64) * 100);
    // warrior growth deltas on the template
    assert_eq!(hero.stats.strength, 138);
    assert_eq!(hero.stats.intelligence, 101);
    assert_eq!(hero.stats.agility, 112);
    assert_eq!(hero.stats.vitality, 135);
    assert_eq!(hero.stats.luck, 100);
    assert_eq!(hero.stats.magic_power, 96);
}

#[test]
fn battle_callback_requires_authorization() {
    let mut c = setup();
    c.create_hero(ALICE, CREATION_FEE, 100, HeroClass::Warrior, b"A".to_vec()).unwrap();
    assert_eq!(
        c.update_battle_stats(ALICE, 1, true, 10).unwrap_err(),
        GameError::Unauthorized
    );
    // allow-list a battle service account, then the callback passes
    c.add_authorized_contract(OWNER, 555).unwrap();
    c.update_battle_stats(555, 1, true, 10).unwrap();
    let hero = c.get_hero(1).unwrap();
    assert_eq!(hero.battle_count, 1);
    assert_eq!(hero.win_count, 1);
    assert_eq!(hero.experience, 10);
    // removing the account revokes the authorization
    c.remove_authorized_contract(OWNER, 555).unwrap();
    assert_eq!(
        c.update_battle_stats(555, 1, true, 10).unwrap_err(),
        GameError::Unauthorized
    );
}

#[test]
fn evolve_hero_grants_levels_resets_experience_and_steps_rarity() {
    let mut c = setup();
    c.create_hero(ALICE, CREATION_FEE, 100, HeroClass::Warrior, b"A".to_vec()).unwrap();
    grind_to_level(&mut c, ALICE, 1, 46);
    c.update_battle_stats(OWNER, 1, false, 1000).unwrap();
    let before = c.get_hero(1).unwrap().stats;
    c.evolve_hero(ALICE, 500_000_000_000_000_000, 900, 1).unwrap();
    let hero = c.get_hero(1).unwrap();
    assert_eq!(hero.level, 51);
    assert_eq!(hero.experience, 0);
    assert_eq!(hero.last_evolution, 900);
    // level 51 with Common rarity steps to Rare
    assert_eq!(hero.rarity, Rarity::Rare);
    assert_eq!(hero.stats.vitality, before.vitality + 50);
    assert_eq!(hero.stats.strength, before.strength + 25);
}

#[test]
fn equip_item_places_items_into_named_slots() {
    let mut c = setup();
    c.create_hero(ALICE, CREATION_FEE, 100, HeroClass::Warrior, b"A".to_vec()).unwrap();
    assert_eq!(c.equip_item(BOB, 1, 40, 0).unwrap_err(), GameError::NotOwner);
    assert_eq!(c.equip_item(ALICE, 1, 40, 5).unwrap_err(), GameError::GateNotMet);
    c.equip_item(ALICE, 1, 40, 0).unwrap();
    c.equip_item(ALICE, 1, 41, 4).unwrap();
    let hero = c.get_hero(1).unwrap();
    assert_eq!(hero.equipment.weapon, Some(40));
    assert_eq!(hero.equipment.accessory, Some(41));
    assert_eq!(hero.equipment.armor, None);
}

#[test]
fn heroes_by_rarity_lists_identifiers_in_ascending_order() {
    let mut c = setup();
    for i in 0..3 {
        let name = format!("h{}", i).into_bytes();
        c.create_hero(ALICE, CREATION_FEE, 100, HeroClass::Mage, name).unwrap();
    }
    assert_eq!(c.get_heroes_by_rarity(Rarity::Common), vec![1, 2, 3]);
    assert_eq!(c.get_heroes_by_rarity(Rarity::Rare), Vec::<u64>::new());
}

#[test]
fn contract_info_and_settings_reflect_administration() {
    let mut c = setup();
    let (owner, paused, count, endpoint) = c.get_contract_info();
    assert_eq!(owner, OWNER);
    assert!(!paused);
    assert_eq!(count, 0);
    assert_eq!(endpoint, String::new());
    assert_eq!(
        c.set_ai_endpoint(ALICE, String::from("nope")).unwrap_err(),
        GameError::Unauthorized
    );
    c.set_ai_endpoint(OWNER, String::from("generation-v2")).unwrap();
    assert_eq!(c.get_contract_info().3, String::from("generation-v2"));
    c.set_game_setting(OWNER, String::from("difficulty"), String::from("hard")).unwrap();
    c.emergency_pause(OWNER).unwrap();
    assert!(c.get_contract_info().1);
}
