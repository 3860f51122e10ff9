use ai_heroes::errors::GameError;
use ai_heroes::types::HeroClass;
use ai_heroes::AIHeroesContract;

const OWNER: u64 = 1;
const ALICE: u64 = 10;
const BOB: u64 = 11;
const CREATION_FEE: u128 = 1_000_000_000_000_000_000;
const DAY: u64 = 86_400;

fn setup() -> AIHeroesContract {
    AIHeroesContract::init(OWNER, 777)
}

#[test]
fn revenue_grand_total_equals_sum_of_categories() {
    // the ledger invariant, exercised across three categories
    let mut c = setup();
    c.create_hero(ALICE, CREATION_FEE, 100, HeroClass::Warrior, b"A".to_vec()).unwrap();
    c.generate_basic_hero(ALICE, 600_000_000_000_000_000, 101, b"B".to_vec(), HeroClass::Mage)
        .unwrap();
    c.generate_ai_hero(ALICE, CREATION_FEE, 102, 5, b"C".to_vec(), None, b"xyz".to_vec())
        .unwrap();
    let by_creation = c.get_revenue_by_type(&String::from("hero_creation"));
    let by_basic = c.get_revenue_by_type(&String::from("basic_hero_generation"));
    let by_ai = c.get_revenue_by_type(&String::from("ai_hero_generation"));
    assert_eq!(by_creation, CREATION_FEE);
    assert_eq!(by_basic, 600_000_000_000_000_000);
    assert_eq!(by_ai, CREATION_FEE);
    assert_eq!(c.get_total_revenue(), by_creation + by_basic + by_ai);
    assert_eq!(c.get_revenue_by_type(&String::from("unknown")), 0);
}

#[test]
fn average_battle_duration_matches_recomputation_on_even_prefixes() {
    // durations 10, 20, 30: every prefix sum divides by its length, so the
    // stored average equals total battle time over total battles throughout
    let mut c = setup();
    c.record_battle_outcome(OWNER, 100, 1, 2, 1, 10, 5).unwrap();
    assert_eq!(c.get_game_wide_stats().4, 10);
    c.record_battle_outcome(OWNER, 200, 1, 2, 2, 20, 5).unwrap();
    assert_eq!(c.get_game_wide_stats().4, 15);
    c.record_battle_outcome(OWNER, 300, 1, 2, 1, 30, 5).unwrap();
    assert_eq!(c.get_game_wide_stats().4, 20);
    assert_eq!(c.analytics.total_battle_time, 60);
    assert_eq!(c.analytics.total_battle_time / c.analytics.total_battles, 20);
}

#[test]
fn average_battle_duration_follows_the_incremental_formula() {
    // an uneven sequence: the stored value follows the order-sensitive
    // incremental formula exactly
    let mut c = setup();
    c.record_battle_outcome(OWNER, 100, 1, 2, 1, 100, 0).unwrap();
    assert_eq!(c.get_game_wide_stats().4, 100);
    c.record_battle_outcome(OWNER, 200, 1, 2, 1, 0, 0).unwrap();
    // (100 * 1 + 0) / 2
    assert_eq!(c.get_game_wide_stats().4, 50);
    c.record_battle_outcome(OWNER, 300, 1, 2, 1, 1, 0).unwrap();
    // (50 * 2 + 1) / 3
    assert_eq!(c.get_game_wide_stats().4, 33);
}

#[test]
fn battle_outcome_updates_hero_counters_and_daily_bucket() {
    let mut c = setup();
    assert_eq!(
        c.record_battle_outcome(ALICE, 100, 1, 2, 1, 10, 5).unwrap_err(),
        GameError::Unauthorized
    );
    c.record_battle_outcome(OWNER, 100, 1, 2, 1, 10, 500).unwrap();
    c.record_battle_outcome(OWNER, 100, 1, 2, 2, 20, 300).unwrap();
    let (fought1, won1, _, _, _, _) = c.get_hero_performance_stats(1);
    let (fought2, won2, _, _, _, _) = c.get_hero_performance_stats(2);
    assert_eq!((fought1, won1), (2, 1));
    assert_eq!((fought2, won2), (2, 1));
    let stats = c.get_game_wide_stats();
    assert_eq!(stats.0, 2);
    assert_eq!(c.analytics.total_damage_dealt, 800);
    assert_eq!(c.get_daily_stats(100).1, 2);
    assert_eq!(c.get_daily_stats(100 + DAY).1, 0);
}

#[test]
fn win_rate_is_wins_per_hundred_battles() {
    let mut c = setup();
    assert_eq!(c.get_hero_win_rate(1), 0);
    c.record_battle_outcome(OWNER, 100, 1, 2, 1, 10, 0).unwrap();
    c.record_battle_outcome(OWNER, 100, 1, 2, 1, 10, 0).unwrap();
    c.record_battle_outcome(OWNER, 100, 1, 2, 1, 10, 0).unwrap();
    c.record_battle_outcome(OWNER, 100, 1, 2, 2, 10, 0).unwrap();
    // hero 1: 3 wins out of 4
    assert_eq!(c.get_hero_win_rate(1), 75);
    assert_eq!(c.get_hero_win_rate(2), 25);
}

#[test]
fn player_actions_fill_daily_active_users_and_action_counts() {
    let mut c = setup();
    c.record_player_action(ALICE, 50, String::from("login"), 0, 0).unwrap();
    c.record_player_action(BOB, 60, String::from("login"), 0, 0).unwrap();
    c.record_player_action(ALICE, 70, String::from("battle"), 1, 3).unwrap();
    // two distinct users on day zero
    assert_eq!(c.get_daily_stats(80).0, 2);
    assert_eq!(c.get_action_stats(&String::from("login")), 2);
    assert_eq!(c.get_action_stats(&String::from("battle")), 1);
    assert_eq!(c.get_action_stats(&String::from("trade")), 0);
    // the hero touched by the action accrues usage
    let (_, _, _, _, _, usage) = c.get_hero_performance_stats(1);
    assert_eq!(usage, 1);
    // a day later the bucket is fresh
    c.record_player_action(ALICE, DAY + 5, String::from("login"), 0, 0).unwrap();
    assert_eq!(c.get_daily_stats(DAY + 10).0, 1);
    let (activity, last, _, _) = c.get_player_stats(ALICE);
    assert_eq!(activity, 3);
    assert_eq!(last, DAY + 5);
}

#[test]
fn economic_transactions_track_types_currencies_and_players() {
    let mut c = setup();
    c.record_economic_transaction(ALICE, 100, String::from("purchase"), 250, String::from("EGLD")).unwrap();
    c.record_economic_transaction(ALICE, 110, String::from("purchase"), 750, String::from("EGLD")).unwrap();
    c.record_economic_transaction(BOB, 120, String::from("refund"), 40, String::from("USDC")).unwrap();
    let (count, volume) = c.get_transaction_stats(&String::from("purchase"), &String::from("EGLD"));
    assert_eq!(count, 2);
    assert_eq!(volume, 1000);
    let (count, volume) = c.get_transaction_stats(&String::from("refund"), &String::from("USDC"));
    assert_eq!(count, 1);
    assert_eq!(volume, 40);
    let (_, _, tx_count, spend) = c.get_player_stats(ALICE);
    assert_eq!(tx_count, 2);
    assert_eq!(spend, 1000);
    assert_eq!(c.get_daily_stats(130).2, 1000);
    assert_eq!(c.get_game_wide_stats().1, 3);
}

#[test]
fn performance_update_recomputes_per_battle_averages() {
    let mut c = setup();
    assert_eq!(
        c.update_hero_performance_metrics(ALICE, 1, 10, 20, 30).unwrap_err(),
        GameError::Unauthorized
    );
    c.record_battle_outcome(OWNER, 100, 1, 2, 1, 10, 0).unwrap();
    c.record_battle_outcome(OWNER, 100, 1, 2, 1, 10, 0).unwrap();
    c.update_hero_performance_metrics(OWNER, 1, 90, 500, 100).unwrap();
    let (_, _, exp, dealt, taken, _) = c.get_hero_performance_stats(1);
    assert_eq!((exp, dealt, taken), (90, 500, 100));
    // averages recomputed from scratch over 2 battles
    assert_eq!(c.analytics.hero_metrics.get(1).unwrap().avg_damage_per_battle, 250);
    assert_eq!(c.analytics.hero_metrics.get(1).unwrap().avg_exp_per_battle, 45);
    assert_eq!(c.get_game_wide_stats().2, 90);
    assert_eq!(c.get_game_wide_stats().3, 600);
}

#[test]
fn top_performing_heroes_sorts_by_score_with_lower_id_breaking_ties() {
    let mut c = setup();
    c.record_battle_outcome(OWNER, 100, 1, 2, 1, 10, 0).unwrap();
    c.record_battle_outcome(OWNER, 100, 1, 2, 2, 10, 0).unwrap();
    c.record_battle_outcome(OWNER, 100, 2, 3, 2, 10, 0).unwrap();
    c.record_battle_outcome(OWNER, 100, 3, 4, 3, 10, 0).unwrap();
    // ranking needs minted heroes: mint four so identifiers are in range
    for i in 0..4 {
        let name = format!("h{}", i).into_bytes();
        c.create_hero(ALICE, CREATION_FEE, 100, HeroClass::Warrior, name).unwrap();
    }
    let top = c.get_top_performing_heroes(10);
    // hero 2 scores 66 (2 wins of 3); heroes 1 and 3 tie at 50 (1 of 2) and
    // the lower id comes first; hero 4 scores 0
    assert_eq!(top, vec![2, 1, 3, 4]);
    let top2 = c.get_top_performing_heroes(2);
    assert_eq!(top2, vec![2, 1]);
    assert_eq!(c.get_top_performing_heroes(0), Vec::<u64>::new());
}

#[test]
fn top_performing_breaks_equal_scores_by_lower_id() {
    let mut c = setup();
    // heroes 1 and 2 each win one of two battles: equal scores
    c.record_battle_outcome(OWNER, 100, 1, 2, 1, 10, 0).unwrap();
    c.record_battle_outcome(OWNER, 100, 1, 2, 2, 10, 0).unwrap();
    for i in 0..2 {
        let name = format!("h{}", i).into_bytes();
        c.create_hero(ALICE, CREATION_FEE, 100, HeroClass::Warrior, name).unwrap();
    }
    assert_eq!(c.get_top_performing_heroes(5), vec![1, 2]);
}

#[test]
fn player_ranking_tiers_follow_the_activity_score() {
    let mut c = setup();
    assert_eq!(c.get_player_ranking(ALICE), 4);
    for _ in 0..101 {
        c.record_player_action(ALICE, 5, String::from("a"), 0, 0).unwrap();
    }
    assert_eq!(c.get_player_ranking(ALICE), 3);
    for _ in 0..250 {
        c.record_economic_transaction(ALICE, 5, String::from("t"), 1, String::from("EGLD")).unwrap();
    }
    // score = 101 activity + 2 * 250 transactions = 601: tier 2
    assert_eq!(c.get_player_ranking(ALICE), 2);
}

#[test]
fn reset_analytics_zeroes_global_counters_only_with_confirmation() {
    let mut c = setup();
    c.record_battle_outcome(OWNER, 100, 1, 2, 1, 10, 5).unwrap();
    c.record_economic_transaction(ALICE, 100, String::from("t"), 9, String::from("EGLD")).unwrap();
    assert_eq!(
        c.reset_analytics(ALICE, true).unwrap_err(),
        GameError::Unauthorized
    );
    assert_eq!(c.reset_analytics(OWNER, false).unwrap_err(), GameError::GateNotMet);
    c.reset_analytics(OWNER, true).unwrap();
    let stats = c.get_game_wide_stats();
    assert_eq!(stats, (0, 0, 0, 0, 0));
    assert_eq!(c.analytics.total_battle_time, 0);
    assert_eq!(c.analytics.total_damage_dealt, 0);
    // per-hero counters survive the reset
    let (fought, _, _, _, _, _) = c.get_hero_performance_stats(1);
    assert_eq!(fought, 1);
}

#[test]
fn export_renders_counters_in_decimal() {
    let mut c = setup();
    assert_eq!(
        c.export_analytics_data(ALICE, &String::from("battles")).unwrap_err(),
        GameError::Unauthorized
    );
    assert_eq!(
        c.export_analytics_data(OWNER, &String::from("battles")).unwrap(),
        b"Total battles: 0".to_vec()
    );
    for _ in 0..12 {
        c.record_battle_outcome(OWNER, 100, 1, 2, 1, 10, 5).unwrap();
    }
    assert_eq!(
        c.export_analytics_data(OWNER, &String::from("battles")).unwrap(),
        b"Total battles: 12".to_vec()
    );
    assert_eq!(
        c.export_analytics_data(OWNER, &String::from("economy")).unwrap(),
        b"Total transactions: 0".to_vec()
    );
    assert_eq!(
        c.export_analytics_data(OWNER, &String::from("other")).unwrap(),
        b"Invalid data type".to_vec()
    );
}
