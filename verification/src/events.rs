//! Notifications for the external event layer: one per successful state
//! transition, carrying the identifiers and values needed for off-system
//! indexing. The host drains the log and forwards each entry.

use vstd::prelude::*;

use crate::types::AIRequestType;
use crate::types::EvolutionType;
use crate::types::HeroClass;
use crate::types::Rarity;

verus! {

#[derive(Debug)]
pub enum Notification {
    HeroCreated { hero_id: u64, owner: u64, class: HeroClass, ai_generated: bool },
    HeroTransferred { hero_id: u64, from: u64, to: u64 },
    HeroLeveledUp { hero_id: u64, new_level: u32 },
    HeroEvolved { hero_id: u64, new_level: u32, rarity: Rarity },
    EvolutionTriggered { hero_id: u64, evolution_type: EvolutionType, rarity: Rarity, level: u32 },
    AbilityUnlocked { hero_id: u64, ability_id: u32 },
    HeroAscended { hero_id: u64 },
    ItemEquipped { hero_id: u64, item_id: u64, slot: u32 },
    BattleStatsUpdated { hero_id: u64, won: bool, exp_gained: u64 },
    AIRequestSubmitted { request_id: u64, request_type: AIRequestType, requester: u64 },
    PlayerActionRecorded {
        player: u64,
        action_type: String,
        hero_id: u64,
        value: u64,
        timestamp: u64,
    },
    BattleOutcomeRecorded {
        hero1_id: u64,
        hero2_id: u64,
        winner_id: u64,
        battle_duration: u64,
        damage_dealt: u64,
    },
    EconomicTransactionRecorded {
        player: u64,
        transaction_type: String,
        amount: u128,
        currency: String,
    },
    FeeCollected { fee_type: String, amount: u128, from: u64 },
    AnalyticsReset { by: u64 },
}

/// Whether `n` is the fee-collection notification with the given payload.
pub open spec fn is_fee_collected(n: Notification, fee_type: Seq<char>, amount: u128, from: u64) -> bool {
    &&& n matches Notification::FeeCollected { fee_type: f, amount: a, from: fr }
    &&& f@ == fee_type
    &&& a == amount
    &&& fr == from
}

/// Whether `n` is the player-action notification with the given payload.
pub open spec fn is_player_action(
    n: Notification,
    player: u64,
    action_type: Seq<char>,
    hero_id: u64,
    value: u64,
    timestamp: u64,
) -> bool {
    &&& n matches Notification::PlayerActionRecorded {
        player: p,
        action_type: a,
        hero_id: h,
        value: v,
        timestamp: t,
    }
    &&& p == player
    &&& a@ == action_type
    &&& h == hero_id
    &&& v == value
    &&& t == timestamp
}

/// Whether `n` is the economic-transaction notification with the given payload.
pub open spec fn is_economic_transaction(
    n: Notification,
    player: u64,
    transaction_type: Seq<char>,
    amount: u128,
    currency: Seq<char>,
) -> bool {
    &&& n matches Notification::EconomicTransactionRecorded {
        player: p,
        transaction_type: t,
        amount: a,
        currency: c,
    }
    &&& p == player
    &&& t@ == transaction_type
    &&& a == amount
    &&& c@ == currency
}

} // verus!
