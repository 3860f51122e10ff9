//! Game-wide constants: fees, limits and fixed identifiers.

use vstd::prelude::*;

verus! {

/// Base value every class template offsets from.
pub const BASE_STAT_POINTS: u32 = 100;

/// Experience required per level is the level times this factor.
pub const EXPERIENCE_PER_LEVEL: u64 = 100;

/// Per-account hero quota, enforced before creation.
pub const MAX_HEROES_PER_ACCOUNT: u32 = 50;

/// Seconds in one day; daily buckets are keyed by `timestamp / SECONDS_PER_DAY`.
pub const SECONDS_PER_DAY: u64 = 86400;

/// Fee for a plain hero creation request.
pub const HERO_CREATION_FEE: u128 = 1_000_000_000_000_000_000;

/// Fee for enhanced ("AI") hero generation.
pub const AI_GENERATION_FEE: u128 = 1_000_000_000_000_000_000;

/// Fee for basic hero generation.
pub const BASIC_GENERATION_FEE: u128 = 500_000_000_000_000_000;

/// Fee for the combined evolve operation.
pub const HERO_EVOLUTION_FEE: u128 = 500_000_000_000_000_000;

/// Price of a stat-boost evolution.
pub const STAT_BOOST_COST: u128 = 500_000_000_000_000_000;

/// Price of a rarity-upgrade evolution.
pub const RARITY_UPGRADE_COST: u128 = 1_000_000_000_000_000_000;

/// Price of a class evolution.
pub const CLASS_EVOLUTION_COST: u128 = 2_000_000_000_000_000_000;

/// Price of an elemental infusion.
pub const ELEMENTAL_INFUSION_COST: u128 = 1_500_000_000_000_000_000;

/// Price of unlocking one special ability.
pub const ABILITY_UNLOCK_FEE: u128 = 200_000_000_000_000_000;

/// Price of ascension.
pub const ASCENSION_FEE: u128 = 5_000_000_000_000_000_000;

/// Ability id granted exactly once by ascension.
pub const ASCENSION_ABILITY_ID: u32 = 999;

/// Level required before abilities can be unlocked.
pub const ABILITY_UNLOCK_MIN_LEVEL: u32 = 25;

/// Level required before ascension.
pub const ASCENSION_MIN_LEVEL: u32 = 100;

/// Battle wins required before ascension.
pub const ASCENSION_MIN_WINS: u32 = 50;

} // verus!
