//! The stat model: class base-stat templates, per-level growth deltas and the
//! evolution table (costs and gates). Pure lookups with no failure modes.
//!
//! The six attributes split into five "core" combat stats — strength,
//! intelligence, agility, vitality and magic power — and luck; boosts,
//! per-level growth and the ascension doubling touch only the core five.

use vstd::prelude::*;

use crate::constants::BASE_STAT_POINTS;
use crate::constants::STAT_BOOST_COST;
use crate::constants::RARITY_UPGRADE_COST;
use crate::constants::CLASS_EVOLUTION_COST;
use crate::constants::ELEMENTAL_INFUSION_COST;
use crate::types::EvolutionType;
use crate::types::Hero;
use crate::types::HeroClass;
use crate::types::HeroStats;
use crate::types::Rarity;
use crate::util::sadd32;
use crate::util::sat_add_u32;

verus! {

/// The fixed base-stat template of a class: each stat offset from the common
/// base of 100 by a class-specific delta.
pub open spec fn spec_base_stats(class: HeroClass) -> HeroStats {
    match class {
        HeroClass::Warrior => HeroStats {
            strength: (BASE_STAT_POINTS + 30) as u32,
            intelligence: BASE_STAT_POINTS,
            agility: (BASE_STAT_POINTS + 10) as u32,
            vitality: (BASE_STAT_POINTS + 20) as u32,
            luck: BASE_STAT_POINTS,
            magic_power: (BASE_STAT_POINTS - 10) as u32,
        },
        HeroClass::Mage => HeroStats {
            strength: (BASE_STAT_POINTS - 10) as u32,
            intelligence: (BASE_STAT_POINTS + 30) as u32,
            agility: BASE_STAT_POINTS,
            vitality: BASE_STAT_POINTS,
            luck: (BASE_STAT_POINTS + 10) as u32,
            magic_power: (BASE_STAT_POINTS + 20) as u32,
        },
        HeroClass::Rogue => HeroStats {
            strength: (BASE_STAT_POINTS + 10) as u32,
            intelligence: (BASE_STAT_POINTS + 10) as u32,
            agility: (BASE_STAT_POINTS + 30) as u32,
            vitality: BASE_STAT_POINTS,
            luck: (BASE_STAT_POINTS + 20) as u32,
            magic_power: (BASE_STAT_POINTS - 10) as u32,
        },
        HeroClass::Paladin => HeroStats {
            strength: (BASE_STAT_POINTS + 20) as u32,
            intelligence: (BASE_STAT_POINTS + 10) as u32,
            agility: BASE_STAT_POINTS,
            vitality: (BASE_STAT_POINTS + 20) as u32,
            luck: BASE_STAT_POINTS,
            magic_power: (BASE_STAT_POINTS + 10) as u32,
        },
        HeroClass::Necromancer => HeroStats {
            strength: BASE_STAT_POINTS,
            intelligence: (BASE_STAT_POINTS + 25) as u32,
            agility: (BASE_STAT_POINTS + 5) as u32,
            vitality: (BASE_STAT_POINTS - 5) as u32,
            luck: (BASE_STAT_POINTS + 5) as u32,
            magic_power: (BASE_STAT_POINTS + 30) as u32,
        },
        HeroClass::Elementalist => HeroStats {
            strength: (BASE_STAT_POINTS - 5) as u32,
            intelligence: (BASE_STAT_POINTS + 20) as u32,
            agility: (BASE_STAT_POINTS + 15) as u32,
            vitality: (BASE_STAT_POINTS + 5) as u32,
            luck: (BASE_STAT_POINTS + 15) as u32,
            magic_power: (BASE_STAT_POINTS + 25) as u32,
        },
    }
}

/// A uniform template of 100 in every stat, used by enhanced generation when
/// no class hint is supplied.
pub open spec fn spec_uniform_stats() -> HeroStats {
    HeroStats {
        strength: BASE_STAT_POINTS,
        intelligence: BASE_STAT_POINTS,
        agility: BASE_STAT_POINTS,
        vitality: BASE_STAT_POINTS,
        luck: BASE_STAT_POINTS,
        magic_power: BASE_STAT_POINTS,
    }
}

/// Per-level stat growth: a fixed delta tuple for each of four named classes
/// and a balanced default for the remaining classes.
pub open spec fn spec_growth_delta(class: HeroClass) -> HeroStats {
    match class {
        HeroClass::Warrior => HeroStats {
            strength: 8,
            intelligence: 1,
            agility: 2,
            vitality: 15,
            luck: 0,
            magic_power: 6,
        },
        HeroClass::Mage => HeroStats {
            strength: 6,
            intelligence: 10,
            agility: 4,
            vitality: 8,
            luck: 0,
            magic_power: 3,
        },
        HeroClass::Rogue => HeroStats {
            strength: 7,
            intelligence: 3,
            agility: 8,
            vitality: 10,
            luck: 0,
            magic_power: 4,
        },
        HeroClass::Paladin => HeroStats {
            strength: 10,
            intelligence: 2,
            agility: 12,
            vitality: 6,
            luck: 0,
            magic_power: 2,
        },
        _ => HeroStats {
            strength: 6,
            intelligence: 5,
            agility: 5,
            vitality: 10,
            luck: 0,
            magic_power: 4,
        },
    }
}

/// The stat-boost evolution delta over the five core stats.
pub open spec fn spec_stat_boost_delta() -> HeroStats {
    HeroStats { strength: 15, intelligence: 8, agility: 10, vitality: 25, luck: 0, magic_power: 12 }
}

/// The class-evolution bonus: a large class-specific delta for four named
/// classes and a balanced default for the remaining classes.
pub open spec fn spec_class_evolution_bonus(class: HeroClass) -> HeroStats {
    match class {
        HeroClass::Warrior => HeroStats {
            strength: 50,
            intelligence: 0,
            agility: 0,
            vitality: 80,
            luck: 0,
            magic_power: 40,
        },
        HeroClass::Mage => HeroStats {
            strength: 40,
            intelligence: 70,
            agility: 20,
            vitality: 0,
            luck: 0,
            magic_power: 0,
        },
        HeroClass::Rogue => HeroStats {
            strength: 45,
            intelligence: 25,
            agility: 60,
            vitality: 0,
            luck: 0,
            magic_power: 0,
        },
        HeroClass::Paladin => HeroStats {
            strength: 55,
            intelligence: 0,
            agility: 70,
            vitality: 0,
            luck: 0,
            magic_power: 15,
        },
        _ => HeroStats {
            strength: 35,
            intelligence: 30,
            agility: 30,
            vitality: 40,
            luck: 0,
            magic_power: 25,
        },
    }
}

/// The elemental-infusion flat stat bonus.
pub open spec fn spec_elemental_infusion_delta() -> HeroStats {
    HeroStats { strength: 35, intelligence: 40, agility: 0, vitality: 40, luck: 0, magic_power: 30 }
}

/// The stat delta of the combined evolve operation.
pub open spec fn spec_evolve_delta() -> HeroStats {
    HeroStats { strength: 25, intelligence: 20, agility: 15, vitality: 50, luck: 0, magic_power: 20 }
}

/// Executable per-level growth lookup.
pub fn growth_delta(class: &HeroClass) -> (d: HeroStats)
    ensures
        d == spec_growth_delta(*class),
{
    match class {
        HeroClass::Warrior => HeroStats {
            strength: 8,
            intelligence: 1,
            agility: 2,
            vitality: 15,
            luck: 0,
            magic_power: 6,
        },
        HeroClass::Mage => HeroStats {
            strength: 6,
            intelligence: 10,
            agility: 4,
            vitality: 8,
            luck: 0,
            magic_power: 3,
        },
        HeroClass::Rogue => HeroStats {
            strength: 7,
            intelligence: 3,
            agility: 8,
            vitality: 10,
            luck: 0,
            magic_power: 4,
        },
        HeroClass::Paladin => HeroStats {
            strength: 10,
            intelligence: 2,
            agility: 12,
            vitality: 6,
            luck: 0,
            magic_power: 2,
        },
        _ => HeroStats {
            strength: 6,
            intelligence: 5,
            agility: 5,
            vitality: 10,
            luck: 0,
            magic_power: 4,
        },
    }
}

/// Executable stat-boost delta.
pub fn stat_boost_delta() -> (d: HeroStats)
    ensures
        d == spec_stat_boost_delta(),
{
    HeroStats { strength: 15, intelligence: 8, agility: 10, vitality: 25, luck: 0, magic_power: 12 }
}

/// Executable class-evolution bonus lookup.
pub fn class_evolution_bonus(class: &HeroClass) -> (d: HeroStats)
    ensures
        d == spec_class_evolution_bonus(*class),
{
    match class {
        HeroClass::Warrior => HeroStats {
            strength: 50,
            intelligence: 0,
            agility: 0,
            vitality: 80,
            luck: 0,
            magic_power: 40,
        },
        HeroClass::Mage => HeroStats {
            strength: 40,
            intelligence: 70,
            agility: 20,
            vitality: 0,
            luck: 0,
            magic_power: 0,
        },
        HeroClass::Rogue => HeroStats {
            strength: 45,
            intelligence: 25,
            agility: 60,
            vitality: 0,
            luck: 0,
            magic_power: 0,
        },
        HeroClass::Paladin => HeroStats {
            strength: 55,
            intelligence: 0,
            agility: 70,
            vitality: 0,
            luck: 0,
            magic_power: 15,
        },
        _ => HeroStats {
            strength: 35,
            intelligence: 30,
            agility: 30,
            vitality: 40,
            luck: 0,
            magic_power: 25,
        },
    }
}

/// Executable elemental-infusion delta.
pub fn elemental_infusion_delta() -> (d: HeroStats)
    ensures
        d == spec_elemental_infusion_delta(),
{
    HeroStats { strength: 35, intelligence: 40, agility: 0, vitality: 40, luck: 0, magic_power: 30 }
}

/// Executable combined-evolve delta.
pub fn evolve_delta() -> (d: HeroStats)
    ensures
        d == spec_evolve_delta(),
{
    HeroStats { strength: 25, intelligence: 20, agility: 15, vitality: 50, luck: 0, magic_power: 20 }
}

/// Stat-wise saturating sum.
pub open spec fn spec_add_stats(a: HeroStats, b: HeroStats) -> HeroStats {
    HeroStats {
        strength: sadd32(a.strength, b.strength),
        intelligence: sadd32(a.intelligence, b.intelligence),
        agility: sadd32(a.agility, b.agility),
        vitality: sadd32(a.vitality, b.vitality),
        luck: sadd32(a.luck, b.luck),
        magic_power: sadd32(a.magic_power, b.magic_power),
    }
}

/// Executable stat-wise saturating sum.
pub fn add_stats(a: HeroStats, b: HeroStats) -> (r: HeroStats)
    ensures
        r == spec_add_stats(a, b),
{
    HeroStats {
        strength: sat_add_u32(a.strength, b.strength),
        intelligence: sat_add_u32(a.intelligence, b.intelligence),
        agility: sat_add_u32(a.agility, b.agility),
        vitality: sat_add_u32(a.vitality, b.vitality),
        luck: sat_add_u32(a.luck, b.luck),
        magic_power: sat_add_u32(a.magic_power, b.magic_power),
    }
}

/// Doubling of the five core stats, saturating; luck is untouched.
pub open spec fn spec_double_core_stats(s: HeroStats) -> HeroStats {
    HeroStats {
        strength: sadd32(s.strength, s.strength),
        intelligence: sadd32(s.intelligence, s.intelligence),
        agility: sadd32(s.agility, s.agility),
        vitality: sadd32(s.vitality, s.vitality),
        luck: s.luck,
        magic_power: sadd32(s.magic_power, s.magic_power),
    }
}

/// Executable doubling of the five core stats.
pub fn double_core_stats(s: HeroStats) -> (r: HeroStats)
    ensures
        r == spec_double_core_stats(s),
{
    HeroStats {
        strength: sat_add_u32(s.strength, s.strength),
        intelligence: sat_add_u32(s.intelligence, s.intelligence),
        agility: sat_add_u32(s.agility, s.agility),
        vitality: sat_add_u32(s.vitality, s.vitality),
        luck: s.luck,
        magic_power: sat_add_u32(s.magic_power, s.magic_power),
    }
}

/// Fixed price of each evolution path.
pub open spec fn spec_evolution_cost(evolution_type: EvolutionType) -> u128 {
    match evolution_type {
        EvolutionType::StatBoost => STAT_BOOST_COST,
        EvolutionType::RarityUpgrade => RARITY_UPGRADE_COST,
        EvolutionType::ClassEvolution => CLASS_EVOLUTION_COST,
        EvolutionType::ElementalInfusion => ELEMENTAL_INFUSION_COST,
    }
}

/// Fixed gate of each evolution path, evaluated on the hero's current state.
pub open spec fn spec_evolution_gate(hero: Hero, evolution_type: EvolutionType) -> bool {
    match evolution_type {
        EvolutionType::StatBoost => hero.level >= 10,
        EvolutionType::RarityUpgrade => hero.level >= 25 && hero.rarity != Rarity::Mythical,
        EvolutionType::ClassEvolution => hero.level >= 50 && hero.battle_count >= 20,
        EvolutionType::ElementalInfusion => hero.level >= 30 && hero.rarity.spec_rank()
            >= Rarity::Rare.spec_rank(),
    }
}

} // verus!
