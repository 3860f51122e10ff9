//! The evolution engine: a state machine over level, rarity, battle count and
//! abilities, with four paid evolution paths, a separate ability unlock, and
//! the terminal ascension transition.

use vstd::prelude::*;
use vstd::string::StringExecFns;

use crate::constants::ABILITY_UNLOCK_FEE;
use crate::constants::ABILITY_UNLOCK_MIN_LEVEL;
use crate::constants::ASCENSION_ABILITY_ID;
use crate::constants::ASCENSION_FEE;
use crate::constants::ASCENSION_MIN_LEVEL;
use crate::constants::ASCENSION_MIN_WINS;
use crate::errors::GameError;
use crate::events::is_fee_collected;
use crate::events::Notification;
use crate::stat_model::add_stats;
use crate::stat_model::class_evolution_bonus;
use crate::stat_model::double_core_stats;
use crate::stat_model::elemental_infusion_delta;
use crate::stat_model::spec_add_stats;
use crate::stat_model::spec_class_evolution_bonus;
use crate::stat_model::spec_double_core_stats;
use crate::stat_model::spec_elemental_infusion_delta;
use crate::stat_model::spec_evolution_cost;
use crate::stat_model::spec_evolution_gate;
use crate::stat_model::spec_stat_boost_delta;
use crate::stat_model::stat_boost_delta;
use crate::types::EvolutionType;
use crate::types::MAX_SPECIAL_ABILITIES;
use crate::types::Hero;
use crate::types::HeroStats;
use crate::types::HeroClass;
use crate::types::Rarity;
use crate::util::sadd32;
use crate::util::sat_add_u32;
use crate::AIHeroesContract;

verus! {

/// One forward step along the rarity order, stopping before Mythical: the
/// Mythical tier is reachable only through ascension.
pub open spec fn spec_rarity_step(r: Rarity) -> Rarity {
    match r {
        Rarity::Common => Rarity::Rare,
        Rarity::Rare => Rarity::Epic,
        Rarity::Epic => Rarity::Legendary,
        _ => r,
    }
}

/// The elemental ability granted by infusion, drawn from the entropy tick.
pub open spec fn spec_elemental_ability(tick: u64) -> u32 {
    if tick % 5 == 0 {
        100
    } else if tick % 5 == 1 {
        101
    } else if tick % 5 == 2 {
        102
    } else if tick % 5 == 3 {
        103
    } else {
        104
    }
}

/// The stat delta of an evolution path; the rarity upgrade changes no stats.
pub open spec fn spec_evolution_stats_delta(
    evolution_type: EvolutionType,
    class: HeroClass,
) -> HeroStats {
    match evolution_type {
        EvolutionType::StatBoost => spec_stat_boost_delta(),
        EvolutionType::RarityUpgrade => HeroStats {
            strength: 0,
            intelligence: 0,
            agility: 0,
            vitality: 0,
            luck: 0,
            magic_power: 0,
        },
        EvolutionType::ClassEvolution => spec_class_evolution_bonus(class),
        EvolutionType::ElementalInfusion => spec_elemental_infusion_delta(),
    }
}

/// The rarity after an evolution path.
pub open spec fn spec_evolution_rarity(evolution_type: EvolutionType, r: Rarity) -> Rarity {
    match evolution_type {
        EvolutionType::RarityUpgrade => spec_rarity_step(r),
        _ => r,
    }
}

/// The ability list after an evolution path: elemental infusion grants the
/// drawn ability when it is not already held and a slot is free.
pub open spec fn spec_evolution_abilities(
    evolution_type: EvolutionType,
    abilities: Seq<u32>,
    tick: u64,
) -> Seq<u32> {
    match evolution_type {
        EvolutionType::ElementalInfusion => {
            let a = spec_elemental_ability(tick);
            if !abilities.contains(a) && abilities.len() < MAX_SPECIAL_ABILITIES {
                abilities.push(a)
            } else {
                abilities
            }
        },
        _ => abilities,
    }
}


/// Rarity only ever moves forward along the Common to Mythical order: an
/// evolution path steps it at most one tier up, the combined evolve operation
/// steps it at most one tier up, and the ascension transition — the one
/// operation that also resets the level — sets the maximal tier from
/// Legendary.
pub proof fn lemma_rarity_moves_forward(
    evolution_type: EvolutionType,
    level_after: u32,
    r: Rarity,
)
    ensures
        spec_evolution_rarity(evolution_type, r).spec_rank() >= r.spec_rank(),
        crate::hero_management::spec_evolve_rarity(level_after, r).spec_rank() >= r.spec_rank(),
        Rarity::Mythical.spec_rank() >= r.spec_rank(),
{
}

/// The error an evolution request fails with before any state is written:
/// the level and rarity requirements are judged before the payment, so an
/// under-leveled hero is told so regardless of the amount paid.
pub open spec fn spec_check_evolution_requirements(
    h: Hero,
    evolution_type: EvolutionType,
    payment: u128,
) -> Option<GameError> {
    if !spec_evolution_gate(h, evolution_type) {
        Some(GameError::GateNotMet)
    } else if payment < spec_evolution_cost(evolution_type) {
        Some(GameError::Underpaid)
    } else {
        None
    }
}

/// Checks an evolution's gate and price against a hero's current state; the
/// gate is checked first.
pub fn check_evolution_requirements(
    hero: &Hero,
    evolution_type: &EvolutionType,
    payment: u128,
) -> (r: Result<(), GameError>)
    ensures
        match r {
            Ok(()) => spec_check_evolution_requirements(*hero, *evolution_type, payment) is None,
            Err(e) => Some(e) == spec_check_evolution_requirements(
                *hero,
                *evolution_type,
                payment,
            ),
        },
{
    let gate = match evolution_type {
        EvolutionType::StatBoost => hero.level >= 10,
        EvolutionType::RarityUpgrade => hero.level >= 25 && !matches!(
            hero.rarity,
            Rarity::Mythical,
        ),
        EvolutionType::ClassEvolution => hero.level >= 50 && hero.battle_count >= 20,
        EvolutionType::ElementalInfusion => hero.level >= 30 && hero.rarity.rank()
            >= Rarity::Rare.rank(),
    };
    if !gate {
        return Err(GameError::GateNotMet);
    }
    if payment < get_evolution_cost(evolution_type) {
        return Err(GameError::Underpaid);
    }
    Ok(())
}

/// Whether the hero already holds the ability.
pub fn hero_has_ability(hero: &Hero, ability_id: u32) -> (r: bool)
    ensures
        r == hero.spec_has_ability(ability_id),
{
    let n = hero.special_abilities.len();
    let mut i: usize = 0;
    while i < n
        invariant
            n == hero.special_abilities@.len(),
            i <= n,
            forall|j: int| 0 <= j < i ==> hero.special_abilities@[j] != ability_id,
        decreases n - i,
    {
        if hero.special_abilities[i] == ability_id {
            return true;
        }
        i = i + 1;
    }
    proof {
        assert(!hero.special_abilities@.contains(ability_id));
    }
    false
}

/// The revenue category label of an evolution path.
pub open spec fn spec_evolution_type_name(evolution_type: EvolutionType) -> Seq<char> {
    match evolution_type {
        EvolutionType::StatBoost => "stat_boost"@,
        EvolutionType::RarityUpgrade => "rarity_upgrade"@,
        EvolutionType::ClassEvolution => "class_evolution"@,
        EvolutionType::ElementalInfusion => "elemental_infusion"@,
    }
}

/// The revenue category label of an evolution path.
pub fn get_evolution_type_name(evolution_type: &EvolutionType) -> (r: String)
    ensures
        r@ == spec_evolution_type_name(*evolution_type),
{
    match evolution_type {
        EvolutionType::StatBoost => String::from_str("stat_boost"),
        EvolutionType::RarityUpgrade => String::from_str("rarity_upgrade"),
        EvolutionType::ClassEvolution => String::from_str("class_evolution"),
        EvolutionType::ElementalInfusion => String::from_str("elemental_infusion"),
    }
}

/// The elemental ability drawn from the entropy tick.
pub fn get_random_elemental_ability(tick: u64) -> (r: u32)
    ensures
        r == spec_elemental_ability(tick),
{
    match tick % 5 {
        0 => 100,
        1 => 101,
        2 => 102,
        3 => 103,
        _ => 104,
    }
}

/// The fixed price of an evolution path.
pub fn get_evolution_cost(evolution_type: &EvolutionType) -> (r: u128)
    ensures
        r == spec_evolution_cost(*evolution_type),
{
    match evolution_type {
        EvolutionType::StatBoost => 500_000_000_000_000_000,
        EvolutionType::RarityUpgrade => 1_000_000_000_000_000_000,
        EvolutionType::ClassEvolution => 2_000_000_000_000_000_000,
        EvolutionType::ElementalInfusion => 1_500_000_000_000_000_000,
    }
}

/// The fixed price of an ability unlock.
pub fn get_ability_cost() -> (r: u128)
    ensures
        r == ABILITY_UNLOCK_FEE,
{
    200_000_000_000_000_000
}

/// The fixed price of ascension.
pub fn get_ascension_cost() -> (r: u128)
    ensures
        r == ASCENSION_FEE,
{
    5_000_000_000_000_000_000
}

/// Applies an evolution's effect to a hero: the path's stat delta, a possible
/// rarity step, a possibly granted elemental ability, one bonus level and a
/// fresh evolution stamp.
pub fn apply_evolution(hero: &mut Hero, evolution_type: &EvolutionType, now: u64, tick: u64)
    requires
        old(hero).wf(),
    ensures
        final(hero).wf(),
        final(hero).stats == spec_add_stats(
            old(hero).stats,
            spec_evolution_stats_delta(*evolution_type, old(hero).class),
        ),
        final(hero).rarity == spec_evolution_rarity(*evolution_type, old(hero).rarity),
        final(hero).special_abilities@ == spec_evolution_abilities(
            *evolution_type,
            old(hero).special_abilities@,
            tick,
        ),
        final(hero).level == sadd32(old(hero).level, 1),
        final(hero).last_evolution == now,
        final(hero).rarity.spec_rank() >= old(hero).rarity.spec_rank(),
        final(hero).id == old(hero).id,
        final(hero).owner == old(hero).owner,
        final(hero).name == old(hero).name,
        final(hero).class == old(hero).class,
        final(hero).experience == old(hero).experience,
        final(hero).equipment == old(hero).equipment,
        final(hero).battle_count == old(hero).battle_count,
        final(hero).win_count == old(hero).win_count,
        final(hero).creation_timestamp == old(hero).creation_timestamp,
        final(hero).ai_traits == old(hero).ai_traits,
{
    match evolution_type {
        EvolutionType::StatBoost => {
            hero.stats = add_stats(hero.stats, stat_boost_delta());
        },
        EvolutionType::RarityUpgrade => {
            hero.rarity = match hero.rarity {
                Rarity::Common => Rarity::Rare,
                Rarity::Rare => Rarity::Epic,
                Rarity::Epic => Rarity::Legendary,
                Rarity::Legendary => Rarity::Legendary,
                Rarity::Mythical => Rarity::Mythical,
            };
        },
        EvolutionType::ClassEvolution => {
            let bonus = class_evolution_bonus(&hero.class);
            hero.stats = add_stats(hero.stats, bonus);
        },
        EvolutionType::ElementalInfusion => {
            hero.stats = add_stats(hero.stats, elemental_infusion_delta());
            let ability = get_random_elemental_ability(tick);
            let held = hero_has_ability(hero, ability);
            if !held && hero.special_abilities.len() < MAX_SPECIAL_ABILITIES {
                hero.special_abilities.push(ability);
            }
        },
    }
    hero.last_evolution = now;
    hero.level = sat_add_u32(hero.level, 1);
}

impl AIHeroesContract {
    /// The error an evolution request fails with, if any: a paused contract,
    /// an unknown hero, a caller who is not the owner, an unmet gate, an
    /// insufficient payment, and an exhausted ledger.
    pub open spec fn spec_trigger_evolution_err(
        self,
        caller: u64,
        payment: u128,
        hero_id: u64,
        evolution_type: EvolutionType,
    ) -> Option<GameError> {
        if self.paused {
            Some(GameError::Paused)
        } else if !self.heroes@.contains_key(hero_id) {
            Some(GameError::HeroNotFound)
        } else if self.heroes@[hero_id].owner != caller {
            Some(GameError::NotOwner)
        } else if spec_check_evolution_requirements(
            self.heroes@[hero_id],
            evolution_type,
            payment,
        ) is Some {
            spec_check_evolution_requirements(self.heroes@[hero_id], evolution_type, payment)
        } else if self.revenue.spec_total() + payment > u128::MAX {
            Some(GameError::QuotaExceeded)
        } else {
            None
        }
    }

    /// Triggers one paid evolution path on the caller's hero. The path's
    /// requirements are judged before the payment; on success the path's effect applies, the
    /// hero gains one bonus level and a fresh evolution stamp, the fee joins
    /// the path's revenue category, and a fee notification and an evolution
    /// notification are recorded. Rarity never moves backward.
    pub fn trigger_evolution(
        &mut self,
        caller: u64,
        payment: u128,
        now: u64,
        tick: u64,
        hero_id: u64,
        evolution_type: EvolutionType,
    ) -> (r: Result<(), GameError>)
        requires
            old(self).wf(),
        ensures
            final(self).wf(),
            match r {
                Err(e) => Some(e) == old(self).spec_trigger_evolution_err(
                    caller,
                    payment,
                    hero_id,
                    evolution_type,
                ) && *final(self) == *old(self),
                Ok(()) => {
                    let h0 = old(self).heroes@[hero_id];
                    let h1 = final(self).heroes@[hero_id];
                    &&& old(self).spec_trigger_evolution_err(
                        caller,
                        payment,
                        hero_id,
                        evolution_type,
                    ) is None
                    &&& final(self).heroes@ == old(self).heroes@.insert(hero_id, h1)
                    &&& h1.stats == spec_add_stats(
                        h0.stats,
                        spec_evolution_stats_delta(evolution_type, h0.class),
                    )
                    &&& h1.rarity == spec_evolution_rarity(evolution_type, h0.rarity)
                    &&& h1.rarity.spec_rank() >= h0.rarity.spec_rank()
                    &&& h1.special_abilities@ == spec_evolution_abilities(
                        evolution_type,
                        h0.special_abilities@,
                        tick,
                    )
                    &&& h1.level == sadd32(h0.level, 1)
                    &&& h1.last_evolution == now
                    &&& h1.experience == h0.experience
                    &&& h1.owner == h0.owner
                    &&& final(self).revenue.spec_total() == old(self).revenue.spec_total() + payment
                    &&& final(self).revenue@ == old(self).revenue@.insert(
                        spec_evolution_type_name(evolution_type),
                        (old(self).revenue.spec_by_category(spec_evolution_type_name(evolution_type))
                            + payment) as u128,
                    )
                    &&& final(self).events@.len() == old(self).events@.len() + 2
                    &&& is_fee_collected(
                        final(self).events@[old(self).events@.len() as int],
                        spec_evolution_type_name(evolution_type),
                        payment,
                        caller,
                    )
                    &&& final(self).events@.last() == (Notification::EvolutionTriggered {
                        hero_id,
                        evolution_type,
                        rarity: h1.rarity,
                        level: h1.level,
                    })
                    &&& final(self).events@.take(old(self).events@.len() as int) == old(self).events@
                },
            },
            Self::same_admin(*old(self), *final(self)),
            Self::same_requests(*old(self), *final(self)),
            final(self).analytics == old(self).analytics,
            final(self).hero_count == old(self).hero_count,
            final(self).user_heroes == old(self).user_heroes,
    {
        if self.paused {
            return Err(GameError::Paused);
        }
        match self.heroes.get(hero_id) {
            None => {
                return Err(GameError::HeroNotFound);
            },
            Some(h) => {
                if h.owner != caller {
                    return Err(GameError::NotOwner);
                }
                if let Err(e) = check_evolution_requirements(h, &evolution_type, payment) {
                    return Err(e);
                }
            },
        };
        if self.revenue.total() > u128::MAX - payment {
            return Err(GameError::QuotaExceeded);
        }

        let mut hero = self.heroes.take(hero_id);
        apply_evolution(&mut hero, &evolution_type, now, tick);
        let new_level = hero.level;
        let new_rarity = hero.rarity;
        let ghost gh = hero;
        self.heroes.insert(hero_id, hero);
        proof {
            crate::hero_management::lemma_registry_update_same_owner(
                old(self).heroes@,
                old(self).user_heroes@,
                old(self).hero_count,
                hero_id,
                gh,
            );
        }
        let name = get_evolution_type_name(&evolution_type);
        self.add_revenue(caller, name, payment);
        self.events.push(
            Notification::EvolutionTriggered {
                hero_id,
                evolution_type,
                rarity: new_rarity,
                level: new_level,
            },
        );
        Ok(())
    }

    /// The error an ability unlock fails with, if any.
    pub open spec fn spec_unlock_ability_err(
        self,
        caller: u64,
        payment: u128,
        hero_id: u64,
        ability_id: u32,
    ) -> Option<GameError> {
        if self.paused {
            Some(GameError::Paused)
        } else if payment < ABILITY_UNLOCK_FEE {
            Some(GameError::Underpaid)
        } else if !self.heroes@.contains_key(hero_id) {
            Some(GameError::HeroNotFound)
        } else if self.heroes@[hero_id].owner != caller {
            Some(GameError::NotOwner)
        } else if self.heroes@[hero_id].level < ABILITY_UNLOCK_MIN_LEVEL {
            Some(GameError::GateNotMet)
        } else if self.heroes@[hero_id].spec_has_ability(ability_id) {
            Some(GameError::AbilityAlreadyUnlocked)
        } else if self.heroes@[hero_id].special_abilities@.len() >= MAX_SPECIAL_ABILITIES {
            Some(GameError::AbilitySlotsFull)
        } else if self.revenue.spec_total() + payment > u128::MAX {
            Some(GameError::QuotaExceeded)
        } else {
            None
        }
    }

    /// Unlocks one special ability on the caller's hero, for a fixed fee,
    /// from level twenty-five. Unlocking an ability the hero already holds
    /// fails with `AbilityAlreadyUnlocked` and leaves the list — and all
    /// other state — unchanged; a sixth ability fails with
    /// `AbilitySlotsFull`.
    pub fn unlock_special_ability(
        &mut self,
        caller: u64,
        payment: u128,
        hero_id: u64,
        ability_id: u32,
    ) -> (r: Result<(), GameError>)
        requires
            old(self).wf(),
        ensures
            final(self).wf(),
            match r {
                Err(e) => Some(e) == old(self).spec_unlock_ability_err(
                    caller,
                    payment,
                    hero_id,
                    ability_id,
                ) && *final(self) == *old(self),
                Ok(()) => {
                    let h0 = old(self).heroes@[hero_id];
                    let h1 = final(self).heroes@[hero_id];
                    &&& old(self).spec_unlock_ability_err(
                        caller,
                        payment,
                        hero_id,
                        ability_id,
                    ) is None
                    &&& final(self).heroes@ == old(self).heroes@.insert(hero_id, h1)
                    &&& h1.special_abilities@ == h0.special_abilities@.push(ability_id)
                    &&& h1.level == h0.level
                    &&& h1.stats == h0.stats
                    &&& h1.rarity == h0.rarity
                    &&& h1.experience == h0.experience
                    &&& h1.owner == h0.owner
                    &&& final(self).revenue.spec_total() == old(self).revenue.spec_total() + payment
                    &&& final(self).revenue@ == old(self).revenue@.insert(
                        "ability_unlock"@,
                        (old(self).revenue.spec_by_category("ability_unlock"@) + payment) as u128,
                    )
                    &&& final(self).events@.len() == old(self).events@.len() + 2
                    &&& is_fee_collected(
                        final(self).events@[old(self).events@.len() as int],
                        "ability_unlock"@,
                        payment,
                        caller,
                    )
                    &&& final(self).events@.last() == (Notification::AbilityUnlocked {
                        hero_id,
                        ability_id,
                    })
                    &&& final(self).events@.take(old(self).events@.len() as int) == old(self).events@
                },
            },
            Self::same_admin(*old(self), *final(self)),
            Self::same_requests(*old(self), *final(self)),
            final(self).analytics == old(self).analytics,
            final(self).hero_count == old(self).hero_count,
            final(self).user_heroes == old(self).user_heroes,
    {
        if self.paused {
            return Err(GameError::Paused);
        }
        if payment < get_ability_cost() {
            return Err(GameError::Underpaid);
        }
        match self.heroes.get(hero_id) {
            None => {
                return Err(GameError::HeroNotFound);
            },
            Some(h) => {
                if h.owner != caller {
                    return Err(GameError::NotOwner);
                }
                if h.level < ABILITY_UNLOCK_MIN_LEVEL {
                    return Err(GameError::GateNotMet);
                }
                if hero_has_ability(h, ability_id) {
                    return Err(GameError::AbilityAlreadyUnlocked);
                }
                if h.special_abilities.len() >= MAX_SPECIAL_ABILITIES {
                    return Err(GameError::AbilitySlotsFull);
                }
            },
        };
        if self.revenue.total() > u128::MAX - payment {
            return Err(GameError::QuotaExceeded);
        }

        let mut hero = self.heroes.take(hero_id);
        hero.special_abilities.push(ability_id);
        let ghost gh = hero;
        self.heroes.insert(hero_id, hero);
        proof {
            assert(gh.special_abilities@.no_duplicates()) by {
                let s0 = old(self).heroes@[hero_id].special_abilities@;
                assert(gh.special_abilities@.drop_last() =~= s0);
                assert(!s0.contains(ability_id));
            }
            crate::hero_management::lemma_registry_update_same_owner(
                old(self).heroes@,
                old(self).user_heroes@,
                old(self).hero_count,
                hero_id,
                gh,
            );
        }
        self.add_revenue(caller, String::from_str("ability_unlock"), payment);
        self.events.push(Notification::AbilityUnlocked { hero_id, ability_id });
        Ok(())
    }

    /// The error an ascension fails with, if any.
    pub open spec fn spec_ascend_err(self, caller: u64, payment: u128, hero_id: u64) -> Option<
        GameError,
    > {
        if self.paused {
            Some(GameError::Paused)
        } else if payment < ASCENSION_FEE {
            Some(GameError::Underpaid)
        } else if !self.heroes@.contains_key(hero_id) {
            Some(GameError::HeroNotFound)
        } else if self.heroes@[hero_id].owner != caller {
            Some(GameError::NotOwner)
        } else if self.heroes@[hero_id].level < ASCENSION_MIN_LEVEL {
            Some(GameError::GateNotMet)
        } else if self.heroes@[hero_id].rarity != Rarity::Legendary {
            Some(GameError::GateNotMet)
        } else if self.heroes@[hero_id].win_count < ASCENSION_MIN_WINS {
            Some(GameError::GateNotMet)
        } else if self.revenue.spec_total() + payment > u128::MAX {
            Some(GameError::QuotaExceeded)
        } else {
            None
        }
    }

    /// The terminal ascension: a level-hundred Legendary hero with fifty wins
    /// becomes Mythical, resets to level one with no experience, doubles its
    /// five core stats, and holds the exclusive ascension ability exactly
    /// once. Because the rarity is no longer Legendary afterward, a second
    /// ascension is impossible by construction.
    pub fn ascend_hero(&mut self, caller: u64, payment: u128, now: u64, hero_id: u64) -> (r: Result<
        (),
        GameError,
    >)
        requires
            old(self).wf(),
        ensures
            final(self).wf(),
            match r {
                Err(e) => Some(e) == old(self).spec_ascend_err(caller, payment, hero_id) && *final(self) == *old(self),
                Ok(()) => {
                    let h0 = old(self).heroes@[hero_id];
                    let h1 = final(self).heroes@[hero_id];
                    &&& old(self).spec_ascend_err(caller, payment, hero_id) is None
                    &&& final(self).heroes@ == old(self).heroes@.insert(hero_id, h1)
                    &&& h1.rarity == Rarity::Mythical
                    &&& h1.level == 1
                    &&& h1.experience == 0
                    &&& h1.stats == spec_double_core_stats(h0.stats)
                    &&& h1.last_evolution == now
                    &&& h1.special_abilities@ == (if h0.spec_has_ability(ASCENSION_ABILITY_ID)
                        || h0.special_abilities@.len() >= MAX_SPECIAL_ABILITIES {
                        h0.special_abilities@
                    } else {
                        h0.special_abilities@.push(ASCENSION_ABILITY_ID)
                    })
                    &&& h1.special_abilities@.len() < MAX_SPECIAL_ABILITIES
                        ==> h1.spec_has_ability(ASCENSION_ABILITY_ID)
                    &&& h1.owner == h0.owner
                    &&& final(self).revenue.spec_total() == old(self).revenue.spec_total() + payment
                    &&& final(self).revenue@ == old(self).revenue@.insert(
                        "hero_ascension"@,
                        (old(self).revenue.spec_by_category("hero_ascension"@) + payment) as u128,
                    )
                    &&& final(self).events@.len() == old(self).events@.len() + 2
                    &&& is_fee_collected(
                        final(self).events@[old(self).events@.len() as int],
                        "hero_ascension"@,
                        payment,
                        caller,
                    )
                    &&& final(self).events@.last() == (Notification::HeroAscended { hero_id })
                    &&& final(self).events@.take(old(self).events@.len() as int) == old(self).events@
                },
            },
            Self::same_admin(*old(self), *final(self)),
            Self::same_requests(*old(self), *final(self)),
            final(self).analytics == old(self).analytics,
            final(self).hero_count == old(self).hero_count,
            final(self).user_heroes == old(self).user_heroes,
    {
        if self.paused {
            return Err(GameError::Paused);
        }
        if payment < get_ascension_cost() {
            return Err(GameError::Underpaid);
        }
        match self.heroes.get(hero_id) {
            None => {
                return Err(GameError::HeroNotFound);
            },
            Some(h) => {
                if h.owner != caller {
                    return Err(GameError::NotOwner);
                }
                if h.level < ASCENSION_MIN_LEVEL {
                    return Err(GameError::GateNotMet);
                }
                if !matches!(h.rarity, Rarity::Legendary) {
                    return Err(GameError::GateNotMet);
                }
                if h.win_count < ASCENSION_MIN_WINS {
                    return Err(GameError::GateNotMet);
                }
            },
        };
        if self.revenue.total() > u128::MAX - payment {
            return Err(GameError::QuotaExceeded);
        }

        let mut hero = self.heroes.take(hero_id);
        hero.rarity = Rarity::Mythical;
        hero.level = 1;
        hero.experience = 0;
        hero.stats = double_core_stats(hero.stats);
        hero.last_evolution = now;
        let held = hero_has_ability(&hero, ASCENSION_ABILITY_ID);
        if !held && hero.special_abilities.len() < MAX_SPECIAL_ABILITIES {
            hero.special_abilities.push(ASCENSION_ABILITY_ID);
        }
        let ghost gh = hero;
        self.heroes.insert(hero_id, hero);
        proof {
            if !old(self).heroes@[hero_id].spec_has_ability(ASCENSION_ABILITY_ID) && old(self).heroes@[hero_id].special_abilities@.len() < MAX_SPECIAL_ABILITIES {
                let s0 = old(self).heroes@[hero_id].special_abilities@;
                assert(gh.special_abilities@.drop_last() =~= s0);
                assert(gh.special_abilities@.contains(ASCENSION_ABILITY_ID)) by {
                    assert(gh.special_abilities@.last() == ASCENSION_ABILITY_ID);
                }
            }
            crate::hero_management::lemma_registry_update_same_owner(
                old(self).heroes@,
                old(self).user_heroes@,
                old(self).hero_count,
                hero_id,
                gh,
            );
        }
        self.add_revenue(caller, String::from_str("hero_ascension"), payment);
        self.events.push(Notification::HeroAscended { hero_id });
        Ok(())
    }

    /// Whether the hero currently meets an evolution path's requirements;
    /// false for an unknown identifier.
    pub fn can_evolve(&self, hero_id: u64, evolution_type: EvolutionType) -> (r: bool)
        requires
            self.wf(),
        ensures
            r == (self.heroes@.contains_key(hero_id) && spec_evolution_gate(
                self.heroes@[hero_id],
                evolution_type,
            )),
    {
        match self.heroes.get(hero_id) {
            None => false,
            Some(h) => match evolution_type {
                EvolutionType::StatBoost => h.level >= 10,
                EvolutionType::RarityUpgrade => h.level >= 25 && !matches!(
                    h.rarity,
                    Rarity::Mythical,
                ),
                EvolutionType::ClassEvolution => h.level >= 50 && h.battle_count >= 20,
                EvolutionType::ElementalInfusion => {
                    let ok = h.level >= 30 && h.rarity.rank() >= 1;
                    ok
                },
            },
        }
    }

    /// Whether the hero currently meets the ascension requirements; false for
    /// an unknown identifier.
    pub fn can_ascend(&self, hero_id: u64) -> (r: bool)
        requires
            self.wf(),
        ensures
            r == (self.heroes@.contains_key(hero_id) && self.heroes@[hero_id].level
                >= ASCENSION_MIN_LEVEL && self.heroes@[hero_id].rarity == Rarity::Legendary
                && self.heroes@[hero_id].win_count >= ASCENSION_MIN_WINS),
    {
        match self.heroes.get(hero_id) {
            None => false,
            Some(h) => h.level >= ASCENSION_MIN_LEVEL && matches!(h.rarity, Rarity::Legendary)
                && h.win_count >= ASCENSION_MIN_WINS,
        }
    }

    /// The hero's last evolution time and ability count.
    pub fn get_hero_evolution_history(&self, hero_id: u64) -> (r: Option<(u64, u32)>)
        requires
            self.wf(),
        ensures
            match r {
                Some(p) => self.heroes@.contains_key(hero_id) && p.0 == self.heroes@[
                    hero_id
                ].last_evolution && p.1 == self.heroes@[hero_id].special_abilities@.len(),
                None => !self.heroes@.contains_key(hero_id),
            },
    {
        match self.heroes.get(hero_id) {
            None => None,
            Some(h) => {
                proof {
                    assert(self.heroes@[hero_id].wf());
                }
                Some((h.last_evolution, h.special_abilities.len() as u32))
            },
        }
    }
}

} // verus!
