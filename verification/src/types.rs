//! Core data model: heroes, their classes, stats, rarity tiers, equipment,
//! battle records and requests handed to the pluggable generation strategy.

use vstd::prelude::*;

verus! {

/// Upper bound on the byte length of a hero's name.
pub const MAX_NAME_LENGTH: usize = 32;

/// Upper bound on the number of special abilities a hero can hold.
pub const MAX_SPECIAL_ABILITIES: usize = 5;

#[derive(Clone, Copy, Debug, PartialEq, Eq, Structural)]
pub enum HeroClass {
    Warrior,
    Mage,
    Rogue,
    Paladin,
    Necromancer,
    Elementalist,
}

#[derive(Clone, Copy, Debug, PartialEq, Eq, Structural)]
pub enum BattleStyle {
    Aggressive,
    Defensive,
    Balanced,
    Tactical,
    Berserker,
}

/// Ordered rarity tiers; a hero's rarity only ever advances along this order.
#[derive(Clone, Copy, Debug, PartialEq, Eq, Structural)]
pub enum Rarity {
    Common,
    Rare,
    Epic,
    Legendary,
    Mythical,
}

impl Rarity {
    /// Position of the tier in the Common..Mythical order.
    pub open spec fn spec_rank(self) -> u32 {
        match self {
            Rarity::Common => 0,
            Rarity::Rare => 1,
            Rarity::Epic => 2,
            Rarity::Legendary => 3,
            Rarity::Mythical => 4,
        }
    }

    /// Executable counterpart of `spec_rank`.
    pub fn rank(&self) -> (r: u32)
        ensures
            r == self.spec_rank(),
    {
        match self {
            Rarity::Common => 0,
            Rarity::Rare => 1,
            Rarity::Epic => 2,
            Rarity::Legendary => 3,
            Rarity::Mythical => 4,
        }
    }
}

/// The six base attributes every hero carries.
#[derive(Clone, Copy, Debug, PartialEq, Eq, Structural)]
pub struct HeroStats {
    pub strength: u32,
    pub intelligence: u32,
    pub agility: u32,
    pub vitality: u32,
    pub luck: u32,
    pub magic_power: u32,
}

/// The five named equipment slots of a hero, each optionally holding an item id.
#[derive(Clone, Copy, Debug, PartialEq, Eq, Structural)]
pub struct Equipment {
    pub weapon: Option<u64>,
    pub armor: Option<u64>,
    pub helmet: Option<u64>,
    pub boots: Option<u64>,
    pub accessory: Option<u64>,
}

impl Equipment {
    /// An equipment record with every slot empty.
    pub fn empty() -> (e: Equipment)
        ensures
            e == (Equipment {
                weapon: None,
                armor: None,
                helmet: None,
                boots: None,
                accessory: None,
            }),
    {
        Equipment { weapon: None, armor: None, helmet: None, boots: None, accessory: None }
    }
}

/// Traits produced by the generation strategy at creation time.
#[derive(Debug)]
pub struct AITraits {
    pub personality: Vec<u8>,
    pub battle_style: BattleStyle,
    pub adaptation_rate: u32,
    pub learning_factor: u32,
    pub ai_seed: u64,
}

/// The central progression entity.
#[derive(Debug)]
pub struct Hero {
    pub id: u64,
    pub owner: u64,
    pub name: Vec<u8>,
    pub class: HeroClass,
    pub level: u32,
    pub experience: u64,
    pub stats: HeroStats,
    pub equipment: Equipment,
    pub rarity: Rarity,
    pub battle_count: u32,
    pub win_count: u32,
    pub creation_timestamp: u64,
    pub last_evolution: u64,
    pub special_abilities: Vec<u32>,
    pub ai_traits: AITraits,
}

impl Hero {
    /// Structural soundness of a hero record: a positive identifier, a non-zero
    /// owner account, a level of at least one, a bounded name and a bounded,
    /// duplicate-free ability list.
    pub open spec fn wf(self) -> bool {
        &&& self.id >= 1
        &&& self.owner != 0
        &&& self.level >= 1
        &&& self.name@.len() <= MAX_NAME_LENGTH
        &&& self.special_abilities@.len() <= MAX_SPECIAL_ABILITIES
        &&& self.special_abilities@.no_duplicates()
    }

    /// Whether the hero already holds the given special ability.
    pub open spec fn spec_has_ability(self, ability_id: u32) -> bool {
        self.special_abilities@.contains(ability_id)
    }
}

#[derive(Clone, Copy, Debug, PartialEq, Eq, Structural)]
pub enum ItemType {
    Weapon,
    Armor,
    Helmet,
    Boots,
    Accessory,
    Consumable,
}

#[derive(Clone, Copy, Debug, PartialEq, Eq, Structural)]
pub enum EffectType {
    DamageBoost,
    DefenseBoost,
    SpeedBoost,
    CriticalChance,
    LifeSteal,
    ManaRegeneration,
    ElementalResistance,
    AILearningBoost,
}

#[derive(Clone, Copy, Debug, PartialEq, Eq, Structural)]
pub struct SpecialEffect {
    pub effect_type: EffectType,
    pub value: u32,
    pub duration: u32,
}

/// An equippable item.
#[derive(Debug)]
pub struct Item {
    pub id: u64,
    pub name: Vec<u8>,
    pub item_type: ItemType,
    pub rarity: Rarity,
    pub level: u32,
    pub stats_bonus: HeroStats,
    pub special_effects: Vec<SpecialEffect>,
    pub durability: u32,
    pub max_durability: u32,
    pub evolution_stage: u32,
    pub usage_count: u64,
    pub ai_generated: bool,
}

#[derive(Clone, Copy, Debug, PartialEq, Eq, Structural)]
pub enum BattleType {
    PvP,
    PvE,
    Tournament,
    AITraining,
    GuildWar,
}

#[derive(Clone, Copy, Debug, PartialEq, Eq, Structural)]
pub enum BattleStatus {
    Pending,
    InProgress,
    Completed,
    Cancelled,
}

/// Rewards granted when a battle completes.
#[derive(Debug)]
pub struct BattleRewards {
    pub experience: u64,
    pub tokens: u128,
    pub items: Vec<u64>,
    pub ai_evolution_points: u32,
}

/// A recorded battle between heroes.
#[derive(Debug)]
pub struct Battle {
    pub id: u64,
    pub participants: Vec<u64>,
    pub hero_ids: Vec<u64>,
    pub battle_type: BattleType,
    pub status: BattleStatus,
    pub start_time: u64,
    pub end_time: Option<u64>,
    pub winner: Option<u64>,
    pub rewards: BattleRewards,
    pub ai_difficulty: u32,
}

#[derive(Clone, Copy, Debug, PartialEq, Eq, Structural)]
pub enum AIRequestType {
    HeroGeneration,
    ItemEvolution,
    BattlePrediction,
    PersonalityAnalysis,
    MatchmakingOptimization,
}

/// A request queued for the external generation strategy.
#[derive(Debug)]
pub struct AIRequest {
    pub request_id: u64,
    pub request_type: AIRequestType,
    pub data: Vec<u8>,
    pub callback_address: u64,
    pub timestamp: u64,
    pub processed: bool,
}

/// The four paid evolution paths of the evolution state machine.
#[derive(Clone, Copy, Debug, PartialEq, Eq, Structural)]
pub enum EvolutionType {
    StatBoost,
    RarityUpgrade,
    ClassEvolution,
    ElementalInfusion,
}

} // verus!
