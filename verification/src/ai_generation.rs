//! The generation engine: initial stats and traits for new heroes, in basic
//! mode (class template) or enhanced mode (template plus a deterministic
//! enhancement derived from the personality string), and the request records
//! handed to the external generation strategy.

use vstd::prelude::*;
use vstd::string::StringExecFns;
use vstd::string::StringSliceAdditionalSpecFns;

use crate::constants::AI_GENERATION_FEE;
use crate::constants::BASIC_GENERATION_FEE;
use crate::constants::MAX_HEROES_PER_ACCOUNT;
use crate::errors::GameError;
use crate::events::is_fee_collected;
use crate::events::Notification;
use crate::stat_model::spec_base_stats;
use crate::types::AIRequest;
use crate::types::AIRequestType;
use crate::types::AITraits;
use crate::types::Equipment;
use crate::types::Hero;
use crate::types::Rarity;
use crate::AIHeroesContract;
use crate::stat_model::spec_uniform_stats;
use crate::types::BattleStyle;
use crate::types::HeroClass;
use crate::types::HeroStats;
use crate::util::push_bytes;
use crate::util::push_str_bytes;

verus! {

/// The default personality label of basic heroes, as bytes.
pub open spec fn spec_default_personality() -> Seq<u8> {
    seq![66u8, 97u8, 108u8, 97u8, 110u8, 99u8, 101u8, 100u8]
}

/// The default personality of basic heroes.
pub fn default_personality() -> (p: Vec<u8>)
    ensures
        p@ == spec_default_personality(),
{
    let mut p: Vec<u8> = Vec::new();
    p.push(66);
    p.push(97);
    p.push(108);
    p.push(97);
    p.push(110);
    p.push(99);
    p.push(101);
    p.push(100);
    proof {
        assert(p@ =~= spec_default_personality());
    }
    p
}

/// The enhancement scalar of enhanced generation: the personality's byte
/// length modulo 20, plus 10; always in the range 10..=29.
pub open spec fn spec_enhancement(personality_len: nat) -> u32 {
    ((personality_len % 20) + 10) as u32
}

/// Enhanced-mode initial stats: the class template of the hint, or the
/// uniform template without one, raised uniformly by the enhancement scalar.
pub open spec fn spec_enhanced_stats(class_hint: Option<HeroClass>, personality_len: nat) -> HeroStats {
    let base = match class_hint {
        Some(c) => spec_base_stats(c),
        None => spec_uniform_stats(),
    };
    let e = spec_enhancement(personality_len);
    HeroStats {
        strength: (base.strength + e) as u32,
        intelligence: (base.intelligence + e) as u32,
        agility: (base.agility + e) as u32,
        vitality: (base.vitality + e) as u32,
        luck: (base.luck + e) as u32,
        magic_power: (base.magic_power + e) as u32,
    }
}

/// The class derived from a personality string when no hint is given: its
/// byte length modulo six indexes the class enumeration.
pub open spec fn spec_class_from_len(personality_len: nat) -> HeroClass {
    if personality_len % 6 == 0 {
        HeroClass::Warrior
    } else if personality_len % 6 == 1 {
        HeroClass::Mage
    } else if personality_len % 6 == 2 {
        HeroClass::Rogue
    } else if personality_len % 6 == 3 {
        HeroClass::Paladin
    } else if personality_len % 6 == 4 {
        HeroClass::Necromancer
    } else {
        HeroClass::Elementalist
    }
}

/// The battle style is a fixed function of the class.
pub open spec fn spec_battle_style(class: HeroClass) -> BattleStyle {
    match class {
        HeroClass::Warrior => BattleStyle::Aggressive,
        HeroClass::Mage => BattleStyle::Tactical,
        HeroClass::Rogue => BattleStyle::Balanced,
        HeroClass::Paladin => BattleStyle::Defensive,
        HeroClass::Necromancer => BattleStyle::Tactical,
        HeroClass::Elementalist => BattleStyle::Balanced,
    }
}

/// The fixed base-stat template of a class.
pub fn generate_basic_stats(hero_class: &HeroClass) -> (s: HeroStats)
    ensures
        s == spec_base_stats(*hero_class),
{
    match hero_class {
        HeroClass::Warrior => HeroStats {
            strength: 130,
            intelligence: 100,
            agility: 110,
            vitality: 120,
            luck: 100,
            magic_power: 90,
        },
        HeroClass::Mage => HeroStats {
            strength: 90,
            intelligence: 130,
            agility: 100,
            vitality: 100,
            luck: 110,
            magic_power: 120,
        },
        HeroClass::Rogue => HeroStats {
            strength: 110,
            intelligence: 110,
            agility: 130,
            vitality: 100,
            luck: 120,
            magic_power: 90,
        },
        HeroClass::Paladin => HeroStats {
            strength: 120,
            intelligence: 110,
            agility: 100,
            vitality: 120,
            luck: 100,
            magic_power: 110,
        },
        HeroClass::Necromancer => HeroStats {
            strength: 100,
            intelligence: 125,
            agility: 105,
            vitality: 95,
            luck: 105,
            magic_power: 130,
        },
        HeroClass::Elementalist => HeroStats {
            strength: 95,
            intelligence: 120,
            agility: 115,
            vitality: 105,
            luck: 115,
            magic_power: 125,
        },
    }
}

/// Enhanced-mode initial stats.
pub fn generate_ai_enhanced_stats(
    preferred_class: &Option<HeroClass>,
    personality: &Vec<u8>,
) -> (s: HeroStats)
    ensures
        s == spec_enhanced_stats(*preferred_class, personality@.len()),
{
    let base = match preferred_class {
        Some(class) => generate_basic_stats(class),
        None => HeroStats {
            strength: 100,
            intelligence: 100,
            agility: 100,
            vitality: 100,
            luck: 100,
            magic_power: 100,
        },
    };
    let enhancement = (personality.len() % 20) as u32 + 10;
    HeroStats {
        strength: base.strength + enhancement,
        intelligence: base.intelligence + enhancement,
        agility: base.agility + enhancement,
        vitality: base.vitality + enhancement,
        luck: base.luck + enhancement,
        magic_power: base.magic_power + enhancement,
    }
}

/// The class derived from the personality's byte length.
pub fn determine_class_from_personality(personality: &Vec<u8>) -> (c: HeroClass)
    ensures
        c == spec_class_from_len(personality@.len()),
{
    match personality.len() % 6 {
        0 => HeroClass::Warrior,
        1 => HeroClass::Mage,
        2 => HeroClass::Rogue,
        3 => HeroClass::Paladin,
        4 => HeroClass::Necromancer,
        _ => HeroClass::Elementalist,
    }
}

/// The battle style fixed by the class.
pub fn determine_battle_style(hero_class: &HeroClass) -> (s: BattleStyle)
    ensures
        s == spec_battle_style(*hero_class),
{
    match hero_class {
        HeroClass::Warrior => BattleStyle::Aggressive,
        HeroClass::Mage => BattleStyle::Tactical,
        HeroClass::Rogue => BattleStyle::Balanced,
        HeroClass::Paladin => BattleStyle::Defensive,
        HeroClass::Necromancer => BattleStyle::Tactical,
        HeroClass::Elementalist => BattleStyle::Balanced,
    }
}

/// A draw from the entropy tick into the inclusive range `min..=max`.
pub fn generate_random_in_range(tick: u64, min: u32, max: u32) -> (r: u32)
    requires
        min <= max,
    ensures
        r == min + (tick as int) % (max - min + 1),
{
    let range: u64 = (max - min) as u64 + 1;
    min + (tick % range) as u32
}

/// The prompt text handed to the external generation strategy.
pub open spec fn spec_prompt(
    name: Seq<u8>,
    preferred_class: Option<HeroClass>,
    personality: Seq<u8>,
) -> Seq<u8> {
    let head = "Generate RPG hero with name: ".spec_bytes() + name;
    let with_class = match preferred_class {
        Some(c) => head + ", preferred class: ".spec_bytes() + spec_class_label(c),
        None => head,
    };
    with_class + ", personality: ".spec_bytes() + personality
        + ". Return JSON with stats, traits, and battle style.".spec_bytes()
}

/// The class's display label, as bytes.
pub open spec fn spec_class_label(class: HeroClass) -> Seq<u8> {
    match class {
        HeroClass::Warrior => "Warrior".spec_bytes(),
        HeroClass::Mage => "Mage".spec_bytes(),
        HeroClass::Rogue => "Rogue".spec_bytes(),
        HeroClass::Paladin => "Paladin".spec_bytes(),
        HeroClass::Necromancer => "Necromancer".spec_bytes(),
        HeroClass::Elementalist => "Elementalist".spec_bytes(),
    }
}

/// Builds the generation prompt from the name, the optional class hint and
/// the personality string.
pub fn build_hero_generation_prompt(
    name: &Vec<u8>,
    preferred_class: &Option<HeroClass>,
    personality: &Vec<u8>,
) -> (p: Vec<u8>)
    ensures
        p@ == spec_prompt(name@, *preferred_class, personality@),
{
    let mut prompt: Vec<u8> = Vec::new();
    push_str_bytes(&mut prompt, "Generate RPG hero with name: ");
    push_bytes(&mut prompt, name);
    match preferred_class {
        Some(class) => {
            push_str_bytes(&mut prompt, ", preferred class: ");
            match class {
                HeroClass::Warrior => push_str_bytes(&mut prompt, "Warrior"),
                HeroClass::Mage => push_str_bytes(&mut prompt, "Mage"),
                HeroClass::Rogue => push_str_bytes(&mut prompt, "Rogue"),
                HeroClass::Paladin => push_str_bytes(&mut prompt, "Paladin"),
                HeroClass::Necromancer => push_str_bytes(&mut prompt, "Necromancer"),
                HeroClass::Elementalist => push_str_bytes(&mut prompt, "Elementalist"),
            }
        },
        None => {},
    }
    push_str_bytes(&mut prompt, ", personality: ");
    push_bytes(&mut prompt, personality);
    push_str_bytes(&mut prompt, ". Return JSON with stats, traits, and battle style.");
    proof {
        assert(prompt@ =~= spec_prompt(name@, *preferred_class, personality@));
    }
    prompt
}


impl AIHeroesContract {
    /// The error an enhanced generation request fails with, if any: a paused
    /// contract, an insufficient payment, the per-account quota, and an
    /// exhausted identifier space or ledger.
    pub open spec fn spec_generate_ai_hero_err(self, caller: u64, payment: u128) -> Option<
        GameError,
    > {
        if self.paused {
            Some(GameError::Paused)
        } else if payment < AI_GENERATION_FEE {
            Some(GameError::Underpaid)
        } else if self.user_count(caller) >= MAX_HEROES_PER_ACCOUNT {
            Some(GameError::QuotaExceeded)
        } else if self.hero_count == u64::MAX {
            Some(GameError::QuotaExceeded)
        } else if self.ai_request_count == u64::MAX {
            Some(GameError::QuotaExceeded)
        } else if self.revenue.spec_total() + payment > u128::MAX {
            Some(GameError::QuotaExceeded)
        } else {
            None
        }
    }

    /// The error a basic generation request fails with, if any.
    pub open spec fn spec_generate_basic_hero_err(self, caller: u64, payment: u128) -> Option<
        GameError,
    > {
        if self.paused {
            Some(GameError::Paused)
        } else if payment < BASIC_GENERATION_FEE {
            Some(GameError::Underpaid)
        } else if self.user_count(caller) >= MAX_HEROES_PER_ACCOUNT {
            Some(GameError::QuotaExceeded)
        } else if self.hero_count == u64::MAX {
            Some(GameError::QuotaExceeded)
        } else if self.revenue.spec_total() + payment > u128::MAX {
            Some(GameError::QuotaExceeded)
        } else {
            None
        }
    }

    /// Stores a generation request for the external strategy: a fresh
    /// identifier, the prompt data, the contract's own callback address and
    /// the submission time; the request joins the pending set and the
    /// caller's request set, and a submission notification is recorded.
    pub(crate) fn create_ai_request(
        &mut self,
        caller: u64,
        now: u64,
        request_type: AIRequestType,
        data: Vec<u8>,
    ) -> (request_id: u64)
        requires
            old(self).wf(),
            old(self).ai_request_count < u64::MAX,
        ensures
            final(self).wf(),
            request_id == old(self).ai_request_count + 1,
            final(self).ai_request_count == request_id,
            final(self).ai_requests@ == old(self).ai_requests@.insert(
                request_id,
                final(self).ai_requests@[request_id],
            ),
            final(self).ai_requests@[request_id].request_id == request_id,
            final(self).ai_requests@[request_id].request_type == request_type,
            final(self).ai_requests@[request_id].data == data,
            final(self).ai_requests@[request_id].callback_address == old(self).sc_address,
            final(self).ai_requests@[request_id].timestamp == now,
            !final(self).ai_requests@[request_id].processed,
            final(self).pending_ai_requests@ == old(self).pending_ai_requests@.insert(request_id),
            final(self).user_ai_requests@.contains_key(caller),
            final(self).user_ai_requests@[caller]@ == (if old(self).user_ai_requests@.contains_key(
                caller,
            ) {
                old(self).user_ai_requests@[caller]@
            } else {
                Set::<u64>::empty()
            }).insert(request_id),
            forall|u: u64|
                u != caller && old(self).user_ai_requests@.contains_key(u) ==> final(self).user_ai_requests@.contains_key(u) && final(self).user_ai_requests@[u] == old(self).user_ai_requests@[u],
            final(self).events@ == old(self).events@.push(
                Notification::AIRequestSubmitted { request_id, request_type, requester: caller },
            ),
            Self::same_admin(*old(self), *final(self)),
            Self::same_heroes(*old(self), *final(self)),
            final(self).analytics == old(self).analytics,
            final(self).revenue == old(self).revenue,
    {
        let request_id = self.ai_request_count + 1;
        self.ai_request_count = request_id;
        let ai_request = AIRequest {
            request_id,
            request_type,
            data,
            callback_address: self.sc_address,
            timestamp: now,
            processed: false,
        };
        self.ai_requests.insert(request_id, ai_request);
        self.pending_ai_requests.insert(request_id);
        let mut user_requests = if self.user_ai_requests.contains(caller) {
            self.user_ai_requests.take(caller)
        } else {
            crate::storage::U64Set::new()
        };
        user_requests.insert(request_id);
        self.user_ai_requests.insert(caller, user_requests);
        proof {
            assert forall|u: u64| self.user_ai_requests@.contains_key(u) implies (
            #[trigger] self.user_ai_requests@[u]).wf() by {
                if u != caller {
                    assert(old(self).user_ai_requests@.contains_key(u));
                    assert(old(self).user_ai_requests@[u].wf());
                }
            }
        }
        self.events.push(
            Notification::AIRequestSubmitted { request_id, request_type, requester: caller },
        );
        request_id
    }

    /// Mints a hero from an enhanced generation request: stats from the class
    /// hint (or the uniform template) raised by the personality-derived
    /// enhancement scalar, the class derived from the personality when no
    /// hint is given, and traits drawn from the entropy tick.
    pub(crate) fn create_hero_from_ai_request(
        &mut self,
        _request_id: u64,
        owner: u64,
        now: u64,
        tick: u64,
        name: Vec<u8>,
        preferred_class: Option<HeroClass>,
        ai_personality: Vec<u8>,
    ) -> (hero_id: u64)
        requires
            old(self).wf(),
            owner != 0,
            name@.len() <= 32,
            old(self).hero_count < u64::MAX,
            old(self).user_count(owner) < u32::MAX,
        ensures
            final(self).wf(),
            hero_id == old(self).hero_count + 1,
            final(self).hero_count == hero_id,
            final(self).heroes@ == old(self).heroes@.insert(hero_id, final(self).heroes@[hero_id]),
            ({
                let h = final(self).heroes@[hero_id];
                &&& h.id == hero_id
                &&& h.owner == owner
                &&& h.name == name
                &&& h.class == (match preferred_class {
                    Some(c) => c,
                    None => spec_class_from_len(ai_personality@.len()),
                })
                &&& h.level == 1
                &&& h.experience == 0
                &&& h.stats == spec_enhanced_stats(preferred_class, ai_personality@.len())
                &&& h.rarity == Rarity::Common
                &&& h.battle_count == 0
                &&& h.win_count == 0
                &&& h.creation_timestamp == now
                &&& h.last_evolution == now
                &&& h.special_abilities@ =~= Seq::<u32>::empty()
                &&& h.ai_traits.personality == ai_personality
                &&& h.ai_traits.battle_style == spec_battle_style(h.class)
                &&& h.ai_traits.adaptation_rate == 70 + (tick as int) % 31
                &&& h.ai_traits.learning_factor == 60 + (tick as int) % 31
                &&& h.ai_traits.ai_seed == tick.wrapping_add(hero_id)
            }),
            final(self).user_set(owner) == old(self).user_set(owner).insert(hero_id),
            final(self).user_count(owner) == old(self).user_count(owner) + 1,
            forall|o: u64|
                o != owner ==> final(self).user_set(o) == old(self).user_set(o) && final(self).user_count(o) == old(self).user_count(o),
            final(self).events@ == old(self).events@.push(
                Notification::HeroCreated {
                    hero_id,
                    owner,
                    class: final(self).heroes@[hero_id].class,
                    ai_generated: true,
                },
            ),
            Self::same_admin(*old(self), *final(self)),
            Self::same_requests(*old(self), *final(self)),
            final(self).analytics == old(self).analytics,
            final(self).revenue == old(self).revenue,
    {
        let hero_id = self.hero_count + 1;
        let stats = generate_ai_enhanced_stats(&preferred_class, &ai_personality);
        let hero_class = match preferred_class {
            Some(c) => c,
            None => determine_class_from_personality(&ai_personality),
        };
        let ai_traits = AITraits {
            personality: ai_personality,
            battle_style: determine_battle_style(&hero_class),
            adaptation_rate: generate_random_in_range(tick, 70, 100),
            learning_factor: generate_random_in_range(tick, 60, 90),
            ai_seed: tick.wrapping_add(hero_id),
        };
        let hero = Hero {
            id: hero_id,
            owner,
            name,
            class: hero_class,
            level: 1,
            experience: 0,
            stats,
            equipment: Equipment::empty(),
            rarity: Rarity::Common,
            battle_count: 0,
            win_count: 0,
            creation_timestamp: now,
            last_evolution: now,
            special_abilities: Vec::new(),
            ai_traits,
        };
        self.register_new_hero(hero);
        self.events.push(
            Notification::HeroCreated { hero_id, owner, class: hero_class, ai_generated: true },
        );
        hero_id
    }

    /// Mints a basic hero from the class template, with the default balanced
    /// traits.
    pub(crate) fn create_basic_hero(
        &mut self,
        owner: u64,
        now: u64,
        name: Vec<u8>,
        hero_class: HeroClass,
    ) -> (hero_id: u64)
        requires
            old(self).wf(),
            owner != 0,
            name@.len() <= 32,
            old(self).hero_count < u64::MAX,
            old(self).user_count(owner) < u32::MAX,
        ensures
            final(self).wf(),
            hero_id == old(self).hero_count + 1,
            final(self).hero_count == hero_id,
            final(self).heroes@ == old(self).heroes@.insert(hero_id, final(self).heroes@[hero_id]),
            ({
                let h = final(self).heroes@[hero_id];
                &&& h.id == hero_id
                &&& h.owner == owner
                &&& h.name == name
                &&& h.class == hero_class
                &&& h.level == 1
                &&& h.experience == 0
                &&& h.stats == spec_base_stats(hero_class)
                &&& h.rarity == Rarity::Common
                &&& h.battle_count == 0
                &&& h.win_count == 0
                &&& h.creation_timestamp == now
                &&& h.last_evolution == now
                &&& h.special_abilities@ =~= Seq::<u32>::empty()
                &&& h.ai_traits.personality@ == spec_default_personality()
                &&& h.ai_traits.battle_style == BattleStyle::Balanced
                &&& h.ai_traits.adaptation_rate == 50
                &&& h.ai_traits.learning_factor == 50
                &&& h.ai_traits.ai_seed == now.wrapping_add(hero_id)
            }),
            final(self).user_set(owner) == old(self).user_set(owner).insert(hero_id),
            final(self).user_count(owner) == old(self).user_count(owner) + 1,
            forall|o: u64|
                o != owner ==> final(self).user_set(o) == old(self).user_set(o) && final(self).user_count(o) == old(self).user_count(o),
            final(self).events@ == old(self).events@.push(
                Notification::HeroCreated { hero_id, owner, class: hero_class, ai_generated: false },
            ),
            Self::same_admin(*old(self), *final(self)),
            Self::same_requests(*old(self), *final(self)),
            final(self).analytics == old(self).analytics,
            final(self).revenue == old(self).revenue,
    {
        let hero_id = self.hero_count + 1;
        let stats = generate_basic_stats(&hero_class);
        let ai_traits = AITraits {
            personality: default_personality(),
            battle_style: BattleStyle::Balanced,
            adaptation_rate: 50,
            learning_factor: 50,
            ai_seed: now.wrapping_add(hero_id),
        };
        let hero = Hero {
            id: hero_id,
            owner,
            name,
            class: hero_class,
            level: 1,
            experience: 0,
            stats,
            equipment: Equipment::empty(),
            rarity: Rarity::Common,
            battle_count: 0,
            win_count: 0,
            creation_timestamp: now,
            last_evolution: now,
            special_abilities: Vec::new(),
            ai_traits,
        };
        self.register_new_hero(hero);
        self.events.push(
            Notification::HeroCreated { hero_id, owner, class: hero_class, ai_generated: false },
        );
        hero_id
    }

    /// Enhanced ("AI") hero generation: for the full generation fee, a
    /// generation request with the built prompt is stored, a hero is minted
    /// from the enhanced stats and entropy-drawn traits, and the fee joins
    /// the `ai_hero_generation` category.
    pub fn generate_ai_hero(
        &mut self,
        caller: u64,
        payment: u128,
        now: u64,
        tick: u64,
        name: Vec<u8>,
        preferred_class: Option<HeroClass>,
        ai_personality: Vec<u8>,
    ) -> (r: Result<u64, GameError>)
        requires
            old(self).wf(),
            caller != 0,
            name@.len() <= 32,
        ensures
            final(self).wf(),
            match r {
                Err(e) => Some(e) == old(self).spec_generate_ai_hero_err(caller, payment)
                    && *final(self) == *old(self),
                Ok(hero_id) => {
                    let h = final(self).heroes@[hero_id];
                    let request_id = (old(self).ai_request_count + 1) as u64;
                    &&& old(self).spec_generate_ai_hero_err(caller, payment) is None
                    &&& hero_id == old(self).hero_count + 1
                    &&& final(self).hero_count == hero_id
                    &&& final(self).ai_request_count == request_id
                    &&& final(self).heroes@ == old(self).heroes@.insert(hero_id, h)
                    &&& h.class == (match preferred_class {
                        Some(c) => c,
                        None => spec_class_from_len(ai_personality@.len()),
                    })
                    &&& h.stats == spec_enhanced_stats(preferred_class, ai_personality@.len())
                    &&& h.ai_traits.personality == ai_personality
                    &&& h.ai_traits.battle_style == spec_battle_style(h.class)
                    &&& h.ai_traits.adaptation_rate == 70 + (tick as int) % 31
                    &&& h.ai_traits.learning_factor == 60 + (tick as int) % 31
                    &&& h.ai_traits.ai_seed == tick.wrapping_add(hero_id)
                    &&& h.owner == caller
                    &&& h.level == 1
                    &&& h.experience == 0
                    &&& h.rarity == Rarity::Common
                    &&& final(self).ai_requests@.contains_key(request_id)
                    &&& final(self).ai_requests@[request_id].request_type
                        == AIRequestType::HeroGeneration
                    &&& final(self).ai_requests@[request_id].data@ == spec_prompt(
                        h.name@,
                        preferred_class,
                        ai_personality@,
                    )
                    &&& final(self).user_set(caller) == old(self).user_set(caller).insert(hero_id)
                    &&& final(self).user_count(caller) == old(self).user_count(caller) + 1
                    &&& final(self).revenue.spec_total() == old(self).revenue.spec_total() + payment
                    &&& final(self).revenue@ == old(self).revenue@.insert(
                        "ai_hero_generation"@,
                        (old(self).revenue.spec_by_category("ai_hero_generation"@)
                            + payment) as u128,
                    )
                    &&& final(self).events@.len() == old(self).events@.len() + 3
                    &&& final(self).events@[old(self).events@.len() as int]
                        == (Notification::AIRequestSubmitted {
                        request_id,
                        request_type: AIRequestType::HeroGeneration,
                        requester: caller,
                    })
                    &&& final(self).events@[old(self).events@.len() as int + 1]
                        == (Notification::HeroCreated {
                        hero_id,
                        owner: caller,
                        class: h.class,
                        ai_generated: true,
                    })
                    &&& is_fee_collected(
                        final(self).events@.last(),
                        "ai_hero_generation"@,
                        payment,
                        caller,
                    )
                    &&& final(self).events@.take(old(self).events@.len() as int) == old(self).events@
                    &&& forall|o: u64|
                        o != caller ==> final(self).user_set(o) == old(self).user_set(o) && final(self).user_count(o) == old(self).user_count(o)
                },
            },
            Self::same_admin(*old(self), *final(self)),
    {
        if self.paused {
            return Err(GameError::Paused);
        }
        if payment < AI_GENERATION_FEE {
            return Err(GameError::Underpaid);
        }
        let user_hero_count = self.get_user_hero_count(caller);
        if user_hero_count >= MAX_HEROES_PER_ACCOUNT {
            return Err(GameError::QuotaExceeded);
        }
        if self.hero_count == u64::MAX {
            return Err(GameError::QuotaExceeded);
        }
        if self.ai_request_count == u64::MAX {
            return Err(GameError::QuotaExceeded);
        }
        if self.revenue.total() > u128::MAX - payment {
            return Err(GameError::QuotaExceeded);
        }

        let prompt = build_hero_generation_prompt(&name, &preferred_class, &ai_personality);
        let request_id = self.create_ai_request(
            caller,
            now,
            AIRequestType::HeroGeneration,
            prompt,
        );
        let hero_id = self.create_hero_from_ai_request(
            request_id,
            caller,
            now,
            tick,
            name,
            preferred_class,
            ai_personality,
        );
        self.add_revenue(caller, String::from_str("ai_hero_generation"), payment);
        Ok(hero_id)
    }

    /// Basic hero generation: for half the full fee, a hero is minted from
    /// the class template with the default traits and the fee joins the
    /// `basic_hero_generation` category.
    pub fn generate_basic_hero(
        &mut self,
        caller: u64,
        payment: u128,
        now: u64,
        name: Vec<u8>,
        hero_class: HeroClass,
    ) -> (r: Result<u64, GameError>)
        requires
            old(self).wf(),
            caller != 0,
            name@.len() <= 32,
        ensures
            final(self).wf(),
            match r {
                Err(e) => Some(e) == old(self).spec_generate_basic_hero_err(caller, payment)
                    && *final(self) == *old(self),
                Ok(hero_id) => {
                    let h = final(self).heroes@[hero_id];
                    &&& old(self).spec_generate_basic_hero_err(caller, payment) is None
                    &&& hero_id == old(self).hero_count + 1
                    &&& final(self).hero_count == hero_id
                    &&& final(self).heroes@ == old(self).heroes@.insert(hero_id, h)
                    &&& h.class == hero_class
                    &&& h.stats == spec_base_stats(hero_class)
                    &&& h.owner == caller
                    &&& h.level == 1
                    &&& h.experience == 0
                    &&& h.rarity == Rarity::Common
                    &&& h.ai_traits.personality@ == spec_default_personality()
                    &&& h.ai_traits.battle_style == BattleStyle::Balanced
                    &&& h.ai_traits.adaptation_rate == 50
                    &&& h.ai_traits.learning_factor == 50
                    &&& final(self).user_set(caller) == old(self).user_set(caller).insert(hero_id)
                    &&& final(self).user_count(caller) == old(self).user_count(caller) + 1
                    &&& final(self).revenue.spec_total() == old(self).revenue.spec_total() + payment
                    &&& final(self).revenue@ == old(self).revenue@.insert(
                        "basic_hero_generation"@,
                        (old(self).revenue.spec_by_category("basic_hero_generation"@)
                            + payment) as u128,
                    )
                    &&& final(self).events@.len() == old(self).events@.len() + 2
                    &&& final(self).events@[old(self).events@.len() as int]
                        == (Notification::HeroCreated {
                        hero_id,
                        owner: caller,
                        class: hero_class,
                        ai_generated: false,
                    })
                    &&& is_fee_collected(
                        final(self).events@.last(),
                        "basic_hero_generation"@,
                        payment,
                        caller,
                    )
                    &&& final(self).events@.take(old(self).events@.len() as int) == old(self).events@
                    &&& forall|o: u64|
                        o != caller ==> final(self).user_set(o) == old(self).user_set(o) && final(self).user_count(o) == old(self).user_count(o)
                },
            },
            Self::same_admin(*old(self), *final(self)),
            Self::same_requests(*old(self), *final(self)),
            final(self).analytics == old(self).analytics,
    {
        if self.paused {
            return Err(GameError::Paused);
        }
        if payment < BASIC_GENERATION_FEE {
            return Err(GameError::Underpaid);
        }
        let user_hero_count = self.get_user_hero_count(caller);
        if user_hero_count >= MAX_HEROES_PER_ACCOUNT {
            return Err(GameError::QuotaExceeded);
        }
        if self.hero_count == u64::MAX {
            return Err(GameError::QuotaExceeded);
        }
        if self.revenue.total() > u128::MAX - payment {
            return Err(GameError::QuotaExceeded);
        }

        let hero_id = self.create_basic_hero(caller, now, name, hero_class);
        self.add_revenue(caller, String::from_str("basic_hero_generation"), payment);
        Ok(hero_id)
    }
}

} // verus!
