//! Hero lifecycle operations: creation, transfer, leveling, the combined
//! evolve operation, battle-result callbacks and read accessors.

use vstd::prelude::*;
use vstd::string::StringExecFns;

use crate::ai_generation::default_personality;
use crate::ai_generation::generate_basic_stats;
use crate::ai_generation::spec_default_personality;
use crate::constants::EXPERIENCE_PER_LEVEL;
use crate::constants::HERO_CREATION_FEE;
use crate::constants::HERO_EVOLUTION_FEE;
use crate::constants::MAX_HEROES_PER_ACCOUNT;
use crate::errors::GameError;
use crate::events::is_fee_collected;
use crate::events::Notification;
use crate::stat_model::spec_add_stats;
use crate::stat_model::spec_evolve_delta;
use crate::stat_model::spec_growth_delta;
use crate::stat_model::add_stats;
use crate::stat_model::evolve_delta;
use crate::stat_model::growth_delta;
use crate::storage::U64Set;
use crate::types::AITraits;
use crate::types::BattleStyle;
use crate::types::Equipment;
use crate::types::Hero;
use crate::types::HeroClass;
use crate::types::HeroStats;
use crate::types::Rarity;
use crate::util::sadd32;
use crate::util::sadd64;
use crate::util::sat_add_u32;
use crate::util::sat_add_u64;
use crate::AIHeroesContract;

verus! {

/// One owner's registry entry: the set of hero identifiers the account
/// controls, plus a cached count for constant-time quota checks.
pub struct OwnerEntry {
    pub ids: U64Set,
    pub count: u32,
}

impl OwnerEntry {
    /// The cached count always equals the cardinality of the set.
    pub open spec fn wf(self) -> bool {
        &&& self.ids.wf()
        &&& self.count == self.ids@.len()
    }

    pub fn new() -> (e: OwnerEntry)
        ensures
            e.wf(),
            e.ids@ == Set::<u64>::empty(),
            e.count == 0,
    {
        OwnerEntry { ids: U64Set::new(), count: 0 }
    }
}

/// For all owners, the cached count equals the cardinality of the owner's
/// hero set, in every well-formed state — so after every create and transfer.
pub proof fn lemma_owner_count_matches_set(s: AIHeroesContract, account: u64)
    requires
        s.wf(),
    ensures
        s.user_count(account) == s.user_set(account).len(),
{
    if s.user_heroes@.contains_key(account) {
        assert(s.user_heroes@[account].wf());
    } else {
        assert(s.user_set(account) =~= Set::<u64>::empty());
    }
}

/// After a level-up the leftover experience is below the new threshold,
/// provided the hero did not hold more than one level's surplus beforehand:
/// from `experience < (2 level + 1) * 100`, consuming `level * 100` and
/// advancing one level leaves `experience < level' * 100`.
pub proof fn lemma_experience_below_threshold(experience: u64, level: u32)
    requires
        1 <= level,
        experience >= level * EXPERIENCE_PER_LEVEL,
        experience < (2 * level + 1) * EXPERIENCE_PER_LEVEL,
    ensures
        experience - level * EXPERIENCE_PER_LEVEL < (level + 1) * EXPERIENCE_PER_LEVEL,
{
    assert((2 * level + 1) * EXPERIENCE_PER_LEVEL == level * EXPERIENCE_PER_LEVEL + (level + 1)
        * EXPERIENCE_PER_LEVEL) by (nonlinear_arith);
}

/// Replacing a hero record without changing its identifier or owner keeps the
/// registry coherent.
pub(crate) proof fn lemma_registry_update_same_owner(
    heroes: Map<u64, Hero>,
    owners: Map<u64, OwnerEntry>,
    hero_count: u64,
    id: u64,
    h: Hero,
)
    requires
        AIHeroesContract::registry_ok(heroes, owners, hero_count),
        heroes.contains_key(id),
        h.wf(),
        h.id == id,
        h.owner == heroes[id].owner,
    ensures
        AIHeroesContract::registry_ok(heroes.insert(id, h), owners, hero_count),
{
    let heroes2 = heroes.insert(id, h);
    assert forall|id2: u64| heroes2.contains_key(id2) implies owners.contains_key(
        (#[trigger] heroes2[id2]).owner,
    ) && owners[heroes2[id2].owner].ids@.contains(id2) by {
        assert(heroes.contains_key(id2));
        assert(heroes2[id2].owner == heroes[id2].owner);
    }
}

/// Minting a fresh hero and inserting it into its owner's entry keeps the
/// registry coherent.
proof fn lemma_registry_create(
    heroes: Map<u64, Hero>,
    owners: Map<u64, OwnerEntry>,
    hero_count: u64,
    id: u64,
    h: Hero,
    entry: OwnerEntry,
)
    requires
        AIHeroesContract::registry_ok(heroes, owners, hero_count),
        id == hero_count + 1,
        h.wf(),
        h.id == id,
        entry.wf(),
        entry.ids@ == (if owners.contains_key(h.owner) {
            owners[h.owner].ids@
        } else {
            Set::<u64>::empty()
        }).insert(id),
    ensures
        AIHeroesContract::registry_ok(heroes.insert(id, h), owners.insert(h.owner, entry), id),
{
    let heroes2 = heroes.insert(id, h);
    let owners2 = owners.insert(h.owner, entry);
    assert(!heroes.contains_key(id)) by {
        if heroes.contains_key(id) {
            assert(heroes[id].id == id && id <= hero_count);
        }
    }
    assert forall|id2: u64| heroes2.contains_key(id2) implies ((#[trigger] heroes2[id2]).wf()
        && heroes2[id2].id == id2 && 1 <= id2 <= id) by {
        if id2 != id {
            assert(heroes.contains_key(id2));
        }
    }
    assert forall|id2: u64| heroes2.contains_key(id2) implies owners2.contains_key(
        (#[trigger] heroes2[id2]).owner,
    ) && owners2[heroes2[id2].owner].ids@.contains(id2) by {
        if id2 != id {
            assert(heroes.contains_key(id2));
            if heroes[id2].owner == h.owner {
                assert(entry.ids@.contains(id2));
            }
        }
    }
    assert forall|o: u64, id2: u64|
        owners2.contains_key(o) && #[trigger] owners2[o].ids@.contains(id2) implies
        heroes2.contains_key(id2) && heroes2[id2].owner == o by {
        if o == h.owner {
            if id2 != id {
                assert(owners.contains_key(o) && owners[o].ids@.contains(id2));
                assert(heroes.contains_key(id2));
            }
        } else {
            assert(owners.contains_key(o) && owners[o].ids@.contains(id2));
            assert(heroes.contains_key(id2));
            assert(heroes[id2].owner == o);
            assert(id2 != id);
        }
    }
}

/// Moving a hero from one owner's entry to another's, updating the hero's
/// owner field, keeps the registry coherent.
proof fn lemma_registry_transfer(
    heroes: Map<u64, Hero>,
    owners: Map<u64, OwnerEntry>,
    hero_count: u64,
    id: u64,
    h: Hero,
    from: u64,
    to: u64,
    entry_from: OwnerEntry,
    entry_to: OwnerEntry,
)
    requires
        AIHeroesContract::registry_ok(heroes, owners, hero_count),
        heroes.contains_key(id),
        heroes[id].owner == from,
        from != to,
        h.wf(),
        h.id == id,
        h.owner == to,
        owners.contains_key(from),
        entry_from.wf(),
        entry_from.ids@ == owners[from].ids@.remove(id),
        entry_to.wf(),
        entry_to.ids@ == (if owners.contains_key(to) {
            owners[to].ids@
        } else {
            Set::<u64>::empty()
        }).insert(id),
    ensures
        AIHeroesContract::registry_ok(
            heroes.insert(id, h),
            owners.insert(from, entry_from).insert(to, entry_to),
            hero_count,
        ),
{
    let heroes2 = heroes.insert(id, h);
    let owners2 = owners.insert(from, entry_from).insert(to, entry_to);
    assert forall|id2: u64| heroes2.contains_key(id2) implies owners2.contains_key(
        (#[trigger] heroes2[id2]).owner,
    ) && owners2[heroes2[id2].owner].ids@.contains(id2) by {
        if id2 == id {
            assert(entry_to.ids@.contains(id));
        } else {
            assert(heroes.contains_key(id2));
            let o = heroes[id2].owner;
            assert(owners.contains_key(o) && owners[o].ids@.contains(id2));
            if o == from {
                assert(entry_from.ids@.contains(id2));
            } else if o == to {
                assert(entry_to.ids@.contains(id2));
            }
        }
    }
    assert forall|o: u64, id2: u64|
        owners2.contains_key(o) && #[trigger] owners2[o].ids@.contains(id2) implies
        heroes2.contains_key(id2) && heroes2[id2].owner == o by {
        if o == to {
            if id2 == id {
            } else {
                assert(owners.contains_key(to) && owners[to].ids@.contains(id2));
                assert(heroes[id2].owner == to);
            }
        } else if o == from {
            assert(owners[from].ids@.contains(id2));
            assert(id2 != id);
            assert(heroes[id2].owner == from);
        } else {
            assert(owners.contains_key(o) && owners[o].ids@.contains(id2));
            assert(heroes[id2].owner == o);
            assert(id2 != id) by {
                if id2 == id {
                    assert(heroes[id].owner == from);
                }
            }
        }
    }
}


/// The hero after one level-up: the threshold is consumed, the level advances
/// by one (saturating), and the class's growth deltas apply.
pub open spec fn spec_level_up(h: Hero) -> Hero {
    Hero {
        experience: (h.experience - h.level * EXPERIENCE_PER_LEVEL) as u64,
        level: sadd32(h.level, 1),
        stats: spec_add_stats(h.stats, spec_growth_delta(h.class)),
        ..h
    }
}

/// The rarity after the combined evolve operation, judged on the level after
/// its five-level bonus.
pub open spec fn spec_evolve_rarity(level_after: u32, r: Rarity) -> Rarity {
    if level_after >= 50 && r == Rarity::Common {
        Rarity::Rare
    } else if level_after >= 100 && r == Rarity::Rare {
        Rarity::Epic
    } else if level_after >= 200 && r == Rarity::Epic {
        Rarity::Legendary
    } else {
        r
    }
}

/// The hero after the combined evolve operation: five bonus levels, a flat
/// stat bonus, experience reset, a possible rarity step and a fresh evolution
/// stamp.
pub open spec fn spec_evolve(h: Hero, now: u64) -> Hero {
    Hero {
        level: sadd32(h.level, 5),
        experience: 0,
        stats: spec_add_stats(h.stats, spec_evolve_delta()),
        rarity: spec_evolve_rarity(sadd32(h.level, 5), h.rarity),
        last_evolution: now,
        ..h
    }
}

/// The hero after an authorized battle-result callback.
pub open spec fn spec_battle_update(h: Hero, won: bool, exp_gained: u64) -> Hero {
    Hero {
        battle_count: sadd32(h.battle_count, 1),
        win_count: if won {
            sadd32(h.win_count, 1)
        } else {
            h.win_count
        },
        experience: sadd64(h.experience, exp_gained),
        ..h
    }
}

/// The equipment with the item placed into the numbered slot.
pub open spec fn spec_equip(e: Equipment, item_id: u64, slot: u32) -> Equipment {
    if slot == 0 {
        Equipment { weapon: Some(item_id), ..e }
    } else if slot == 1 {
        Equipment { armor: Some(item_id), ..e }
    } else if slot == 2 {
        Equipment { helmet: Some(item_id), ..e }
    } else if slot == 3 {
        Equipment { boots: Some(item_id), ..e }
    } else {
        Equipment { accessory: Some(item_id), ..e }
    }
}

impl AIHeroesContract {
    /// The error a hero-creation request fails with, if any: checked in this
    /// order, a paused contract, an insufficient payment, the per-account
    /// quota, and an exhausted identifier space.
    pub open spec fn spec_create_hero_err(
        self,
        caller: u64,
        payment: u128,
    ) -> Option<GameError> {
        if self.paused {
            Some(GameError::Paused)
        } else if payment < HERO_CREATION_FEE {
            Some(GameError::Underpaid)
        } else if self.user_count(caller) >= MAX_HEROES_PER_ACCOUNT {
            Some(GameError::QuotaExceeded)
        } else if self.hero_count == u64::MAX {
            Some(GameError::QuotaExceeded)
        } else if self.revenue.spec_total() + payment > u128::MAX {
            Some(GameError::QuotaExceeded)
        } else {
            None
        }
    }

    /// The cached hero count of an account.
    pub fn get_user_hero_count(&self, user: u64) -> (r: u32)
        requires
            self.wf(),
        ensures
            r == self.user_count(user),
    {
        match self.user_heroes.get(user) {
            Some(entry) => entry.count,
            None => 0,
        }
    }


    /// Stores a freshly minted hero and inserts it into its owner's registry
    /// entry, adjusting the cached count; nothing else changes.
    pub(crate) fn register_new_hero(&mut self, hero: Hero)
        requires
            old(self).wf(),
            hero.wf(),
            hero.id == old(self).hero_count + 1,
            old(self).hero_count < u64::MAX,
            old(self).user_count(hero.owner) < u32::MAX,
        ensures
            final(self).wf(),
            final(self).hero_count == old(self).hero_count + 1,
            final(self).heroes@ == old(self).heroes@.insert(hero.id, hero),
            final(self).user_set(hero.owner) == old(self).user_set(hero.owner).insert(hero.id),
            final(self).user_count(hero.owner) == old(self).user_count(hero.owner) + 1,
            forall|o: u64|
                o != hero.owner ==> final(self).user_set(o) == old(self).user_set(o) && final(self).user_count(o) == old(self).user_count(o),
            Self::same_admin(*old(self), *final(self)),
            Self::same_requests(*old(self), *final(self)),
            final(self).analytics == old(self).analytics,
            final(self).revenue == old(self).revenue,
            final(self).events == old(self).events,
    {
        let ghost gh = hero;
        let id = hero.id;
        let owner = hero.owner;
        self.hero_count = self.hero_count + 1;
        self.heroes.insert(id, hero);
        proof {
            // the fresh identifier cannot already be registered to any owner
            if old(self).user_heroes@.contains_key(owner) && old(self).user_heroes@[owner].ids@.contains(id) {
                assert(old(self).heroes@.contains_key(id));
                assert(old(self).heroes@[id].id == id && id <= old(self).hero_count);
            }
        }
        let mut entry = if self.user_heroes.contains(owner) {
            self.user_heroes.take(owner)
        } else {
            OwnerEntry::new()
        };
        proof {
            entry.ids.lemma_finite();
        }
        entry.ids.insert(id);
        entry.count = entry.count + 1;
        self.user_heroes.insert(owner, entry);
        proof {
            let entry2 = self.user_heroes@[owner];
            assert(self.user_heroes@ =~= old(self).user_heroes@.insert(owner, entry2));
            lemma_registry_create(
                old(self).heroes@,
                old(self).user_heroes@,
                old(self).hero_count,
                id,
                gh,
                entry2,
            );
        }
    }

    /// Creates a hero for the caller from the class's base-stat template, with
    /// default traits, charging the creation fee. Quota and payment are
    /// validated before any state is written; on success the new identifier is
    /// `hero_count + 1`, the hero joins the caller's registry entry, the fee
    /// is added to the `hero_creation` category, and a fee notification and a
    /// creation notification are recorded.
    pub fn create_hero(
        &mut self,
        caller: u64,
        payment: u128,
        now: u64,
        hero_class: HeroClass,
        name: Vec<u8>,
    ) -> (r: Result<u64, GameError>)
        requires
            old(self).wf(),
            caller != 0,
            name@.len() <= 32,
        ensures
            final(self).wf(),
            match r {
                Err(e) => Some(e) == old(self).spec_create_hero_err(caller, payment) && *final(self)
                    == *old(self),
                Ok(id) => {
                    let h = final(self).heroes@[id];
                    &&& old(self).spec_create_hero_err(caller, payment) is None
                    &&& id == old(self).hero_count + 1
                    &&& final(self).hero_count == id
                    &&& final(self).heroes@ == old(self).heroes@.insert(id, h)
                    &&& h.id == id
                    &&& h.owner == caller
                    &&& h.name == name
                    &&& h.class == hero_class
                    &&& h.level == 1
                    &&& h.experience == 0
                    &&& h.stats == crate::stat_model::spec_base_stats(hero_class)
                    &&& h.rarity == Rarity::Common
                    &&& h.battle_count == 0
                    &&& h.win_count == 0
                    &&& h.creation_timestamp == now
                    &&& h.last_evolution == now
                    &&& h.special_abilities@ =~= Seq::<u32>::empty()
                    &&& h.ai_traits.personality@ == spec_default_personality()
                    &&& h.ai_traits.battle_style == BattleStyle::Balanced
                    &&& h.ai_traits.adaptation_rate == 50
                    &&& h.ai_traits.learning_factor == 50
                    &&& h.ai_traits.ai_seed == now.wrapping_add(id)
                    &&& final(self).user_set(caller) == old(self).user_set(caller).insert(id)
                    &&& final(self).user_count(caller) == old(self).user_count(caller) + 1
                    &&& forall|o: u64|
                        o != caller ==> final(self).user_set(o) == old(self).user_set(o) && final(self).user_count(o) == old(self).user_count(o)
                    &&& final(self).revenue.spec_total() == old(self).revenue.spec_total() + payment
                    &&& final(self).revenue@ == old(self).revenue@.insert(
                        "hero_creation"@,
                        (old(self).revenue.spec_by_category("hero_creation"@) + payment) as u128,
                    )
                    &&& final(self).events@.len() == old(self).events@.len() + 2
                    &&& is_fee_collected(
                        final(self).events@[old(self).events@.len() as int],
                        "hero_creation"@,
                        payment,
                        caller,
                    )
                    &&& final(self).events@.last() == (Notification::HeroCreated {
                        hero_id: id,
                        owner: caller,
                        class: hero_class,
                        ai_generated: false,
                    })
                    &&& final(self).events@.take(old(self).events@.len() as int) == old(self).events@
                },
            },
            Self::same_admin(*old(self), *final(self)),
            Self::same_requests(*old(self), *final(self)),
            final(self).analytics == old(self).analytics,
    {
        if self.paused {
            return Err(GameError::Paused);
        }
        if payment < HERO_CREATION_FEE {
            return Err(GameError::Underpaid);
        }
        let current_count = self.get_user_hero_count(caller);
        if current_count >= MAX_HEROES_PER_ACCOUNT {
            return Err(GameError::QuotaExceeded);
        }
        if self.hero_count == u64::MAX {
            return Err(GameError::QuotaExceeded);
        }
        if self.revenue.total() > u128::MAX - payment {
            return Err(GameError::QuotaExceeded);
        }

        let hero_id = self.hero_count + 1;
        let stats = generate_basic_stats(&hero_class);
        let ai_traits = AITraits {
            personality: default_personality(),
            battle_style: BattleStyle::Balanced,
            adaptation_rate: 50,
            learning_factor: 50,
            ai_seed: now.wrapping_add(hero_id),
        };
        let hero = Hero {
            id: hero_id,
            owner: caller,
            name,
            class: hero_class,
            level: 1,
            experience: 0,
            stats,
            equipment: Equipment::empty(),
            rarity: Rarity::Common,
            battle_count: 0,
            win_count: 0,
            creation_timestamp: now,
            last_evolution: now,
            special_abilities: Vec::new(),
            ai_traits,
        };
        self.register_new_hero(hero);
        self.add_revenue(caller, String::from_str("hero_creation"), payment);
        self.events.push(
            Notification::HeroCreated {
                hero_id,
                owner: caller,
                class: hero_class,
                ai_generated: false,
            },
        );
        Ok(hero_id)
    }

    /// The hero stored under the identifier, if any.
    pub fn get_hero(&self, hero_id: u64) -> (r: Option<&Hero>)
        requires
            self.wf(),
        ensures
            match r {
                Some(h) => self.heroes@.contains_key(hero_id) && *h == self.heroes@[hero_id],
                None => !self.heroes@.contains_key(hero_id),
            },
    {
        self.heroes.get(hero_id)
    }

    /// The identifiers of the heroes an account controls, in the order they
    /// entered the registry.
    pub fn get_user_heroes(&self, user: u64) -> (r: Vec<u64>)
        requires
            self.wf(),
        ensures
            r@.to_set() == self.user_set(user),
            r@.no_duplicates(),
            r@.len() == self.user_count(user),
    {
        match self.user_heroes.get(user) {
            Some(entry) => {
                let v = entry.ids.to_vec();
                proof {
                    v@.unique_seq_to_set();
                    assert(self.user_heroes@[user].wf());
                }
                v
            },
            None => {
                proof {
                    assert(Seq::<u64>::empty().to_set() =~= Set::<u64>::empty());
                }
                Vec::new()
            },
        }
    }

    /// The hero's level and six base stats.
    pub fn get_hero_stats(&self, hero_id: u64) -> (r: Option<(u32, HeroStats)>)
        requires
            self.wf(),
        ensures
            match r {
                Some(p) => self.heroes@.contains_key(hero_id) && p.0 == self.heroes@[hero_id].level
                    && p.1 == self.heroes@[hero_id].stats,
                None => !self.heroes@.contains_key(hero_id),
            },
    {
        match self.heroes.get(hero_id) {
            Some(h) => Some((h.level, h.stats)),
            None => None,
        }
    }

    /// The hero's battle and win counters.
    pub fn get_hero_battle_stats(&self, hero_id: u64) -> (r: Option<(u32, u32)>)
        requires
            self.wf(),
        ensures
            match r {
                Some(p) => self.heroes@.contains_key(hero_id) && p.0 == self.heroes@[hero_id].battle_count && p.1 == self.heroes@[hero_id].win_count,
                None => !self.heroes@.contains_key(hero_id),
            },
    {
        match self.heroes.get(hero_id) {
            Some(h) => Some((h.battle_count, h.win_count)),
            None => None,
        }
    }

    /// The identifiers of all heroes of the given rarity, in ascending order.
    pub fn get_heroes_by_rarity(&self, rarity: Rarity) -> (r: Vec<u64>)
        requires
            self.wf(),
        ensures
            forall|i: int, j: int| 0 <= i < j < r@.len() ==> r@[i] < r@[j],
            forall|id: u64|
                #[trigger] r@.contains(id) <==> (self.heroes@.contains_key(id) && self.heroes@[id].rarity == rarity),
    {
        let mut result: Vec<u64> = Vec::new();
        let total = self.hero_count;
        let mut i: u64 = 0;
        while i < total
            invariant
                self.wf(),
                total == self.hero_count,
                i <= total,
                forall|p: int, q: int| 0 <= p < q < result@.len() ==> result@[p] < result@[q],
                forall|k: int| 0 <= k < result@.len() ==> 1 <= #[trigger] result@[k] <= i,
                forall|h: u64|
                    #[trigger] result@.contains(h) <==> (1 <= h <= i && self.heroes@.contains_key(h)
                        && self.heroes@[h].rarity == rarity),
            decreases total - i,
        {
            let id = i + 1;
            let present = match self.heroes.get(id) {
                Some(h) => h.rarity.rank() == rarity.rank(),
                None => false,
            };
            if present {
                let ghost pre = result@;
                result.push(id);
                proof {
                    assert(self.heroes@[id].rarity == rarity) by {
                        let a = self.heroes@[id].rarity;
                        if a != rarity {
                            assert(a.spec_rank() != rarity.spec_rank());
                        }
                    }
                    assert forall|h: u64| #[trigger] result@.contains(h) implies (1 <= h <= id
                        && self.heroes@.contains_key(h) && self.heroes@[h].rarity == rarity) by {
                        let k = choose|k: int| 0 <= k < result@.len() && result@[k] == h;
                        if k < result@.len() - 1 {
                            assert(pre[k] == h);
                            assert(pre.contains(h));
                        }
                    }
                    assert forall|h: u64| (1 <= h <= id && self.heroes@.contains_key(h)
                        && self.heroes@[h].rarity == rarity) implies #[trigger] result@.contains(
                        h,
                    ) by {
                        if h <= i {
                            assert(pre.contains(h));
                            let k = choose|k: int| 0 <= k < pre.len() && pre[k] == h;
                            assert(result@[k] == h);
                        } else {
                            assert(result@.last() == id);
                        }
                    }
                }
            } else {
                proof {
                    assert forall|h: u64| #[trigger] result@.contains(h) implies (1 <= h <= id
                        && self.heroes@.contains_key(h) && self.heroes@[h].rarity == rarity) by {}
                    assert forall|h: u64| (1 <= h <= id && self.heroes@.contains_key(h)
                        && self.heroes@[h].rarity == rarity) implies #[trigger] result@.contains(
                        h,
                    ) by {
                        if h == id {
                            assert(false);
                        }
                    }
                }
            }
            i = id;
        }
        proof {
            assert forall|h: u64| (self.heroes@.contains_key(h) && self.heroes@[h].rarity
                == rarity) implies #[trigger] result@.contains(h) by {
                assert(self.heroes@[h].wf());
            }
        }
        result
    }


    /// The error a transfer fails with, if any: a paused contract, an unknown
    /// hero, a caller who is not the owner, the zero recipient, a transfer to
    /// oneself, or a recipient whose cached count cannot grow.
    pub open spec fn spec_transfer_err(self, caller: u64, hero_id: u64, to: u64) -> Option<
        GameError,
    > {
        if self.paused {
            Some(GameError::Paused)
        } else if !self.heroes@.contains_key(hero_id) {
            Some(GameError::HeroNotFound)
        } else if self.heroes@[hero_id].owner != caller {
            Some(GameError::NotOwner)
        } else if to == 0 {
            Some(GameError::InvalidRecipient)
        } else if caller == to {
            Some(GameError::SelfTransfer)
        } else if self.user_count(to) == u32::MAX {
            Some(GameError::QuotaExceeded)
        } else {
            None
        }
    }

    /// Transfers a hero to another account: the identifier atomically leaves
    /// the sender's set and joins the recipient's, both cached counts moving
    /// with the sets.
    pub fn transfer_hero(&mut self, caller: u64, hero_id: u64, to: u64) -> (r: Result<
        (),
        GameError,
    >)
        requires
            old(self).wf(),
        ensures
            final(self).wf(),
            match r {
                Err(e) => Some(e) == old(self).spec_transfer_err(caller, hero_id, to) && *final(self) == *old(self),
                Ok(()) => {
                    &&& old(self).spec_transfer_err(caller, hero_id, to) is None
                    &&& final(self).heroes@ == old(self).heroes@.insert(
                        hero_id,
                        (Hero { owner: to, ..old(self).heroes@[hero_id] }),
                    )
                    &&& final(self).user_set(caller) == old(self).user_set(caller).remove(hero_id)
                    &&& final(self).user_count(caller) == old(self).user_count(caller) - 1
                    &&& final(self).user_set(to) == old(self).user_set(to).insert(hero_id)
                    &&& final(self).user_count(to) == old(self).user_count(to) + 1
                    &&& forall|o: u64|
                        o != caller && o != to ==> final(self).user_set(o) == old(self).user_set(o)
                            && final(self).user_count(o) == old(self).user_count(o)
                    &&& final(self).hero_count == old(self).hero_count
                    &&& final(self).events@ == old(self).events@.push(
                        Notification::HeroTransferred { hero_id, from: caller, to },
                    )
                },
            },
            Self::same_admin(*old(self), *final(self)),
            Self::same_requests(*old(self), *final(self)),
            final(self).analytics == old(self).analytics,
            final(self).revenue == old(self).revenue,
    {
        if self.paused {
            return Err(GameError::Paused);
        }
        let owner_of_hero = match self.heroes.get(hero_id) {
            None => {
                return Err(GameError::HeroNotFound);
            },
            Some(h) => h.owner,
        };
        if owner_of_hero != caller {
            return Err(GameError::NotOwner);
        }
        if to == 0 {
            return Err(GameError::InvalidRecipient);
        }
        if caller == to {
            return Err(GameError::SelfTransfer);
        }
        if self.get_user_hero_count(to) == u32::MAX {
            return Err(GameError::QuotaExceeded);
        }

        let mut hero = self.heroes.take(hero_id);
        hero.owner = to;
        let ghost gh = hero;
        self.heroes.insert(hero_id, hero);

        proof {
            // the sender holds a registry entry containing this hero
            assert(old(self).user_heroes@.contains_key(caller));
            assert(old(self).user_heroes@[caller].ids@.contains(hero_id));
        }
        let mut entry_from = self.user_heroes.take(caller);
        proof {
            entry_from.ids.lemma_finite();
        }
        entry_from.ids.remove(hero_id);
        entry_from.count = entry_from.count - 1;
        let ghost g_entry_from = entry_from;
        self.user_heroes.insert(caller, entry_from);

        let mut entry_to = if self.user_heroes.contains(to) {
            self.user_heroes.take(to)
        } else {
            OwnerEntry::new()
        };
        proof {
            entry_to.ids.lemma_finite();
            // the hero cannot already sit in the recipient's set
            if old(self).user_heroes@.contains_key(to) && old(self).user_heroes@[to].ids@.contains(
                hero_id,
            ) {
                assert(old(self).heroes@[hero_id].owner == to);
            }
        }
        entry_to.ids.insert(hero_id);
        entry_to.count = entry_to.count + 1;
        let ghost g_entry_to = entry_to;
        self.user_heroes.insert(to, entry_to);

        proof {
            assert(self.user_heroes@ =~= old(self).user_heroes@.insert(caller, g_entry_from).insert(
                to,
                g_entry_to,
            ));
            lemma_registry_transfer(
                old(self).heroes@,
                old(self).user_heroes@,
                old(self).hero_count,
                hero_id,
                gh,
                caller,
                to,
                g_entry_from,
                g_entry_to,
            );
        }
        self.events.push(Notification::HeroTransferred { hero_id, from: caller, to });
        Ok(())
    }

    /// The error a level-up fails with, if any.
    pub open spec fn spec_level_up_err(self, caller: u64, hero_id: u64) -> Option<GameError> {
        if self.paused {
            Some(GameError::Paused)
        } else if !self.heroes@.contains_key(hero_id) {
            Some(GameError::HeroNotFound)
        } else if self.heroes@[hero_id].owner != caller {
            Some(GameError::NotOwner)
        } else if self.heroes@[hero_id].experience < self.heroes@[hero_id].level
            * EXPERIENCE_PER_LEVEL {
            Some(GameError::InsufficientExperience)
        } else {
            None
        }
    }

    /// Levels the caller's hero once: the required experience — the current
    /// level times one hundred — is fully consumed, the level advances by one
    /// and the class growth deltas apply. When the hero held less than one
    /// further level's worth of surplus, the leftover experience is below the
    /// new threshold.
    pub fn level_up_hero(&mut self, caller: u64, hero_id: u64) -> (r: Result<(), GameError>)
        requires
            old(self).wf(),
        ensures
            final(self).wf(),
            match r {
                Err(e) => Some(e) == old(self).spec_level_up_err(caller, hero_id) && *final(self) == *old(self),
                Ok(()) => {
                    let h0 = old(self).heroes@[hero_id];
                    let h1 = spec_level_up(h0);
                    &&& old(self).spec_level_up_err(caller, hero_id) is None
                    &&& final(self).heroes@ == old(self).heroes@.insert(hero_id, h1)
                    &&& final(self).events@ == old(self).events@.push(
                        Notification::HeroLeveledUp { hero_id, new_level: h1.level },
                    )
                    &&& ((h0.experience < (2 * h0.level + 1) * EXPERIENCE_PER_LEVEL && h0.level
                        < u32::MAX) ==> h1.experience < h1.level * EXPERIENCE_PER_LEVEL)
                },
            },
            Self::same_admin(*old(self), *final(self)),
            Self::same_requests(*old(self), *final(self)),
            final(self).analytics == old(self).analytics,
            final(self).revenue == old(self).revenue,
            final(self).hero_count == old(self).hero_count,
            final(self).user_heroes == old(self).user_heroes,
    {
        if self.paused {
            return Err(GameError::Paused);
        }
        let (level, experience) = match self.heroes.get(hero_id) {
            None => {
                return Err(GameError::HeroNotFound);
            },
            Some(h) => {
                if h.owner != caller {
                    return Err(GameError::NotOwner);
                }
                (h.level, h.experience)
            },
        };
        let exp_required = (level as u64) * EXPERIENCE_PER_LEVEL;
        if experience < exp_required {
            return Err(GameError::InsufficientExperience);
        }

        let mut hero = self.heroes.take(hero_id);
        hero.experience = hero.experience - exp_required;
        hero.level = sat_add_u32(hero.level, 1);
        hero.stats = add_stats(hero.stats, growth_delta(&hero.class));
        let new_level = hero.level;
        let ghost gh = hero;
        self.heroes.insert(hero_id, hero);
        proof {
            lemma_registry_update_same_owner(
                old(self).heroes@,
                old(self).user_heroes@,
                old(self).hero_count,
                hero_id,
                gh,
            );
            let h0 = old(self).heroes@[hero_id];
            if h0.experience < (2 * h0.level + 1) * EXPERIENCE_PER_LEVEL && h0.level < u32::MAX {
                lemma_experience_below_threshold(h0.experience, h0.level);
            }
        }
        self.events.push(Notification::HeroLeveledUp { hero_id, new_level });
        Ok(())
    }

    /// The error the combined evolve operation fails with, if any.
    pub open spec fn spec_evolve_hero_err(self, caller: u64, payment: u128, hero_id: u64) -> Option<
        GameError,
    > {
        if self.paused {
            Some(GameError::Paused)
        } else if payment < HERO_EVOLUTION_FEE {
            Some(GameError::Underpaid)
        } else if !self.heroes@.contains_key(hero_id) {
            Some(GameError::HeroNotFound)
        } else if self.heroes@[hero_id].owner != caller {
            Some(GameError::NotOwner)
        } else if self.heroes@[hero_id].level < 10 {
            Some(GameError::GateNotMet)
        } else if self.heroes@[hero_id].experience < 1000 {
            Some(GameError::InsufficientExperience)
        } else if self.revenue.spec_total() + payment > u128::MAX {
            Some(GameError::QuotaExceeded)
        } else {
            None
        }
    }

    /// The combined evolve operation: for a fee of half the creation fee, a
    /// hero of level ten or above holding at least a thousand experience gains
    /// five levels and a flat stat bonus, loses all experience, may step one
    /// rarity tier at fixed level thresholds, and is stamped with the
    /// evolution time. Rarity never moves backward.
    pub fn evolve_hero(&mut self, caller: u64, payment: u128, now: u64, hero_id: u64) -> (r: Result<
        (),
        GameError,
    >)
        requires
            old(self).wf(),
        ensures
            final(self).wf(),
            match r {
                Err(e) => Some(e) == old(self).spec_evolve_hero_err(caller, payment, hero_id)
                    && *final(self) == *old(self),
                Ok(()) => {
                    let h0 = old(self).heroes@[hero_id];
                    let h1 = spec_evolve(h0, now);
                    &&& old(self).spec_evolve_hero_err(caller, payment, hero_id) is None
                    &&& final(self).heroes@ == old(self).heroes@.insert(hero_id, h1)
                    &&& h1.rarity.spec_rank() >= h0.rarity.spec_rank()
                    &&& final(self).revenue.spec_total() == old(self).revenue.spec_total() + payment
                    &&& final(self).revenue@ == old(self).revenue@.insert(
                        "hero_evolution"@,
                        (old(self).revenue.spec_by_category("hero_evolution"@) + payment) as u128,
                    )
                    &&& final(self).events@.len() == old(self).events@.len() + 2
                    &&& is_fee_collected(
                        final(self).events@[old(self).events@.len() as int],
                        "hero_evolution"@,
                        payment,
                        caller,
                    )
                    &&& final(self).events@.last() == (Notification::HeroEvolved {
                        hero_id,
                        new_level: h1.level,
                        rarity: h1.rarity,
                    })
                    &&& final(self).events@.take(old(self).events@.len() as int) == old(self).events@
                },
            },
            Self::same_admin(*old(self), *final(self)),
            Self::same_requests(*old(self), *final(self)),
            final(self).analytics == old(self).analytics,
            final(self).hero_count == old(self).hero_count,
            final(self).user_heroes == old(self).user_heroes,
    {
        if self.paused {
            return Err(GameError::Paused);
        }
        if payment < HERO_EVOLUTION_FEE {
            return Err(GameError::Underpaid);
        }
        let (level, experience) = match self.heroes.get(hero_id) {
            None => {
                return Err(GameError::HeroNotFound);
            },
            Some(h) => {
                if h.owner != caller {
                    return Err(GameError::NotOwner);
                }
                (h.level, h.experience)
            },
        };
        if level < 10 {
            return Err(GameError::GateNotMet);
        }
        if experience < 1000 {
            return Err(GameError::InsufficientExperience);
        }
        if self.revenue.total() > u128::MAX - payment {
            return Err(GameError::QuotaExceeded);
        }

        let mut hero = self.heroes.take(hero_id);
        hero.level = sat_add_u32(hero.level, 5);
        hero.stats = add_stats(hero.stats, evolve_delta());
        hero.experience = 0;
        if hero.level >= 50 && matches!(hero.rarity, Rarity::Common) {
            hero.rarity = Rarity::Rare;
        } else if hero.level >= 100 && matches!(hero.rarity, Rarity::Rare) {
            hero.rarity = Rarity::Epic;
        } else if hero.level >= 200 && matches!(hero.rarity, Rarity::Epic) {
            hero.rarity = Rarity::Legendary;
        }
        hero.last_evolution = now;
        let new_level = hero.level;
        let new_rarity = hero.rarity;
        let ghost gh = hero;
        self.heroes.insert(hero_id, hero);
        proof {
            lemma_registry_update_same_owner(
                old(self).heroes@,
                old(self).user_heroes@,
                old(self).hero_count,
                hero_id,
                gh,
            );
        }
        self.add_revenue(caller, String::from_str("hero_evolution"), payment);
        self.events.push(Notification::HeroEvolved { hero_id, new_level, rarity: new_rarity });
        Ok(())
    }

    /// The error a battle-result callback fails with, if any.
    pub open spec fn spec_update_battle_stats_err(self, caller: u64, hero_id: u64) -> Option<
        GameError,
    > {
        if self.paused {
            Some(GameError::Paused)
        } else if !(caller == self.owner || self.authorized_contracts@.contains(caller)) {
            Some(GameError::Unauthorized)
        } else if !self.heroes@.contains_key(hero_id) {
            Some(GameError::HeroNotFound)
        } else {
            None
        }
    }

    /// Records a battle result on the hero itself: one more battle fought, one
    /// more win when won, and the gained experience added. Only the contract
    /// owner or an allow-listed account may call this.
    pub fn update_battle_stats(
        &mut self,
        caller: u64,
        hero_id: u64,
        won: bool,
        exp_gained: u64,
    ) -> (r: Result<(), GameError>)
        requires
            old(self).wf(),
        ensures
            final(self).wf(),
            match r {
                Err(e) => Some(e) == old(self).spec_update_battle_stats_err(caller, hero_id)
                    && *final(self) == *old(self),
                Ok(()) => {
                    let h0 = old(self).heroes@[hero_id];
                    let h1 = spec_battle_update(h0, won, exp_gained);
                    &&& old(self).spec_update_battle_stats_err(caller, hero_id) is None
                    &&& final(self).heroes@ == old(self).heroes@.insert(hero_id, h1)
                    &&& final(self).events@ == old(self).events@.push(
                        Notification::BattleStatsUpdated { hero_id, won, exp_gained },
                    )
                },
            },
            Self::same_admin(*old(self), *final(self)),
            Self::same_requests(*old(self), *final(self)),
            final(self).analytics == old(self).analytics,
            final(self).revenue == old(self).revenue,
            final(self).hero_count == old(self).hero_count,
            final(self).user_heroes == old(self).user_heroes,
    {
        if self.paused {
            return Err(GameError::Paused);
        }
        if !self.is_authorized_caller(caller) {
            return Err(GameError::Unauthorized);
        }
        if !self.heroes.contains(hero_id) {
            return Err(GameError::HeroNotFound);
        }
        let mut hero = self.heroes.take(hero_id);
        hero.battle_count = sat_add_u32(hero.battle_count, 1);
        if won {
            hero.win_count = sat_add_u32(hero.win_count, 1);
        }
        hero.experience = sat_add_u64(hero.experience, exp_gained);
        let ghost gh = hero;
        self.heroes.insert(hero_id, hero);
        proof {
            lemma_registry_update_same_owner(
                old(self).heroes@,
                old(self).user_heroes@,
                old(self).hero_count,
                hero_id,
                gh,
            );
        }
        self.events.push(Notification::BattleStatsUpdated { hero_id, won, exp_gained });
        Ok(())
    }

    /// The error an equip request fails with, if any.
    pub open spec fn spec_equip_item_err(self, caller: u64, hero_id: u64, slot: u32) -> Option<
        GameError,
    > {
        if self.paused {
            Some(GameError::Paused)
        } else if !self.heroes@.contains_key(hero_id) {
            Some(GameError::HeroNotFound)
        } else if self.heroes@[hero_id].owner != caller {
            Some(GameError::NotOwner)
        } else if slot >= 5 {
            Some(GameError::GateNotMet)
        } else {
            None
        }
    }

    /// Places an item into one of the five numbered equipment slots of the
    /// caller's hero.
    pub fn equip_item(&mut self, caller: u64, hero_id: u64, item_id: u64, slot: u32) -> (r: Result<
        (),
        GameError,
    >)
        requires
            old(self).wf(),
        ensures
            final(self).wf(),
            match r {
                Err(e) => Some(e) == old(self).spec_equip_item_err(caller, hero_id, slot) && *final(self) == *old(self),
                Ok(()) => {
                    let h0 = old(self).heroes@[hero_id];
                    let h1 = Hero { equipment: spec_equip(h0.equipment, item_id, slot), ..h0 };
                    &&& old(self).spec_equip_item_err(caller, hero_id, slot) is None
                    &&& final(self).heroes@ == old(self).heroes@.insert(hero_id, h1)
                    &&& final(self).events@ == old(self).events@.push(
                        Notification::ItemEquipped { hero_id, item_id, slot },
                    )
                },
            },
            Self::same_admin(*old(self), *final(self)),
            Self::same_requests(*old(self), *final(self)),
            final(self).analytics == old(self).analytics,
            final(self).revenue == old(self).revenue,
            final(self).hero_count == old(self).hero_count,
            final(self).user_heroes == old(self).user_heroes,
    {
        if self.paused {
            return Err(GameError::Paused);
        }
        let owner_of_hero = match self.heroes.get(hero_id) {
            None => {
                return Err(GameError::HeroNotFound);
            },
            Some(h) => h.owner,
        };
        if owner_of_hero != caller {
            return Err(GameError::NotOwner);
        }
        if slot >= 5 {
            return Err(GameError::GateNotMet);
        }
        let mut hero = self.heroes.take(hero_id);
        if slot == 0 {
            hero.equipment.weapon = Some(item_id);
        } else if slot == 1 {
            hero.equipment.armor = Some(item_id);
        } else if slot == 2 {
            hero.equipment.helmet = Some(item_id);
        } else if slot == 3 {
            hero.equipment.boots = Some(item_id);
        } else {
            hero.equipment.accessory = Some(item_id);
        }
        let ghost gh = hero;
        self.heroes.insert(hero_id, hero);
        proof {
            lemma_registry_update_same_owner(
                old(self).heroes@,
                old(self).user_heroes@,
                old(self).hero_count,
                hero_id,
                gh,
            );
        }
        self.events.push(Notification::ItemEquipped { hero_id, item_id, slot });
        Ok(())
    }

    /// Whether the account may make battle-result and performance callbacks:
    /// the contract owner and allow-listed accounts.
    pub fn is_authorized_caller(&self, caller: u64) -> (r: bool)
        ensures
            r == (caller == self.owner || self.authorized_contracts@.contains(caller)),
    {
        caller == self.owner || self.authorized_contracts.contains(caller)
    }

    /// Allow-lists an account for battle callbacks; owner only.
    pub fn add_authorized_contract(&mut self, caller: u64, contract_address: u64) -> (r: Result<
        (),
        GameError,
    >)
        requires
            old(self).wf(),
        ensures
            final(self).wf(),
            r is Ok <==> caller == old(self).owner,
            r is Err ==> r->Err_0 == GameError::Unauthorized && *final(self) == *old(self),
            r is Ok ==> final(self).authorized_contracts@ == old(self).authorized_contracts@.insert(contract_address) && final(self).heroes == old(self).heroes && final(self).events == old(self).events,
    {
        if caller != self.owner {
            return Err(GameError::Unauthorized);
        }
        self.authorized_contracts.insert(contract_address);
        Ok(())
    }

    /// Removes an account from the allow-list; owner only.
    pub fn remove_authorized_contract(&mut self, caller: u64, contract_address: u64) -> (r: Result<
        (),
        GameError,
    >)
        requires
            old(self).wf(),
        ensures
            final(self).wf(),
            r is Ok <==> caller == old(self).owner,
            r is Err ==> r->Err_0 == GameError::Unauthorized && *final(self) == *old(self),
            r is Ok ==> final(self).authorized_contracts@ == old(self).authorized_contracts@.remove(contract_address) && final(self).heroes == old(self).heroes && final(self).events == old(self).events,
    {
        if caller != self.owner {
            return Err(GameError::Unauthorized);
        }
        self.authorized_contracts.remove(contract_address);
        Ok(())
    }
}


} // verus!
