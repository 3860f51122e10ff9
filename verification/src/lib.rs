//! Progression and telemetry core of a role-playing game: hero lifecycle
//! (creation, leveling, evolution, ability unlocking, ownership transfer) and
//! aggregation of gameplay telemetry (battles, transactions, revenue).
//!
//! The external execution host — payment settlement, caller identity, clock,
//! entropy, durable storage and event transport — stays outside this crate.
//! Every operation takes the host-supplied facts (caller account, paid amount,
//! current time, entropy tick) as plain arguments, keeps the whole game state
//! in memory, and records one notification per successful state transition for
//! the host to forward.

use vstd::prelude::*;

pub mod ai_generation;
pub mod analytics;
pub mod constants;
pub mod errors;
pub mod events;
pub mod evolution;
pub mod hero_management;
pub mod revenue;
pub mod stat_model;
pub mod storage;
pub mod types;
pub mod util;

use crate::analytics::Analytics;
use crate::errors::GameError;
use crate::events::Notification;
use crate::hero_management::OwnerEntry;
use crate::revenue::RevenueLedger;
use crate::storage::StrTable;
use crate::storage::Table;
use crate::storage::U64Set;
use crate::types::AIRequest;
use crate::types::Hero;
use vstd::string::StringExecFns;

verus! {

/// The whole game state, owned in memory; the host persists it between
/// operations and serializes the operations against it.
pub struct AIHeroesContract {
    /// Deploying account; the only account allowed to administrate.
    pub owner: u64,
    /// Global pause flag: mutating operations fail with `Paused` while set.
    pub paused: bool,
    /// The contract's own account, used as callback address for requests.
    pub sc_address: u64,
    /// Endpoint label of the external generation strategy.
    pub ai_endpoint: String,
    /// Free-form configuration entries.
    pub game_settings: StrTable<String>,
    /// Accounts allow-listed for battle-result callbacks.
    pub authorized_contracts: U64Set,
    /// Identifiers are assigned sequentially from one; this is the last one.
    pub hero_count: u64,
    /// Every minted hero, keyed by identifier; heroes are never deleted.
    pub heroes: Table<Hero>,
    /// The ownership registry: account to set of hero identifiers plus count.
    pub user_heroes: Table<OwnerEntry>,
    /// Last assigned generation-request identifier.
    pub ai_request_count: u64,
    /// Every generation request, keyed by identifier.
    pub ai_requests: Table<AIRequest>,
    /// Requests not yet answered by the generation strategy.
    pub pending_ai_requests: U64Set,
    /// Requests submitted per account.
    pub user_ai_requests: Table<U64Set>,
    /// Fee accounting by category with a grand total.
    pub revenue: RevenueLedger,
    /// Counters, running averages, daily buckets and rankings.
    pub analytics: Analytics,
    /// Notifications recorded for the external event layer, oldest first.
    pub events: Vec<Notification>,
}

impl AIHeroesContract {
    /// The heroes an account controls, as a set of identifiers.
    pub open spec fn user_set(self, account: u64) -> Set<u64> {
        if self.user_heroes@.contains_key(account) {
            self.user_heroes@[account].ids@
        } else {
            Set::empty()
        }
    }

    /// The cached per-account hero count.
    pub open spec fn user_count(self, account: u64) -> u32 {
        if self.user_heroes@.contains_key(account) {
            self.user_heroes@[account].count
        } else {
            0
        }
    }

    /// Global well-formedness: every container is internally consistent, every
    /// hero record is sound and registered under exactly its owner, and every
    /// registry entry points back at heroes owned by that account.
    pub open spec fn wf(self) -> bool {
        &&& self.owner != 0
        &&& self.heroes.wf()
        &&& self.user_heroes.wf()
        &&& self.game_settings.wf()
        &&& self.authorized_contracts.wf()
        &&& self.ai_requests.wf()
        &&& self.pending_ai_requests.wf()
        &&& self.user_ai_requests.wf()
        &&& forall|u: u64|
            self.user_ai_requests@.contains_key(u) ==> (#[trigger] self.user_ai_requests@[u]).wf()
        &&& self.revenue.wf()
        &&& self.analytics.wf()
        &&& Self::registry_ok(self.heroes@, self.user_heroes@, self.hero_count)
    }

    /// Coherence of hero storage and the ownership registry: hero records are
    /// sound with identifiers in range, every hero appears in exactly its
    /// owner's set, and every registered identifier belongs to a hero owned by
    /// that account; each cached count equals its set's cardinality.
    pub open spec fn registry_ok(
        heroes: Map<u64, Hero>,
        owners: Map<u64, OwnerEntry>,
        hero_count: u64,
    ) -> bool {
        &&& forall|id: u64|
            heroes.contains_key(id) ==> ((#[trigger] heroes[id]).wf() && heroes[id].id == id && 1
                <= id <= hero_count)
        &&& forall|o: u64| owners.contains_key(o) ==> (#[trigger] owners[o]).wf()
        &&& forall|id: u64|
            heroes.contains_key(id) ==> owners.contains_key((#[trigger] heroes[id]).owner)
                && owners[heroes[id].owner].ids@.contains(id)
        &&& forall|o: u64, id: u64|
            owners.contains_key(o) && #[trigger] owners[o].ids@.contains(id) ==> heroes.contains_key(
                id,
            ) && heroes[id].owner == o
    }

    /// Administrative configuration is unchanged.
    pub open spec fn same_admin(a: Self, b: Self) -> bool {
        &&& b.owner == a.owner
        &&& b.paused == a.paused
        &&& b.sc_address == a.sc_address
        &&& b.ai_endpoint == a.ai_endpoint
        &&& b.game_settings == a.game_settings
        &&& b.authorized_contracts == a.authorized_contracts
    }

    /// Hero storage and the ownership registry are unchanged.
    pub open spec fn same_heroes(a: Self, b: Self) -> bool {
        &&& b.hero_count == a.hero_count
        &&& b.heroes == a.heroes
        &&& b.user_heroes == a.user_heroes
    }

    /// Generation-request storage is unchanged.
    pub open spec fn same_requests(a: Self, b: Self) -> bool {
        &&& b.ai_request_count == a.ai_request_count
        &&& b.ai_requests == a.ai_requests
        &&& b.pending_ai_requests == a.pending_ai_requests
        &&& b.user_ai_requests == a.user_ai_requests
    }

    /// Creates the initial state: unpaused, no heroes, empty ledgers, with the
    /// deployer as administrating owner.
    pub fn init(deployer: u64, sc_address: u64) -> (c: Self)
        requires
            deployer != 0,
        ensures
            c.wf(),
            c.owner == deployer,
            !c.paused,
            c.sc_address == sc_address,
            c.hero_count == 0,
            c.heroes@ == Map::<u64, Hero>::empty(),
            c.user_heroes@ == Map::<u64, OwnerEntry>::empty(),
            c.ai_request_count == 0,
            c.revenue.spec_total() == 0,
            c.analytics.total_battles == 0,
            c.events@ == Seq::<Notification>::empty(),
            c.game_settings@.contains_key("max_heroes_per_user"@),
            c.game_settings@.contains_key("ai_generation_fee"@),
    {
        let mut settings: StrTable<String> = StrTable::new();
        settings.insert(String::from_str("max_heroes_per_user"), String::from_str("50"));
        settings.insert(String::from_str("ai_generation_fee"), String::from_str("1000000000000000000"));
        AIHeroesContract {
            owner: deployer,
            paused: false,
            sc_address,
            ai_endpoint: String::new(),
            game_settings: settings,
            authorized_contracts: U64Set::new(),
            hero_count: 0,
            heroes: Table::new(),
            user_heroes: Table::new(),
            ai_request_count: 0,
            ai_requests: Table::new(),
            pending_ai_requests: U64Set::new(),
            user_ai_requests: Table::new(),
            revenue: RevenueLedger::new(),
            analytics: Analytics::new(),
            events: Vec::new(),
        }
    }

    /// Fails with `Paused` exactly when the pause flag is set.
    pub fn require_not_paused(&self) -> (r: Result<(), GameError>)
        ensures
            r is Ok <==> !self.paused,
            r is Err ==> r->Err_0 == GameError::Paused,
    {
        if self.paused {
            Err(GameError::Paused)
        } else {
            Ok(())
        }
    }

    /// Sets or clears the global pause flag; owner only.
    pub fn set_paused(&mut self, caller: u64, paused: bool) -> (r: Result<(), GameError>)
        requires
            old(self).wf(),
        ensures
            final(self).wf(),
            r is Ok <==> caller == old(self).owner,
            r is Err ==> r->Err_0 == GameError::Unauthorized && *final(self) == *old(self),
            r is Ok ==> final(self).paused == paused && *final(self) == (AIHeroesContract {
                paused,
                ..*old(self)
            }),
    {
        if caller != self.owner {
            return Err(GameError::Unauthorized);
        }
        self.paused = paused;
        Ok(())
    }

    /// Sets the pause flag unconditionally; owner only.
    pub fn emergency_pause(&mut self, caller: u64) -> (r: Result<(), GameError>)
        requires
            old(self).wf(),
        ensures
            final(self).wf(),
            r is Ok <==> caller == old(self).owner,
            r is Err ==> r->Err_0 == GameError::Unauthorized && *final(self) == *old(self),
            r is Ok ==> *final(self) == (AIHeroesContract { paused: true, ..*old(self) }),
    {
        if caller != self.owner {
            return Err(GameError::Unauthorized);
        }
        self.paused = true;
        Ok(())
    }

    /// Replaces the generation-strategy endpoint label; owner only.
    pub fn set_ai_endpoint(&mut self, caller: u64, endpoint: String) -> (r: Result<
        (),
        GameError,
    >)
        requires
            old(self).wf(),
        ensures
            final(self).wf(),
            r is Ok <==> caller == old(self).owner,
            r is Err ==> r->Err_0 == GameError::Unauthorized && *final(self) == *old(self),
            r is Ok ==> *final(self) == (AIHeroesContract { ai_endpoint: endpoint, ..*old(self) }),
    {
        if caller != self.owner {
            return Err(GameError::Unauthorized);
        }
        self.ai_endpoint = endpoint;
        Ok(())
    }

    /// Writes one configuration entry; owner only.
    pub fn set_game_setting(&mut self, caller: u64, key: String, value: String) -> (r: Result<
        (),
        GameError,
    >)
        requires
            old(self).wf(),
        ensures
            final(self).wf(),
            r is Ok <==> caller == old(self).owner,
            r is Err ==> r->Err_0 == GameError::Unauthorized && *final(self) == *old(self),
            r is Ok ==> final(self).game_settings@ == old(self).game_settings@.insert(key@, value)
                && Self::same_heroes(*old(self), *final(self)) && Self::same_requests(
                *old(self),
                *final(self),
            ) && final(self).revenue == old(self).revenue && final(self).analytics == old(
                self,
            ).analytics && final(self).events == old(self).events && final(self).owner == old(
                self,
            ).owner && final(self).paused == old(self).paused,
    {
        if caller != self.owner {
            return Err(GameError::Unauthorized);
        }
        self.game_settings.insert(key, value);
        Ok(())
    }

    /// Total number of heroes ever minted.
    pub fn get_total_heroes(&self) -> (r: u64)
        ensures
            r == self.hero_count,
    {
        self.hero_count
    }

    /// Owner account, pause flag, hero count and endpoint label.
    pub fn get_contract_info(&self) -> (r: (u64, bool, u64, String))
        ensures
            r.0 == self.owner,
            r.1 == self.paused,
            r.2 == self.hero_count,
            r.3@ == self.ai_endpoint@,
    {
        (self.owner, self.paused, self.hero_count, self.ai_endpoint.clone())
    }

    /// The revenue grand total.
    pub fn get_total_revenue(&self) -> (r: u128)
        ensures
            r == self.revenue.spec_total(),
    {
        self.revenue.total()
    }

    /// The cumulative revenue of one fee category.
    pub fn get_revenue_by_type(&self, fee_type: &String) -> (r: u128)
        requires
            self.wf(),
        ensures
            r == self.revenue.spec_by_category(fee_type@),
    {
        self.revenue.by_category(fee_type)
    }

    /// Adds a collected fee to the category and grand totals, both or neither,
    /// and records the fee-collection notification; when the grand total would
    /// exceed the representable range, nothing is recorded.
    pub(crate) fn add_revenue(&mut self, caller: u64, fee_type: String, amount: u128) -> (recorded:
        bool)
        requires
            old(self).revenue.wf(),
        ensures
            final(self).revenue.wf(),
            Self::same_admin(*old(self), *final(self)),
            Self::same_heroes(*old(self), *final(self)),
            Self::same_requests(*old(self), *final(self)),
            final(self).analytics == old(self).analytics,
            recorded == (old(self).revenue.spec_total() + amount <= u128::MAX),
            recorded ==> final(self).revenue@ == old(self).revenue@.insert(
                fee_type@,
                (old(self).revenue.spec_by_category(fee_type@) + amount) as u128,
            ) && final(self).revenue.spec_total() == old(self).revenue.spec_total() + amount
                && final(self).events@ == old(self).events@.push(
                Notification::FeeCollected { fee_type, amount, from: caller },
            ),
            !recorded ==> final(self).revenue == old(self).revenue && final(self).events == old(
                self,
            ).events,
    {
        let key = fee_type.clone();
        let recorded = self.revenue.record(key, amount);
        if recorded {
            self.events.push(Notification::FeeCollected { fee_type, amount, from: caller });
        }
        recorded
    }
}

} // verus!
