//! Telemetry aggregation: monotonic counters per hero, per player and per day,
//! global counters, and the incrementally maintained average battle duration.

use vstd::prelude::*;
use vstd::string::StringExecFns;
use vstd::string::StringSliceAdditionalSpecFns;

use crate::constants::SECONDS_PER_DAY;
use crate::errors::GameError;
use crate::events::Notification;
use crate::storage::StrTable;
use crate::storage::Table;
use crate::storage::U64Set;
use crate::util::push_dec;
use crate::util::push_str_bytes;
use crate::util::spec_dec_digits;
use crate::util::sadd128;
use crate::util::sadd64;
use crate::util::sat_add_u128;
use crate::util::sat_add_u64;
use crate::AIHeroesContract;

verus! {

/// Per-hero performance counters. The two average fields are memoized
/// derivations, recomputed from the sums on every performance update.
#[derive(Clone, Copy, Debug, PartialEq, Eq, Structural)]
pub struct HeroMetrics {
    pub battles_fought: u64,
    pub battles_won: u64,
    pub total_exp_gained: u64,
    pub total_damage_dealt: u64,
    pub total_damage_taken: u64,
    pub usage_count: u64,
    pub last_used: u64,
    pub avg_damage_per_battle: u64,
    pub avg_exp_per_battle: u64,
}

impl HeroMetrics {
    pub fn zero() -> (m: HeroMetrics)
        ensures
            m == HeroMetrics::spec_zero(),
    {
        HeroMetrics {
            battles_fought: 0,
            battles_won: 0,
            total_exp_gained: 0,
            total_damage_dealt: 0,
            total_damage_taken: 0,
            usage_count: 0,
            last_used: 0,
            avg_damage_per_battle: 0,
            avg_exp_per_battle: 0,
        }
    }

    pub open spec fn spec_zero() -> HeroMetrics {
        HeroMetrics {
            battles_fought: 0,
            battles_won: 0,
            total_exp_gained: 0,
            total_damage_dealt: 0,
            total_damage_taken: 0,
            usage_count: 0,
            last_used: 0,
            avg_damage_per_battle: 0,
            avg_exp_per_battle: 0,
        }
    }
}

/// Per-player activity counters, with spend tracked per currency label.
pub struct PlayerMetrics {
    pub activity_count: u64,
    pub last_activity: u64,
    pub transaction_count: u64,
    pub spend: StrTable<u128>,
}

impl PlayerMetrics {
    pub open spec fn wf(self) -> bool {
        self.spend.wf()
    }

    pub fn zero() -> (m: PlayerMetrics)
        ensures
            m.wf(),
            m.activity_count == 0,
            m.last_activity == 0,
            m.transaction_count == 0,
            m.spend@ == Map::<Seq<char>, u128>::empty(),
    {
        PlayerMetrics {
            activity_count: 0,
            last_activity: 0,
            transaction_count: 0,
            spend: StrTable::new(),
        }
    }
}

/// One day's bucket, keyed by `timestamp / 86400`: the set of accounts active
/// that day, per-action counts, the battle count and per-currency volume.
pub struct DayBucket {
    pub active_users: U64Set,
    pub battles: u64,
    pub actions: StrTable<u64>,
    pub volume: StrTable<u128>,
}

impl DayBucket {
    pub open spec fn wf(self) -> bool {
        &&& self.active_users.wf()
        &&& self.actions.wf()
        &&& self.volume.wf()
    }

    pub fn zero() -> (b: DayBucket)
        ensures
            b.wf(),
            b.active_users@ == Set::<u64>::empty(),
            b.battles == 0,
            b.actions@ == Map::<Seq<char>, u64>::empty(),
            b.volume@ == Map::<Seq<char>, u128>::empty(),
    {
        DayBucket {
            active_users: U64Set::new(),
            battles: 0,
            actions: StrTable::new(),
            volume: StrTable::new(),
        }
    }
}

/// The whole telemetry aggregate.
pub struct Analytics {
    pub total_battles: u64,
    pub total_transactions: u64,
    pub total_exp_gained: u64,
    pub total_damage_in_game: u64,
    pub total_battle_time: u64,
    pub total_damage_dealt: u64,
    pub average_battle_duration: u64,
    pub hero_metrics: Table<HeroMetrics>,
    pub player_metrics: Table<PlayerMetrics>,
    pub daily: Table<DayBucket>,
    pub action_count: StrTable<u64>,
    pub tx_count_by_type: StrTable<u64>,
    pub tx_volume_by_type: StrTable<StrTable<u128>>,
    pub tx_volume: StrTable<u128>,
}

impl Analytics {
    /// Every table is well formed and no hero has more wins than battles.
    pub open spec fn wf(self) -> bool {
        &&& self.hero_metrics.wf()
        &&& forall|id: u64|
            self.hero_metrics@.contains_key(id) ==> (#[trigger] self.hero_metrics@[id]).battles_won
                <= self.hero_metrics@[id].battles_fought
        &&& self.player_metrics.wf()
        &&& forall|p: u64|
            self.player_metrics@.contains_key(p) ==> (#[trigger] self.player_metrics@[p]).wf()
        &&& self.daily.wf()
        &&& forall|d: u64| self.daily@.contains_key(d) ==> (#[trigger] self.daily@[d]).wf()
        &&& self.action_count.wf()
        &&& self.tx_count_by_type.wf()
        &&& self.tx_volume_by_type.wf()
        &&& forall|t: Seq<char>|
            self.tx_volume_by_type@.contains_key(t) ==> (#[trigger] self.tx_volume_by_type@[t]).wf()
        &&& self.tx_volume.wf()
    }

    pub fn new() -> (a: Analytics)
        ensures
            a.wf(),
            a.total_battles == 0,
            a.total_transactions == 0,
            a.total_exp_gained == 0,
            a.total_damage_in_game == 0,
            a.total_battle_time == 0,
            a.total_damage_dealt == 0,
            a.average_battle_duration == 0,
            a.hero_metrics@ == Map::<u64, HeroMetrics>::empty(),
            a.player_metrics@ == Map::<u64, PlayerMetrics>::empty(),
            a.daily@ == Map::<u64, DayBucket>::empty(),
            a.action_count@ == Map::<Seq<char>, u64>::empty(),
            a.tx_count_by_type@ == Map::<Seq<char>, u64>::empty(),
            a.tx_volume_by_type@ == Map::<Seq<char>, StrTable<u128>>::empty(),
            a.tx_volume@ == Map::<Seq<char>, u128>::empty(),
    {
        Analytics {
            total_battles: 0,
            total_transactions: 0,
            total_exp_gained: 0,
            total_damage_in_game: 0,
            total_battle_time: 0,
            total_damage_dealt: 0,
            average_battle_duration: 0,
            hero_metrics: Table::new(),
            player_metrics: Table::new(),
            daily: Table::new(),
            action_count: StrTable::new(),
            tx_count_by_type: StrTable::new(),
            tx_volume_by_type: StrTable::new(),
            tx_volume: StrTable::new(),
        }
    }

    /// The player's activity count; zero when never seen.
    pub open spec fn spec_player_activity(self, player: u64) -> u64 {
        if self.player_metrics@.contains_key(player) {
            self.player_metrics@[player].activity_count
        } else {
            0
        }
    }

    /// The player's last activity time; zero when never seen.
    pub open spec fn spec_player_last_activity(self, player: u64) -> u64 {
        if self.player_metrics@.contains_key(player) {
            self.player_metrics@[player].last_activity
        } else {
            0
        }
    }

    /// The player's transaction count; zero when never seen.
    pub open spec fn spec_player_tx_count(self, player: u64) -> u64 {
        if self.player_metrics@.contains_key(player) {
            self.player_metrics@[player].transaction_count
        } else {
            0
        }
    }

    /// The player's cumulative spend in one currency; zero when never seen.
    pub open spec fn spec_player_spend(self, player: u64, currency: Seq<char>) -> u128 {
        if self.player_metrics@.contains_key(player) && self.player_metrics@[player].spend@.contains_key(currency) {
            self.player_metrics@[player].spend@[currency]
        } else {
            0
        }
    }

    /// The count of one action type; zero when never recorded.
    pub open spec fn spec_action_count(self, action: Seq<char>) -> u64 {
        if self.action_count@.contains_key(action) {
            self.action_count@[action]
        } else {
            0
        }
    }

    /// The accounts active on one day.
    pub open spec fn spec_daily_active(self, day: u64) -> Set<u64> {
        if self.daily@.contains_key(day) {
            self.daily@[day].active_users@
        } else {
            Set::empty()
        }
    }

    /// The battles recorded on one day.
    pub open spec fn spec_daily_battles(self, day: u64) -> u64 {
        if self.daily@.contains_key(day) {
            self.daily@[day].battles
        } else {
            0
        }
    }

    /// The count of one action type on one day.
    pub open spec fn spec_daily_actions(self, day: u64, action: Seq<char>) -> u64 {
        if self.daily@.contains_key(day) && self.daily@[day].actions@.contains_key(action) {
            self.daily@[day].actions@[action]
        } else {
            0
        }
    }

    /// The transaction volume in one currency on one day.
    pub open spec fn spec_daily_volume(self, day: u64, currency: Seq<char>) -> u128 {
        if self.daily@.contains_key(day) && self.daily@[day].volume@.contains_key(currency) {
            self.daily@[day].volume@[currency]
        } else {
            0
        }
    }

    /// The count of one transaction type; zero when never recorded.
    pub open spec fn spec_tx_count_by_type(self, t: Seq<char>) -> u64 {
        if self.tx_count_by_type@.contains_key(t) {
            self.tx_count_by_type@[t]
        } else {
            0
        }
    }

    /// The volume of one currency across all transactions.
    pub open spec fn spec_tx_volume(self, currency: Seq<char>) -> u128 {
        if self.tx_volume@.contains_key(currency) {
            self.tx_volume@[currency]
        } else {
            0
        }
    }

    /// The volume of one transaction type in one currency.
    pub open spec fn spec_tx_volume_by_type(self, t: Seq<char>, currency: Seq<char>) -> u128 {
        if self.tx_volume_by_type@.contains_key(t) && self.tx_volume_by_type@[t]@.contains_key(currency) {
            self.tx_volume_by_type@[t]@[currency]
        } else {
            0
        }
    }

    /// Updates the running average with one more battle duration, reading the
    /// already incremented battle count: the first sample sets the average
    /// directly; later samples apply the incremental formula, whose result
    /// never exceeds the larger of the old average and the sample.
    pub(crate) fn update_average_battle_duration(&mut self, new_duration: u64)
        ensures
            *final(self) == (Analytics {
                average_battle_duration: final(self).average_battle_duration,
                ..*old(self)
            }),
            old(self).total_battles > 1 ==> final(self).average_battle_duration as int
                == spec_avg_step(
                old(self).average_battle_duration as int,
                old(self).total_battles as int,
                new_duration as int,
            ),
            old(self).total_battles <= 1 ==> final(self).average_battle_duration == new_duration,
    {
        let total_battles = self.total_battles;
        let current_avg = self.average_battle_duration;
        if total_battles > 1 {
            proof {
                let a = current_avg as int;
                let b = total_battles - 1;
                let mx = u64::MAX as int;
                assert(a * b <= mx * mx) by (nonlinear_arith)
                    requires
                        0 <= a <= mx,
                        0 <= b <= mx,
                ;
                assert(mx * mx + mx < u128::MAX) by (nonlinear_arith)
                    requires
                        mx == u64::MAX as int,
                ;
            }
            let wide: u128 = (current_avg as u128) * ((total_battles - 1) as u128) + (
            new_duration as u128);
            let quotient: u128 = wide / (total_battles as u128);
            proof {
                let a = current_avg as int;
                let n = total_battles as int;
                let d = new_duration as int;
                let m = if a >= d { a } else { d };
                assert(a * (n - 1) + d <= m * (n - 1) + m) by (nonlinear_arith)
                    requires
                        a <= m,
                        d <= m,
                        n >= 2,
                ;
                assert(m * (n - 1) + m == m * n) by (nonlinear_arith);
                assert((a * (n - 1) + d) / n <= (m * n) / n) by (nonlinear_arith)
                    requires
                        n >= 2,
                        a * (n - 1) + d <= m * n,
                ;
                assert((m * n) / n == m) by (nonlinear_arith)
                    requires
                        n >= 2,
                ;
            }
            self.average_battle_duration = quotient as u64;
        } else {
            // zero or one battle so far: the sample sets the average directly
            self.average_battle_duration = new_duration;
        }
    }

    /// The hero's counters, or all zeroes when none were recorded yet.
    pub open spec fn spec_hero_metrics(self, hero_id: u64) -> HeroMetrics {
        if self.hero_metrics@.contains_key(hero_id) {
            self.hero_metrics@[hero_id]
        } else {
            HeroMetrics::spec_zero()
        }
    }
}

/// One step of the incremental running average: the average over `n` samples,
/// computed from the stored average over `n - 1` samples and the new sample.
/// Computed with the old average first, so the first sample sets the average
/// directly.
pub open spec fn spec_avg_step(prev_avg: int, n: int, sample: int) -> int {
    (prev_avg * (n - 1) + sample) / n
}

/// The value the stored average holds after a sequence of recorded battle
/// durations.
pub open spec fn spec_stored_avg(s: Seq<u64>) -> int
    decreases s.len(),
{
    if s.len() == 0 {
        0
    } else {
        spec_avg_step(spec_stored_avg(s.drop_last()), s.len() as int, s.last() as int)
    }
}


/// One recorded duration extends the stored-average history by exactly one
/// incremental step — the same step the battle recorder's contract states.
pub proof fn lemma_stored_avg_step(s: Seq<u64>, d: u64)
    ensures
        spec_stored_avg(s.push(d)) == spec_avg_step(
            spec_stored_avg(s),
            s.len() + 1 as int,
            d as int,
        ),
{
    assert(s.push(d).drop_last() =~= s);
    assert(s.push(d).last() == d);
}

/// Sum of a sequence of durations.
pub open spec fn spec_duration_sum(s: Seq<u64>) -> int
    decreases s.len(),
{
    if s.len() == 0 {
        0
    } else {
        spec_duration_sum(s.drop_last()) + s.last()
    }
}

/// Every non-empty prefix of the duration sequence sums to a multiple of its
/// length, so no integer division in the incremental formula drops a
/// remainder.
pub open spec fn spec_exact_prefixes(s: Seq<u64>) -> bool {
    forall|i: int|
        1 <= i <= s.len() ==> #[trigger] spec_duration_sum(s.take(i)) % i == 0
}

proof fn lemma_duration_sum_nonneg(s: Seq<u64>)
    ensures
        spec_duration_sum(s) >= 0,
    decreases s.len(),
{
    if s.len() > 0 {
        lemma_duration_sum_nonneg(s.drop_last());
    }
}

/// The stored average, maintained incrementally, equals the average
/// recomputed from scratch as sum divided by count, whenever every prefix sum
/// divides evenly; it holds in particular after every step of such a
/// sequence.
pub proof fn lemma_average_exact(s: Seq<u64>)
    requires
        spec_exact_prefixes(s),
        s.len() >= 1,
    ensures
        spec_stored_avg(s) == spec_duration_sum(s) / (s.len() as int),
        spec_duration_sum(s) % (s.len() as int) == 0,
    decreases s.len(),
{
    let n = s.len() as int;
    assert(s.take(n) =~= s);
    assert(spec_duration_sum(s.take(n)) % n == 0);
    if s.len() == 1 {
        assert(s.drop_last().len() == 0);
        assert(spec_stored_avg(s.drop_last()) == 0);
        assert(spec_duration_sum(s.drop_last()) == 0);
        assert(spec_stored_avg(s) == (0 * 0 + s.last() as int) / 1);
        assert(spec_duration_sum(s) == 0 + s.last());
        assert((s.last() as int) / 1 == s.last() as int);
    } else {
        let t = s.drop_last();
        assert(spec_exact_prefixes(t)) by {
            assert forall|i: int|
                1 <= i <= t.len() implies #[trigger] spec_duration_sum(t.take(i)) % i == 0 by {
                assert(t.take(i) =~= s.take(i));
            }
        }
        lemma_average_exact(t);
        let m = t.len() as int;
        let st = spec_duration_sum(t);
        // the stored average over the prefix is exactly st / m, and m divides st
        assert(spec_stored_avg(t) == st / m);
        assert(st % m == 0);
        assert((st / m) * m == st) by {
            vstd::arithmetic::div_mod::lemma_fundamental_div_mod(st, m);
        }
        assert(spec_stored_avg(s) == (st + s.last() as int) / n);
        assert(spec_duration_sum(s) == st + s.last());
    }
}


/// Raises a string-keyed counter by one, saturating.
fn bump_count(t: &mut StrTable<u64>, key: String)
    requires
        old(t).wf(),
    ensures
        final(t).wf(),
        final(t)@ == old(t)@.insert(
            key@,
            sadd64(
                if old(t)@.contains_key(key@) {
                    old(t)@[key@]
                } else {
                    0
                },
                1,
            ),
        ),
{
    let current = match t.get(&key) {
        Some(c) => *c,
        None => 0,
    };
    let next = sat_add_u64(current, 1);
    t.insert(key, next);
}

/// Raises a string-keyed volume by an amount, saturating.
fn add_volume(t: &mut StrTable<u128>, key: String, amount: u128)
    requires
        old(t).wf(),
    ensures
        final(t).wf(),
        final(t)@ == old(t)@.insert(
            key@,
            sadd128(
                if old(t)@.contains_key(key@) {
                    old(t)@[key@]
                } else {
                    0
                },
                amount,
            ),
        ),
{
    let current = match t.get(&key) {
        Some(c) => *c,
        None => 0,
    };
    let next = sat_add_u128(current, amount);
    t.insert(key, next);
}

impl AIHeroesContract {
    /// Records one player action: the player's activity counter and last
    /// activity time, the per-action-type counter, the day's active-user set
    /// and per-action count, and — for a real hero id — the hero's usage
    /// counter and last-used time. Fire-and-forget: no failure modes.
    pub fn record_player_action(
        &mut self,
        caller: u64,
        now: u64,
        action_type: String,
        hero_id: u64,
        value: u64,
    ) -> (r: Result<(), GameError>)
        requires
            old(self).wf(),
        ensures
            final(self).wf(),
            r is Err <==> old(self).paused,
            r is Err ==> r->Err_0 == GameError::Paused && *final(self) == *old(self),
            r is Ok ==> final(self).analytics.spec_player_activity(caller) == sadd64(
                old(self).analytics.spec_player_activity(caller),
                1,
            ),
            r is Ok ==> final(self).analytics.spec_player_last_activity(caller) == now,
            r is Ok ==> forall|p: u64|
                p != caller ==> #[trigger] final(self).analytics.spec_player_activity(p) == old(self).analytics.spec_player_activity(p) && final(self).analytics.spec_player_last_activity(p) == old(self).analytics.spec_player_last_activity(p),
            r is Ok ==> forall|p: u64| #[trigger] final(self).analytics.spec_player_tx_count(p) == old(self).analytics.spec_player_tx_count(p),
            r is Ok ==> forall|p: u64, c: Seq<char>| #[trigger] final(self).analytics.spec_player_spend(p, c) == old(self).analytics.spec_player_spend(p, c),
            r is Ok ==> forall|a: Seq<char>|
                #[trigger] final(self).analytics.spec_action_count(a) == if a == action_type@ {
                    sadd64(old(self).analytics.spec_action_count(a), 1)
                } else {
                    old(self).analytics.spec_action_count(a)
                },
            r is Ok ==> forall|d: u64|
                #[trigger] final(self).analytics.spec_daily_active(d) == if d == now
                    / SECONDS_PER_DAY {
                    old(self).analytics.spec_daily_active(d).insert(caller)
                } else {
                    old(self).analytics.spec_daily_active(d)
                },
            r is Ok ==> forall|d: u64, a: Seq<char>|
                #[trigger] final(self).analytics.spec_daily_actions(d, a) == if d == now
                    / SECONDS_PER_DAY && a == action_type@ {
                    sadd64(old(self).analytics.spec_daily_actions(d, a), 1)
                } else {
                    old(self).analytics.spec_daily_actions(d, a)
                },
            forall|d: u64| #[trigger] final(self).analytics.spec_daily_battles(d) == old(self).analytics.spec_daily_battles(d),
            forall|d: u64, c: Seq<char>| #[trigger] final(self).analytics.spec_daily_volume(d, c) == old(self).analytics.spec_daily_volume(d, c),
            r is Ok ==> forall|id: u64|
                #[trigger] final(self).analytics.spec_hero_metrics(id) == if hero_id > 0 && id
                    == hero_id {
                    (HeroMetrics {
                        usage_count: sadd64(
                            old(self).analytics.spec_hero_metrics(id).usage_count,
                            1,
                        ),
                        last_used: now,
                        ..old(self).analytics.spec_hero_metrics(id)
                    })
                } else {
                    old(self).analytics.spec_hero_metrics(id)
                },
            forall|t: Seq<char>| #[trigger] final(self).analytics.spec_tx_count_by_type(t) == old(self).analytics.spec_tx_count_by_type(t),
            forall|c: Seq<char>| #[trigger] final(self).analytics.spec_tx_volume(c) == old(self).analytics.spec_tx_volume(c),
            forall|t: Seq<char>, c: Seq<char>| #[trigger] final(self).analytics.spec_tx_volume_by_type(t, c) == old(self).analytics.spec_tx_volume_by_type(t, c),
            final(self).analytics.total_battles == old(self).analytics.total_battles,
            final(self).analytics.total_transactions == old(self).analytics.total_transactions,
            final(self).analytics.total_exp_gained == old(self).analytics.total_exp_gained,
            final(self).analytics.total_damage_in_game == old(self).analytics.total_damage_in_game,
            final(self).analytics.total_battle_time == old(self).analytics.total_battle_time,
            final(self).analytics.total_damage_dealt == old(self).analytics.total_damage_dealt,
            final(self).analytics.average_battle_duration == old(self).analytics.average_battle_duration,
            r is Ok ==> final(self).events@ == old(self).events@.push(
                Notification::PlayerActionRecorded {
                    player: caller,
                    action_type,
                    hero_id,
                    value,
                    timestamp: now,
                },
            ),
            Self::same_admin(*old(self), *final(self)),
            Self::same_heroes(*old(self), *final(self)),
            Self::same_requests(*old(self), *final(self)),
            final(self).revenue == old(self).revenue,
    {
        if self.paused {
            return Err(GameError::Paused);
        }
        let day = now / SECONDS_PER_DAY;

        let mut pm = if self.analytics.player_metrics.contains(caller) {
            self.analytics.player_metrics.take(caller)
        } else {
            PlayerMetrics::zero()
        };
        pm.activity_count = sat_add_u64(pm.activity_count, 1);
        pm.last_activity = now;
        self.analytics.player_metrics.insert(caller, pm);

        bump_count(&mut self.analytics.action_count, action_type.clone());

        let mut bucket = if self.analytics.daily.contains(day) {
            self.analytics.daily.take(day)
        } else {
            DayBucket::zero()
        };
        bucket.active_users.insert(caller);
        bump_count(&mut bucket.actions, action_type.clone());
        self.analytics.daily.insert(day, bucket);

        if hero_id > 0 {
            let mut hm = match self.analytics.hero_metrics.get(hero_id) {
                Some(m) => *m,
                None => HeroMetrics::zero(),
            };
            hm.usage_count = sat_add_u64(hm.usage_count, 1);
            hm.last_used = now;
            self.analytics.hero_metrics.insert(hero_id, hm);
        }

        proof {
            assert forall|p: u64| self.analytics.player_metrics@.contains_key(p) implies (
            #[trigger] self.analytics.player_metrics@[p]).wf() by {
                if p != caller {
                    assert(old(self).analytics.player_metrics@[p].wf());
                }
            }
            assert forall|d: u64| self.analytics.daily@.contains_key(d) implies (
            #[trigger] self.analytics.daily@[d]).wf() by {
                if d != day {
                    assert(old(self).analytics.daily@[d].wf());
                }
            }
            assert forall|id: u64| self.analytics.hero_metrics@.contains_key(id) implies (
            #[trigger] self.analytics.hero_metrics@[id]).battles_won
                <= self.analytics.hero_metrics@[id].battles_fought by {
                if !(hero_id > 0 && id == hero_id) {
                    assert(old(self).analytics.hero_metrics@.contains_key(id));
                } else {
                    if old(self).analytics.hero_metrics@.contains_key(id) {
                        assert(old(self).analytics.hero_metrics@[id].battles_won <= old(self).analytics.hero_metrics@[id].battles_fought);
                    }
                }
            }
        }

        self.events.push(
            Notification::PlayerActionRecorded {
                player: caller,
                action_type,
                hero_id,
                value,
                timestamp: now,
            },
        );
        Ok(())
    }
}


impl AIHeroesContract {
    /// The fought/won counters after one recorded battle outcome, for any
    /// hero id: both participants gain a fought battle (twice for a self
    /// match), and the winner — when it is one of the two — gains a win.
    pub open spec fn spec_battle_metrics_after(
        m: HeroMetrics,
        id: u64,
        hero1_id: u64,
        hero2_id: u64,
        winner_id: u64,
    ) -> HeroMetrics {
        let fought = if id == hero1_id && id == hero2_id {
            sadd64(sadd64(m.battles_fought, 1), 1)
        } else if id == hero1_id || id == hero2_id {
            sadd64(m.battles_fought, 1)
        } else {
            m.battles_fought
        };
        let won = if id == winner_id && (winner_id == hero1_id || winner_id == hero2_id) {
            sadd64(m.battles_won, 1)
        } else {
            m.battles_won
        };
        HeroMetrics { battles_fought: fought, battles_won: won, ..m }
    }

    /// Records one battle outcome; only the contract owner or an allow-listed
    /// account may call this. The global battle counter, battle time, damage
    /// total and the day's battle count rise; both heroes' fought counters and
    /// the winner's win counter rise; and the running average battle duration
    /// advances by the incremental formula, whose first sample sets it
    /// directly.
    pub fn record_battle_outcome(
        &mut self,
        caller: u64,
        now: u64,
        hero1_id: u64,
        hero2_id: u64,
        winner_id: u64,
        battle_duration: u64,
        damage_dealt: u64,
    ) -> (r: Result<(), GameError>)
        requires
            old(self).wf(),
        ensures
            final(self).wf(),
            match r {
                Err(e) => ((e == GameError::Paused && old(self).paused) || (e
                    == GameError::Unauthorized && !old(self).paused && !(caller == old(self).owner
                    || old(self).authorized_contracts@.contains(caller)))) && *final(self) == *old(self),
                Ok(()) => {
                    let n = sadd64(old(self).analytics.total_battles, 1);
                    &&& !old(self).paused
                    &&& (caller == old(self).owner || old(self).authorized_contracts@.contains(
                        caller,
                    ))
                    &&& final(self).analytics.total_battles == n
                    &&& final(self).analytics.total_battle_time == sadd64(
                        old(self).analytics.total_battle_time,
                        battle_duration,
                    )
                    &&& final(self).analytics.total_damage_dealt == sadd64(
                        old(self).analytics.total_damage_dealt,
                        damage_dealt,
                    )
                    &&& (n > 1 ==> final(self).analytics.average_battle_duration as int
                        == spec_avg_step(
                        old(self).analytics.average_battle_duration as int,
                        n as int,
                        battle_duration as int,
                    ))
                    &&& (n <= 1 ==> final(self).analytics.average_battle_duration
                        == battle_duration)
                    &&& forall|id: u64|
                        #[trigger] final(self).analytics.spec_hero_metrics(id)
                            == Self::spec_battle_metrics_after(
                            old(self).analytics.spec_hero_metrics(id),
                            id,
                            hero1_id,
                            hero2_id,
                            winner_id,
                        )
                    &&& forall|d: u64|
                        #[trigger] final(self).analytics.spec_daily_battles(d) == if d == now
                            / SECONDS_PER_DAY {
                            sadd64(old(self).analytics.spec_daily_battles(d), 1)
                        } else {
                            old(self).analytics.spec_daily_battles(d)
                        }
                    &&& forall|d: u64| #[trigger] final(self).analytics.spec_daily_active(d) == old(self).analytics.spec_daily_active(d)
                    &&& forall|d: u64, a: Seq<char>| #[trigger] final(self).analytics.spec_daily_actions(d, a) == old(self).analytics.spec_daily_actions(d, a)
                    &&& forall|d: u64, c: Seq<char>| #[trigger] final(self).analytics.spec_daily_volume(d, c) == old(self).analytics.spec_daily_volume(d, c)
                    &&& final(self).analytics.total_transactions == old(self).analytics.total_transactions
                    &&& final(self).analytics.total_exp_gained == old(self).analytics.total_exp_gained
                    &&& final(self).analytics.total_damage_in_game == old(self).analytics.total_damage_in_game
                    &&& final(self).analytics.player_metrics == old(self).analytics.player_metrics
                    &&& final(self).analytics.action_count == old(self).analytics.action_count
                    &&& final(self).analytics.tx_count_by_type == old(self).analytics.tx_count_by_type
                    &&& final(self).analytics.tx_volume_by_type == old(self).analytics.tx_volume_by_type
                    &&& final(self).analytics.tx_volume == old(self).analytics.tx_volume
                    &&& final(self).events@ == old(self).events@.push(
                        Notification::BattleOutcomeRecorded {
                            hero1_id,
                            hero2_id,
                            winner_id,
                            battle_duration,
                            damage_dealt,
                        },
                    )
                },
            },
            Self::same_admin(*old(self), *final(self)),
            Self::same_heroes(*old(self), *final(self)),
            Self::same_requests(*old(self), *final(self)),
            final(self).revenue == old(self).revenue,
    {
        if self.paused {
            return Err(GameError::Paused);
        }
        if !self.is_authorized_caller(caller) {
            return Err(GameError::Unauthorized);
        }
        let day = now / SECONDS_PER_DAY;

        self.analytics.total_battles = sat_add_u64(self.analytics.total_battles, 1);

        let mut m1 = match self.analytics.hero_metrics.get(hero1_id) {
            Some(m) => *m,
            None => HeroMetrics::zero(),
        };
        m1.battles_fought = sat_add_u64(m1.battles_fought, 1);
        self.analytics.hero_metrics.insert(hero1_id, m1);

        let mut m2 = match self.analytics.hero_metrics.get(hero2_id) {
            Some(m) => *m,
            None => HeroMetrics::zero(),
        };
        m2.battles_fought = sat_add_u64(m2.battles_fought, 1);
        self.analytics.hero_metrics.insert(hero2_id, m2);

        if winner_id == hero1_id || winner_id == hero2_id {
            let mut mw = match self.analytics.hero_metrics.get(winner_id) {
                Some(m) => *m,
                None => HeroMetrics::zero(),
            };
            mw.battles_won = sat_add_u64(mw.battles_won, 1);
            self.analytics.hero_metrics.insert(winner_id, mw);
        }

        self.analytics.total_battle_time = sat_add_u64(
            self.analytics.total_battle_time,
            battle_duration,
        );
        self.analytics.update_average_battle_duration(battle_duration);

        self.analytics.total_damage_dealt = sat_add_u64(
            self.analytics.total_damage_dealt,
            damage_dealt,
        );

        let mut bucket = if self.analytics.daily.contains(day) {
            self.analytics.daily.take(day)
        } else {
            DayBucket::zero()
        };
        bucket.battles = sat_add_u64(bucket.battles, 1);
        self.analytics.daily.insert(day, bucket);

        proof {
            assert forall|d: u64| self.analytics.daily@.contains_key(d) implies (
            #[trigger] self.analytics.daily@[d]).wf() by {
                if d != day {
                    assert(old(self).analytics.daily@[d].wf());
                }
            }
            assert forall|id: u64| self.analytics.hero_metrics@.contains_key(id) implies (
            #[trigger] self.analytics.hero_metrics@[id]).battles_won
                <= self.analytics.hero_metrics@[id].battles_fought by {
                if old(self).analytics.hero_metrics@.contains_key(id) {
                    assert(old(self).analytics.hero_metrics@[id].battles_won <= old(self).analytics.hero_metrics@[id].battles_fought);
                }
            }
            assert forall|id: u64| #[trigger] self.analytics.spec_hero_metrics(id)
                == Self::spec_battle_metrics_after(
                old(self).analytics.spec_hero_metrics(id),
                id,
                hero1_id,
                hero2_id,
                winner_id,
            ) by {}
        }

        self.events.push(
            Notification::BattleOutcomeRecorded {
                hero1_id,
                hero2_id,
                winner_id,
                battle_duration,
                damage_dealt,
            },
        );
        Ok(())
    }

    /// Records one economic transaction: the global transaction counter, the
    /// currency's volume, the type's count and per-currency volume, the day's
    /// volume and the caller's transaction count and spend. Fire-and-forget.
    pub fn record_economic_transaction(
        &mut self,
        caller: u64,
        now: u64,
        transaction_type: String,
        amount: u128,
        currency: String,
    ) -> (r: Result<(), GameError>)
        requires
            old(self).wf(),
        ensures
            final(self).wf(),
            r is Err <==> old(self).paused,
            r is Err ==> r->Err_0 == GameError::Paused && *final(self) == *old(self),
            r is Ok ==> final(self).analytics.total_transactions == sadd64(
                old(self).analytics.total_transactions,
                1,
            ),
            r is Ok ==> forall|c: Seq<char>|
                #[trigger] final(self).analytics.spec_tx_volume(c) == if c == currency@ {
                    sadd128(old(self).analytics.spec_tx_volume(c), amount)
                } else {
                    old(self).analytics.spec_tx_volume(c)
                },
            r is Ok ==> forall|t: Seq<char>|
                #[trigger] final(self).analytics.spec_tx_count_by_type(t) == if t
                    == transaction_type@ {
                    sadd64(old(self).analytics.spec_tx_count_by_type(t), 1)
                } else {
                    old(self).analytics.spec_tx_count_by_type(t)
                },
            r is Ok ==> forall|t: Seq<char>, c: Seq<char>|
                #[trigger] final(self).analytics.spec_tx_volume_by_type(t, c) == if t
                    == transaction_type@ && c == currency@ {
                    sadd128(old(self).analytics.spec_tx_volume_by_type(t, c), amount)
                } else {
                    old(self).analytics.spec_tx_volume_by_type(t, c)
                },
            r is Ok ==> forall|d: u64, c: Seq<char>|
                #[trigger] final(self).analytics.spec_daily_volume(d, c) == if d == now
                    / SECONDS_PER_DAY && c == currency@ {
                    sadd128(old(self).analytics.spec_daily_volume(d, c), amount)
                } else {
                    old(self).analytics.spec_daily_volume(d, c)
                },
            forall|d: u64| #[trigger] final(self).analytics.spec_daily_active(d) == old(self).analytics.spec_daily_active(d),
            forall|d: u64| #[trigger] final(self).analytics.spec_daily_battles(d) == old(self).analytics.spec_daily_battles(d),
            forall|d: u64, a: Seq<char>| #[trigger] final(self).analytics.spec_daily_actions(d, a) == old(self).analytics.spec_daily_actions(d, a),
            r is Ok ==> forall|p: u64|
                #[trigger] final(self).analytics.spec_player_tx_count(p) == if p == caller {
                    sadd64(old(self).analytics.spec_player_tx_count(p), 1)
                } else {
                    old(self).analytics.spec_player_tx_count(p)
                },
            r is Ok ==> forall|p: u64, c: Seq<char>|
                #[trigger] final(self).analytics.spec_player_spend(p, c) == if p == caller && c
                    == currency@ {
                    sadd128(old(self).analytics.spec_player_spend(p, c), amount)
                } else {
                    old(self).analytics.spec_player_spend(p, c)
                },
            forall|p: u64| #[trigger] final(self).analytics.spec_player_activity(p) == old(self).analytics.spec_player_activity(p),
            forall|p: u64| #[trigger] final(self).analytics.spec_player_last_activity(p) == old(self).analytics.spec_player_last_activity(p),
            forall|a: Seq<char>| #[trigger] final(self).analytics.spec_action_count(a) == old(self).analytics.spec_action_count(a),
            forall|id: u64| #[trigger] final(self).analytics.spec_hero_metrics(id) == old(self).analytics.spec_hero_metrics(id),
            final(self).analytics.total_battles == old(self).analytics.total_battles,
            final(self).analytics.total_exp_gained == old(self).analytics.total_exp_gained,
            final(self).analytics.total_damage_in_game == old(self).analytics.total_damage_in_game,
            final(self).analytics.total_battle_time == old(self).analytics.total_battle_time,
            final(self).analytics.total_damage_dealt == old(self).analytics.total_damage_dealt,
            final(self).analytics.average_battle_duration == old(self).analytics.average_battle_duration,
            r is Ok ==> final(self).events@ == old(self).events@.push(
                Notification::EconomicTransactionRecorded {
                    player: caller,
                    transaction_type,
                    amount,
                    currency,
                },
            ),
            Self::same_admin(*old(self), *final(self)),
            Self::same_heroes(*old(self), *final(self)),
            Self::same_requests(*old(self), *final(self)),
            final(self).revenue == old(self).revenue,
    {
        if self.paused {
            return Err(GameError::Paused);
        }
        let day = now / SECONDS_PER_DAY;

        self.analytics.total_transactions = sat_add_u64(self.analytics.total_transactions, 1);
        add_volume(&mut self.analytics.tx_volume, currency.clone(), amount);
        bump_count(&mut self.analytics.tx_count_by_type, transaction_type.clone());

        let mut by_type = if self.analytics.tx_volume_by_type.contains(&transaction_type) {
            self.analytics.tx_volume_by_type.take(&transaction_type)
        } else {
            StrTable::new()
        };
        add_volume(&mut by_type, currency.clone(), amount);
        self.analytics.tx_volume_by_type.insert(transaction_type.clone(), by_type);

        let mut bucket = if self.analytics.daily.contains(day) {
            self.analytics.daily.take(day)
        } else {
            DayBucket::zero()
        };
        add_volume(&mut bucket.volume, currency.clone(), amount);
        self.analytics.daily.insert(day, bucket);

        let mut pm = if self.analytics.player_metrics.contains(caller) {
            self.analytics.player_metrics.take(caller)
        } else {
            PlayerMetrics::zero()
        };
        pm.transaction_count = sat_add_u64(pm.transaction_count, 1);
        add_volume(&mut pm.spend, currency.clone(), amount);
        self.analytics.player_metrics.insert(caller, pm);

        proof {
            assert forall|p: u64| self.analytics.player_metrics@.contains_key(p) implies (
            #[trigger] self.analytics.player_metrics@[p]).wf() by {
                if p != caller {
                    assert(old(self).analytics.player_metrics@[p].wf());
                }
            }
            assert forall|d: u64| self.analytics.daily@.contains_key(d) implies (
            #[trigger] self.analytics.daily@[d]).wf() by {
                if d != day {
                    assert(old(self).analytics.daily@[d].wf());
                }
            }
            assert forall|t: Seq<char>| self.analytics.tx_volume_by_type@.contains_key(t) implies (
            #[trigger] self.analytics.tx_volume_by_type@[t]).wf() by {
                if t != transaction_type@ {
                    assert(old(self).analytics.tx_volume_by_type@[t].wf());
                }
            }
            assert forall|id: u64| self.analytics.hero_metrics@.contains_key(id) implies (
            #[trigger] self.analytics.hero_metrics@[id]).battles_won
                <= self.analytics.hero_metrics@[id].battles_fought by {
                assert(old(self).analytics.hero_metrics@[id].battles_won <= old(self).analytics.hero_metrics@[id].battles_fought);
            }
        }

        self.events.push(
            Notification::EconomicTransactionRecorded {
                player: caller,
                transaction_type,
                amount,
                currency,
            },
        );
        Ok(())
    }

    /// The hero's performance counters after one authorized update: gained
    /// experience and damage totals rise, and with at least one fought battle
    /// the two per-battle averages are recomputed from scratch from the new
    /// sums.
    pub open spec fn spec_performance_after(
        m: HeroMetrics,
        exp_gained: u64,
        damage_dealt: u64,
        damage_taken: u64,
    ) -> HeroMetrics {
        let exp = sadd64(m.total_exp_gained, exp_gained);
        let dealt = sadd64(m.total_damage_dealt, damage_dealt);
        let taken = sadd64(m.total_damage_taken, damage_taken);
        HeroMetrics {
            total_exp_gained: exp,
            total_damage_dealt: dealt,
            total_damage_taken: taken,
            avg_damage_per_battle: if m.battles_fought > 0 {
                (dealt as int / m.battles_fought as int) as u64
            } else {
                m.avg_damage_per_battle
            },
            avg_exp_per_battle: if m.battles_fought > 0 {
                (exp as int / m.battles_fought as int) as u64
            } else {
                m.avg_exp_per_battle
            },
            ..m
        }
    }

    /// Records per-hero performance; only the contract owner or an
    /// allow-listed account may call this. Hero sums rise, the memoized
    /// per-battle averages are recomputed from the sums, and the global
    /// experience and damage totals rise.
    pub fn update_hero_performance_metrics(
        &mut self,
        caller: u64,
        hero_id: u64,
        exp_gained: u64,
        damage_dealt: u64,
        damage_taken: u64,
    ) -> (r: Result<(), GameError>)
        requires
            old(self).wf(),
        ensures
            final(self).wf(),
            match r {
                Err(e) => ((e == GameError::Paused && old(self).paused) || (e
                    == GameError::Unauthorized && !old(self).paused && !(caller == old(self).owner
                    || old(self).authorized_contracts@.contains(caller)))) && *final(self) == *old(self),
                Ok(()) => {
                    &&& !old(self).paused
                    &&& (caller == old(self).owner || old(self).authorized_contracts@.contains(
                        caller,
                    ))
                    &&& forall|id: u64|
                        #[trigger] final(self).analytics.spec_hero_metrics(id) == if id == hero_id {
                            Self::spec_performance_after(
                                old(self).analytics.spec_hero_metrics(id),
                                exp_gained,
                                damage_dealt,
                                damage_taken,
                            )
                        } else {
                            old(self).analytics.spec_hero_metrics(id)
                        }
                    &&& final(self).analytics.total_exp_gained == sadd64(
                        old(self).analytics.total_exp_gained,
                        exp_gained,
                    )
                    &&& final(self).analytics.total_damage_in_game == sadd64(
                        sadd64(old(self).analytics.total_damage_in_game, damage_dealt),
                        damage_taken,
                    )
                    &&& final(self).analytics.total_battles == old(self).analytics.total_battles
                    &&& final(self).analytics.total_transactions == old(self).analytics.total_transactions
                    &&& final(self).analytics.total_battle_time == old(self).analytics.total_battle_time
                    &&& final(self).analytics.total_damage_dealt == old(self).analytics.total_damage_dealt
                    &&& final(self).analytics.average_battle_duration == old(self).analytics.average_battle_duration
                    &&& final(self).analytics.player_metrics == old(self).analytics.player_metrics
                    &&& final(self).analytics.daily == old(self).analytics.daily
                    &&& final(self).analytics.action_count == old(self).analytics.action_count
                    &&& final(self).analytics.tx_count_by_type == old(self).analytics.tx_count_by_type
                    &&& final(self).analytics.tx_volume_by_type == old(self).analytics.tx_volume_by_type
                    &&& final(self).analytics.tx_volume == old(self).analytics.tx_volume
                    &&& final(self).events == old(self).events
                },
            },
            Self::same_admin(*old(self), *final(self)),
            Self::same_heroes(*old(self), *final(self)),
            Self::same_requests(*old(self), *final(self)),
            final(self).revenue == old(self).revenue,
    {
        if self.paused {
            return Err(GameError::Paused);
        }
        if !self.is_authorized_caller(caller) {
            return Err(GameError::Unauthorized);
        }
        let mut m = match self.analytics.hero_metrics.get(hero_id) {
            Some(m) => *m,
            None => HeroMetrics::zero(),
        };
        m.total_exp_gained = sat_add_u64(m.total_exp_gained, exp_gained);
        m.total_damage_dealt = sat_add_u64(m.total_damage_dealt, damage_dealt);
        m.total_damage_taken = sat_add_u64(m.total_damage_taken, damage_taken);
        if m.battles_fought > 0 {
            m.avg_damage_per_battle = m.total_damage_dealt / m.battles_fought;
            m.avg_exp_per_battle = m.total_exp_gained / m.battles_fought;
        }
        self.analytics.hero_metrics.insert(hero_id, m);

        self.analytics.total_exp_gained = sat_add_u64(self.analytics.total_exp_gained, exp_gained);
        self.analytics.total_damage_in_game = sat_add_u64(
            sat_add_u64(self.analytics.total_damage_in_game, damage_dealt),
            damage_taken,
        );

        proof {
            assert forall|id: u64| self.analytics.hero_metrics@.contains_key(id) implies (
            #[trigger] self.analytics.hero_metrics@[id]).battles_won
                <= self.analytics.hero_metrics@[id].battles_fought by {
                if id != hero_id {
                    assert(old(self).analytics.hero_metrics@[id].battles_won <= old(self).analytics.hero_metrics@[id].battles_fought);
                } else {
                    if old(self).analytics.hero_metrics@.contains_key(id) {
                        assert(old(self).analytics.hero_metrics@[id].battles_won <= old(self).analytics.hero_metrics@[id].battles_fought);
                    }
                }
            }
        }
        Ok(())
    }
}


impl AIHeroesContract {
    /// The player's activity count, last activity time, transaction count
    /// and cumulative spend in the EGLD currency.
    pub fn get_player_stats(&self, player: u64) -> (r: (u64, u64, u64, u128))
        requires
            self.wf(),
        ensures
            r.0 == self.analytics.spec_player_activity(player),
            r.1 == self.analytics.spec_player_last_activity(player),
            r.2 == self.analytics.spec_player_tx_count(player),
            r.3 == self.analytics.spec_player_spend(player, "EGLD"@),
    {
        match self.analytics.player_metrics.get(player) {
            Some(pm) => {
                let egld = String::from_str("EGLD");
                let spend = match pm.spend.get(&egld) {
                    Some(v) => *v,
                    None => 0,
                };
                (pm.activity_count, pm.last_activity, pm.transaction_count, spend)
            },
            None => (0, 0, 0, 0),
        }
    }

    /// The hero's battles fought and won, experience and damage totals, and
    /// usage count.
    pub fn get_hero_performance_stats(&self, hero_id: u64) -> (r: (u64, u64, u64, u64, u64, u64))
        requires
            self.wf(),
        ensures
            ({
                let m = self.analytics.spec_hero_metrics(hero_id);
                r.0 == m.battles_fought && r.1 == m.battles_won && r.2 == m.total_exp_gained && r.3
                    == m.total_damage_dealt && r.4 == m.total_damage_taken && r.5 == m.usage_count
            }),
    {
        match self.analytics.hero_metrics.get(hero_id) {
            Some(m) => (
                m.battles_fought,
                m.battles_won,
                m.total_exp_gained,
                m.total_damage_dealt,
                m.total_damage_taken,
                m.usage_count,
            ),
            None => (0, 0, 0, 0, 0, 0),
        }
    }

    /// The global counters: battles, transactions, experience, damage and the
    /// running average battle duration.
    pub fn get_game_wide_stats(&self) -> (r: (u64, u64, u64, u64, u64))
        ensures
            r.0 == self.analytics.total_battles,
            r.1 == self.analytics.total_transactions,
            r.2 == self.analytics.total_exp_gained,
            r.3 == self.analytics.total_damage_in_game,
            r.4 == self.analytics.average_battle_duration,
    {
        (
            self.analytics.total_battles,
            self.analytics.total_transactions,
            self.analytics.total_exp_gained,
            self.analytics.total_damage_in_game,
            self.analytics.average_battle_duration,
        )
    }

    /// The day's distinct active users (saturating at the `u32` range), its
    /// battle count and its EGLD transaction volume, for the day containing
    /// the given timestamp.
    pub fn get_daily_stats(&self, day_timestamp: u64) -> (r: (u32, u64, u128))
        requires
            self.wf(),
        ensures
            ({
                let day = day_timestamp / SECONDS_PER_DAY;
                &&& r.0 == if self.analytics.spec_daily_active(day).len() > u32::MAX {
                    u32::MAX
                } else {
                    self.analytics.spec_daily_active(day).len() as u32
                }
                &&& r.1 == self.analytics.spec_daily_battles(day)
                &&& r.2 == self.analytics.spec_daily_volume(day, "EGLD"@)
            }),
    {
        let day = day_timestamp / SECONDS_PER_DAY;
        match self.analytics.daily.get(day) {
            Some(bucket) => {
                proof {
                    assert(self.analytics.daily@[day].wf());
                }
                let users = bucket.active_users.len();
                let users32: u32 = if users > u32::MAX as usize {
                    u32::MAX
                } else {
                    users as u32
                };
                let egld = String::from_str("EGLD");
                let volume = match bucket.volume.get(&egld) {
                    Some(v) => *v,
                    None => 0,
                };
                (users32, bucket.battles, volume)
            },
            None => {
                proof {
                    assert(Set::<u64>::empty().len() == 0) by {
                        assert(Set::<u64>::empty().finite());
                    }
                }
                (0, 0, 0)
            },
        }
    }

    /// The count of one action type.
    pub fn get_action_stats(&self, action_type: &String) -> (r: u64)
        requires
            self.wf(),
        ensures
            r == self.analytics.spec_action_count(action_type@),
    {
        match self.analytics.action_count.get(action_type) {
            Some(c) => *c,
            None => 0,
        }
    }

    /// The count of one transaction type and its volume in one currency.
    pub fn get_transaction_stats(&self, transaction_type: &String, currency: &String) -> (r: (
        u64,
        u128,
    ))
        requires
            self.wf(),
        ensures
            r.0 == self.analytics.spec_tx_count_by_type(transaction_type@),
            r.1 == self.analytics.spec_tx_volume_by_type(transaction_type@, currency@),
    {
        let count = match self.analytics.tx_count_by_type.get(transaction_type) {
            Some(c) => *c,
            None => 0,
        };
        let volume = match self.analytics.tx_volume_by_type.get(transaction_type) {
            Some(by_currency) => {
                proof {
                    assert(self.analytics.tx_volume_by_type@[transaction_type@].wf());
                }
                match by_currency.get(currency) {
                    Some(v) => *v,
                    None => 0,
                }
            },
            None => 0,
        };
        (count, volume)
    }

    /// The hero's win percentage: wins times one hundred over battles fought,
    /// zero without a fought battle; never above one hundred.
    pub fn get_hero_win_rate(&self, hero_id: u64) -> (r: u32)
        requires
            self.wf(),
        ensures
            ({
                let m = self.analytics.spec_hero_metrics(hero_id);
                r == if m.battles_fought == 0 {
                    0int
                } else {
                    (m.battles_won * 100) as int / m.battles_fought as int
                }
            }),
            r <= 100,
    {
        match self.analytics.hero_metrics.get(hero_id) {
            Some(m) => {
                if m.battles_fought == 0 {
                    0
                } else {
                    proof {
                        assert(m.battles_won <= m.battles_fought);
                        let w = m.battles_won as int;
                        let f = m.battles_fought as int;
                        assert(w * 100 <= f * 100) by (nonlinear_arith)
                            requires
                                w <= f,
                        ;
                        assert((w * 100) / f <= (f * 100) / f) by (nonlinear_arith)
                            requires
                                f >= 1,
                                w * 100 <= f * 100,
                        ;
                        assert((f * 100) / f == 100) by (nonlinear_arith)
                            requires
                                f >= 1,
                        ;
                    }
                    let wide: u128 = (m.battles_won as u128) * 100;
                    let rate: u128 = wide / (m.battles_fought as u128);
                    rate as u32
                }
            },
            None => 0,
        }
    }

    /// The player's rank tier from an activity score: activity plus twice the
    /// transaction count (saturating); above one thousand is tier one, above
    /// five hundred tier two, above one hundred tier three, else tier four.
    pub fn get_player_ranking(&self, player: u64) -> (r: u32)
        requires
            self.wf(),
        ensures
            ({
                let activity = self.analytics.spec_player_activity(player);
                let tx = self.analytics.spec_player_tx_count(player);
                let score = sadd64(activity, if tx > u64::MAX / 2 {
                    u64::MAX
                } else {
                    (tx * 2) as u64
                });
                r == if score > 1000 {
                    1int
                } else if score > 500 {
                    2int
                } else if score > 100 {
                    3int
                } else {
                    4int
                }
            }),
    {
        let (activity, _last, tx, _spend) = self.get_player_stats(player);
        let doubled: u64 = if tx > u64::MAX / 2 {
            u64::MAX
        } else {
            tx * 2
        };
        let score = sat_add_u64(activity, doubled);
        if score > 1000 {
            1
        } else if score > 500 {
            2
        } else if score > 100 {
            3
        } else {
            4
        }
    }

    /// The revenue grand total, as exposed by the analytics surface.
    pub fn get_total_revenue_stat(&self) -> (r: u128)
        ensures
            r == self.revenue.spec_total(),
    {
        self.revenue.total()
    }

    /// The cumulative revenue of one category.
    pub fn get_revenue_by_category(&self, category: &String) -> (r: u128)
        requires
            self.wf(),
        ensures
            r == self.revenue.spec_by_category(category@),
    {
        self.revenue.by_category(category)
    }

    /// Zeroes every global counter — battles, transactions, experience,
    /// damage, battle time and the stored average; per-hero, per-player,
    /// per-day and per-type tables are kept. Owner only, and only with the
    /// explicit confirmation flag.
    pub fn reset_analytics(&mut self, caller: u64, confirm: bool) -> (r: Result<(), GameError>)
        requires
            old(self).wf(),
        ensures
            final(self).wf(),
            match r {
                Err(e) => (e == GameError::Unauthorized && caller != old(self).owner || e
                    == GameError::GateNotMet && caller == old(self).owner && !confirm) && *final(self) == *old(self),
                Ok(()) => {
                    &&& caller == old(self).owner
                    &&& confirm
                    &&& final(self).analytics.total_battles == 0
                    &&& final(self).analytics.total_transactions == 0
                    &&& final(self).analytics.total_exp_gained == 0
                    &&& final(self).analytics.total_damage_in_game == 0
                    &&& final(self).analytics.total_battle_time == 0
                    &&& final(self).analytics.total_damage_dealt == 0
                    &&& final(self).analytics.average_battle_duration == 0
                    &&& final(self).analytics.hero_metrics == old(self).analytics.hero_metrics
                    &&& final(self).analytics.player_metrics == old(self).analytics.player_metrics
                    &&& final(self).analytics.daily == old(self).analytics.daily
                    &&& final(self).analytics.action_count == old(self).analytics.action_count
                    &&& final(self).analytics.tx_count_by_type == old(self).analytics.tx_count_by_type
                    &&& final(self).analytics.tx_volume_by_type == old(self).analytics.tx_volume_by_type
                    &&& final(self).analytics.tx_volume == old(self).analytics.tx_volume
                    &&& final(self).events@ == old(self).events@.push(
                        Notification::AnalyticsReset { by: caller },
                    )
                },
            },
            Self::same_admin(*old(self), *final(self)),
            Self::same_heroes(*old(self), *final(self)),
            Self::same_requests(*old(self), *final(self)),
            final(self).revenue == old(self).revenue,
    {
        if caller != self.owner {
            return Err(GameError::Unauthorized);
        }
        if !confirm {
            return Err(GameError::GateNotMet);
        }
        self.analytics.total_battles = 0;
        self.analytics.total_transactions = 0;
        self.analytics.total_exp_gained = 0;
        self.analytics.total_damage_in_game = 0;
        self.analytics.total_battle_time = 0;
        self.analytics.total_damage_dealt = 0;
        self.analytics.average_battle_duration = 0;
        self.events.push(Notification::AnalyticsReset { by: caller });
        Ok(())
    }

    /// A small textual summary of one analytics area, for export: the battle
    /// or transaction total rendered in decimal, or a fixed message for an
    /// unknown area. Owner only.
    pub fn export_analytics_data(&self, caller: u64, data_type: &String) -> (r: Result<
        Vec<u8>,
        GameError,
    >)
        requires
            self.wf(),
        ensures
            match r {
                Err(e) => e == GameError::Unauthorized && caller != self.owner,
                Ok(out) => {
                    &&& caller == self.owner
                    &&& (data_type@ == "battles"@ ==> out@ == "Total battles: ".spec_bytes()
                        + spec_dec_digits(self.analytics.total_battles as nat))
                    &&& (data_type@ == "economy"@ ==> out@ == "Total transactions: ".spec_bytes()
                        + spec_dec_digits(self.analytics.total_transactions as nat))
                    &&& (data_type@ != "battles"@ && data_type@ != "economy"@ ==> out@
                        == "Invalid data type".spec_bytes())
                },
            },
    {
        if caller != self.owner {
            return Err(GameError::Unauthorized);
        }
        proof {
            reveal_strlit("battles");
            reveal_strlit("economy");
        }
        let battles_label = String::from_str("battles");
        let economy_label = String::from_str("economy");
        let mut out: Vec<u8> = Vec::new();
        if data_type.eq(&battles_label) {
            push_str_bytes(&mut out, "Total battles: ");
            push_dec(&mut out, self.analytics.total_battles);
            proof {
                assert(out@ =~= "Total battles: ".spec_bytes() + spec_dec_digits(
                    self.analytics.total_battles as nat,
                ));
                assert(data_type@ == "battles"@);
                assert("battles"@.index(0) == 'b');
                assert("economy"@.index(0) == 'e');
                assert(data_type@ != "economy"@);
            }
        } else if data_type.eq(&economy_label) {
            push_str_bytes(&mut out, "Total transactions: ");
            push_dec(&mut out, self.analytics.total_transactions);
            proof {
                assert(out@ =~= "Total transactions: ".spec_bytes() + spec_dec_digits(
                    self.analytics.total_transactions as nat,
                ));
            }
        } else {
            push_str_bytes(&mut out, "Invalid data type");
            proof {
                assert(out@ =~= "Invalid data type".spec_bytes());
            }
        }
        Ok(out)
    }
}


impl AIHeroesContract {
    /// Whether a hero takes part in the performance ranking: a minted
    /// identifier with at least one fought battle on record.
    pub open spec fn spec_ranked(self, id: u64) -> bool {
        &&& 1 <= id <= self.hero_count
        &&& self.analytics.hero_metrics@.contains_key(id)
        &&& self.analytics.hero_metrics@[id].battles_fought > 0
    }

    /// A ranked hero's performance score: its win percentage plus a tenth of
    /// its memoized average damage per battle.
    pub open spec fn spec_score(self, id: u64) -> int {
        let m = self.analytics.hero_metrics@[id];
        (m.battles_won * 100) as int / (m.battles_fought as int) + (
        m.avg_damage_per_battle as int) / 10
    }

    /// The ranking order: a strictly higher score wins, and on equal scores
    /// the lower identifier wins.
    pub open spec fn spec_outranks(self, a: u64, b: u64) -> bool {
        self.spec_score(a) > self.spec_score(b) || (self.spec_score(a) == self.spec_score(b) && a
            < b)
    }

    /// How many of the identifiers one to `n` are ranked.
    pub open spec fn spec_ranked_count(self, n: int) -> int
        decreases n,
    {
        if n <= 0 {
            0
        } else {
            self.spec_ranked_count(n - 1) + if self.spec_ranked(n as u64) {
                1int
            } else {
                0int
            }
        }
    }

    /// A ranked hero's performance score.
    fn hero_score(&self, id: u64) -> (s: u64)
        requires
            self.wf(),
            self.analytics.hero_metrics@.contains_key(id),
            self.analytics.hero_metrics@[id].battles_fought > 0,
        ensures
            s as int == self.spec_score(id),
    {
        match self.analytics.hero_metrics.get(id) {
            Some(m) => {
                proof {
                    assert(m.battles_won <= m.battles_fought);
                    let w = m.battles_won as int;
                    let f = m.battles_fought as int;
                    assert(w * 100 <= f * 100) by (nonlinear_arith)
                        requires
                            w <= f,
                    ;
                    assert((w * 100) / f <= (f * 100) / f) by (nonlinear_arith)
                        requires
                            f >= 1,
                            w * 100 <= f * 100,
                    ;
                    assert((f * 100) / f == 100) by (nonlinear_arith)
                        requires
                            f >= 1,
                    ;
                }
                let win_rate: u128 = ((m.battles_won as u128) * 100) / (m.battles_fought as u128);
                let tenth: u64 = m.avg_damage_per_battle / 10;
                (win_rate as u64) + tenth
            },
            None => {
                proof {
                    assert(false);
                }
                0
            },
        }
    }

    /// Whether hero `a` outranks hero `b`.
    fn outranks(&self, a: u64, b: u64) -> (r: bool)
        requires
            self.wf(),
            self.analytics.hero_metrics@.contains_key(a),
            self.analytics.hero_metrics@[a].battles_fought > 0,
            self.analytics.hero_metrics@.contains_key(b),
            self.analytics.hero_metrics@[b].battles_fought > 0,
        ensures
            r == self.spec_outranks(a, b),
    {
        let sa = self.hero_score(a);
        let sb = self.hero_score(b);
        sa > sb || (sa == sb && a < b)
    }

    /// Up to `limit` hero identifiers, best performance first: every returned
    /// hero is ranked, the list is strictly ordered by descending score with
    /// the lower identifier breaking ties, its length is the smaller of the
    /// limit and the number of ranked heroes, and every ranked hero left out
    /// is outranked by every hero returned.
    pub fn get_top_performing_heroes(&self, limit: u32) -> (r: Vec<u64>)
        requires
            self.wf(),
        ensures
            r@.no_duplicates(),
            forall|i: int| 0 <= i < r@.len() ==> self.spec_ranked(#[trigger] r@[i]),
            forall|i: int, j: int| 0 <= i < j < r@.len() ==> self.spec_outranks(r@[i], r@[j]),
            r@.len() == if (limit as int) <= self.spec_ranked_count(self.hero_count as int) {
                limit as int
            } else {
                self.spec_ranked_count(self.hero_count as int)
            },
            forall|q: u64|
                self.spec_ranked(q) && !r@.contains(q) ==> (forall|i: int|
                    0 <= i < r@.len() ==> self.spec_outranks(#[trigger] r@[i], q)),
    {
        // collect the ranked identifiers in ascending order
        let mut ids: Vec<u64> = Vec::new();
        let total = self.hero_count;
        let mut i: u64 = 0;
        while i < total
            invariant
                self.wf(),
                total == self.hero_count,
                i <= total,
                ids@.len() == self.spec_ranked_count(i as int),
                ids@.no_duplicates(),
                forall|k: int| 0 <= k < ids@.len() ==> 1 <= #[trigger] ids@[k] <= i,
                forall|h: u64|
                    #[trigger] ids@.contains(h) <==> (h <= i && self.spec_ranked(h)),
            decreases total - i,
        {
            let id = i + 1;
            let qualifies = match self.analytics.hero_metrics.get(id) {
                Some(m) => m.battles_fought > 0,
                None => false,
            };
            if qualifies {
                let ghost pre = ids@;
                ids.push(id);
                proof {
                    assert forall|h: u64| #[trigger] ids@.contains(h) implies (h <= id
                        && self.spec_ranked(h)) by {
                        let k = choose|k: int| 0 <= k < ids@.len() && ids@[k] == h;
                        if k < ids@.len() - 1 {
                            assert(pre[k] == h);
                            assert(pre.contains(h));
                        }
                    }
                    assert forall|h: u64| (h <= id && self.spec_ranked(h)) implies
                        #[trigger] ids@.contains(h) by {
                        if h <= i {
                            assert(pre.contains(h));
                            let k = choose|k: int| 0 <= k < pre.len() && pre[k] == h;
                            assert(ids@[k] == h);
                        } else {
                            assert(ids@.last() == id);
                        }
                    }
                }
            } else {
                proof {
                    assert forall|h: u64| (h <= id && self.spec_ranked(h)) implies
                        #[trigger] ids@.contains(h) by {
                        if h == id {
                            assert(false);
                        }
                    }
                }
            }
            i = id;
        }
        proof {
            assert forall|h: u64| #[trigger] ids@.contains(h) <==> self.spec_ranked(h) by {}
        }

        // selection sort: best performance first
        let n = ids.len();
        let mut s: usize = 0;
        while s < n
            invariant
                self.wf(),
                n == ids@.len(),
                s <= n,
                ids@.no_duplicates(),
                forall|h: u64| #[trigger] ids@.contains(h) <==> self.spec_ranked(h),
                forall|a: int, b: int| 0 <= a < b < s ==> self.spec_outranks(ids@[a], ids@[b]),
                forall|a: int, b: int|
                    0 <= a < s <= b < n ==> self.spec_outranks(ids@[a], ids@[b]),
            decreases n - s,
        {
            let mut best: usize = s;
            let mut j: usize = s + 1;
            proof {
                assert(ids@.contains(ids@[s as int]));
            }
            while j < n
                invariant
                    self.wf(),
                    n == ids@.len(),
                    s <= best < n,
                    s < j <= n,
                    s <= best < j,
                    ids@.no_duplicates(),
                    forall|h: u64| #[trigger] ids@.contains(h) <==> self.spec_ranked(h),
                    forall|k: int|
                        s <= k < j && k != best ==> self.spec_outranks(
                            ids@[best as int],
                            #[trigger] ids@[k],
                        ),
                decreases n - j,
            {
                proof {
                    assert(ids@.contains(ids@[j as int]));
                    assert(ids@.contains(ids@[best as int]));
                }
                if self.outranks(ids[j], ids[best]) {
                    proof {
                        assert forall|k: int|
                            s <= k < j + 1 && k != j implies self.spec_outranks(
                            ids@[j as int],
                            #[trigger] ids@[k],
                        ) by {
                            if k == best {
                            } else {
                                // transitivity of the ranking order
                                assert(self.spec_outranks(ids@[best as int], ids@[k]));
                            }
                        }
                    }
                    best = j;
                }
                j = j + 1;
            }
            // move the best remaining hero to position s
            let ghost pre = ids@;
            let tmp_s = ids[s];
            let tmp_b = ids[best];
            ids.set(s, tmp_b);
            ids.set(best, tmp_s);
            proof {
                let post = ids@;
                assert(post.len() == pre.len());
                // the swap permutes the same elements
                assert forall|h: u64| #[trigger] post.contains(h) implies pre.contains(h) by {
                    let k = choose|k: int| 0 <= k < post.len() && post[k] == h;
                    if k == s as int {
                        assert(pre[best as int] == h);
                    } else if k == best as int {
                        assert(pre[s as int] == h);
                    } else {
                        assert(pre[k] == h);
                    }
                }
                assert forall|h: u64| #[trigger] pre.contains(h) implies post.contains(h) by {
                    let k = choose|k: int| 0 <= k < pre.len() && pre[k] == h;
                    if k == s as int {
                        assert(post[best as int] == h);
                    } else if k == best as int {
                        assert(post[s as int] == h);
                    } else {
                        assert(post[k] == h);
                    }
                }
                assert forall|h: u64| #[trigger] post.contains(h) <==> self.spec_ranked(h) by {
                    if post.contains(h) {
                        assert(pre.contains(h));
                    }
                    if self.spec_ranked(h) {
                        assert(pre.contains(h));
                        assert(post.contains(h));
                    }
                }
                assert(post.no_duplicates()) by {
                    assert forall|p: int, q: int|
                        0 <= p < q < post.len() implies post[p] != post[q] by {
                        let p2: int = if p == s as int {
                            best as int
                        } else if p == best as int {
                            s as int
                        } else {
                            p
                        };
                        let q2: int = if q == s as int {
                            best as int
                        } else if q == best as int {
                            s as int
                        } else {
                            q
                        };
                        assert(post[p] == pre[p2] && post[q] == pre[q2]);
                        assert(p2 != q2);
                    }
                }
            }
            s = s + 1;
        }

        // truncate to the requested limit
        let keep: usize = if (limit as usize) <= n {
            limit as usize
        } else {
            n
        };
        let mut result: Vec<u64> = Vec::new();
        let mut t: usize = 0;
        while t < keep
            invariant
                keep <= n,
                n == ids@.len(),
                t <= keep,
                result@.len() == t,
                forall|k: int| 0 <= k < t ==> #[trigger] result@[k] == ids@[k],
            decreases keep - t,
        {
            result.push(ids[t]);
            t = t + 1;
        }
        proof {
            assert(result@ =~= ids@.take(keep as int));
            assert(result@.no_duplicates());
            assert forall|k: int| 0 <= k < result@.len() implies self.spec_ranked(
                #[trigger] result@[k],
            ) by {
                assert(ids@.contains(ids@[k]));
            }
            assert forall|q: u64|
                self.spec_ranked(q) && !result@.contains(q) implies (forall|k: int|
                    0 <= k < result@.len() ==> self.spec_outranks(
                        #[trigger] result@[k],
                        q,
                    )) by {
                assert(ids@.contains(q));
                let p = choose|p: int| 0 <= p < ids@.len() && ids@[p] == q;
                assert(p >= keep) by {
                    if p < keep {
                        assert(result@[p] == q);
                        assert(result@.contains(q));
                    }
                }
                assert forall|k: int| 0 <= k < result@.len() implies self.spec_outranks(
                    #[trigger] result@[k],
                    q,
                ) by {
                    assert(result@[k] == ids@[k]);
                    assert(self.spec_outranks(ids@[k], ids@[p]));
                }
            }
        }
        result
    }
}

} // verus!
