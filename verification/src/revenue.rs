//! The revenue ledger: cumulative fee totals per category plus a grand total.
//! Invariant: the grand total always equals the sum of the category totals,
//! and totals never decrease.

use vstd::prelude::*;

verus! {

/// Sum of the totals in a category list.
pub open spec fn sum_category_totals(s: Seq<(Seq<char>, u128)>) -> int
    decreases s.len(),
{
    if s.len() == 0 {
        0
    } else {
        sum_category_totals(s.drop_last()) + s.last().1
    }
}

/// Category label paired with its cumulative total.
pub struct RevenueLedger {
    pairs: Vec<(String, u128)>,
    m: Ghost<Map<Seq<char>, u128>>,
    total: u128,
}

impl View for RevenueLedger {
    type V = Map<Seq<char>, u128>;

    closed spec fn view(&self) -> Map<Seq<char>, u128> {
        self.m@
    }
}

/// Sum of a prefix of the category list.
proof fn lemma_sum_update(s: Seq<(Seq<char>, u128)>, i: int, v: (Seq<char>, u128))
    requires
        0 <= i < s.len(),
    ensures
        sum_category_totals(s.update(i, v)) == sum_category_totals(s) - s[i].1 + v.1,
    decreases s.len(),
{
    if i == s.len() - 1 {
        assert(s.update(i, v).drop_last() =~= s.drop_last());
        assert(s.update(i, v).last() == v);
    } else {
        assert(s.update(i, v).drop_last() =~= s.drop_last().update(i, v));
        assert(s.update(i, v).last() == s.last());
        lemma_sum_update(s.drop_last(), i, v);
    }
}

proof fn lemma_sum_push(s: Seq<(Seq<char>, u128)>, v: (Seq<char>, u128))
    ensures
        sum_category_totals(s.push(v)) == sum_category_totals(s) + v.1,
{
    assert(s.push(v).drop_last() =~= s);
    assert(s.push(v).last() == v);
}

proof fn lemma_sum_nonneg(s: Seq<(Seq<char>, u128)>)
    ensures
        sum_category_totals(s) >= 0,
    decreases s.len(),
{
    if s.len() > 0 {
        lemma_sum_nonneg(s.drop_last());
    }
}

proof fn lemma_entry_le_sum(s: Seq<(Seq<char>, u128)>, i: int)
    requires
        0 <= i < s.len(),
    ensures
        s[i].1 <= sum_category_totals(s),
    decreases s.len(),
{
    if i == s.len() - 1 {
        lemma_sum_nonneg(s.drop_last());
    } else {
        lemma_entry_le_sum(s.drop_last(), i);
        assert(s.drop_last()[i] == s[i]);
    }
}

impl RevenueLedger {
    /// The stored category pairs, abstracted to byte-sequence labels.
    pub closed spec fn categories(self) -> Seq<(Seq<char>, u128)> {
        self.pairs@.map_values(|p: (String, u128)| (p.0@, p.1))
    }

    /// The grand total across all categories.
    pub closed spec fn spec_total(self) -> u128 {
        self.total
    }

    /// The cumulative total of one category; zero when it was never charged.
    pub open spec fn spec_by_category(self, category: Seq<char>) -> u128 {
        if self@.contains_key(category) {
            self@[category]
        } else {
            0
        }
    }

    /// Labels are unique, the map view matches the stored pairs, and the
    /// grand total equals the sum of the per-category totals.
    pub closed spec fn wf(self) -> bool {
        &&& forall|i: int, j: int|
            0 <= i < j < self.pairs@.len() ==> (#[trigger] self.pairs@[i]).0@ != (
            #[trigger] self.pairs@[j]).0@
        &&& forall|i: int|
            0 <= i < self.pairs@.len() ==> self.m@.contains_key((#[trigger] self.pairs@[i]).0@)
                && self.m@[self.pairs@[i].0@] == self.pairs@[i].1
        &&& forall|k: Seq<char>|
            self.m@.contains_key(k) ==> exists|i: int|
                0 <= i < self.pairs@.len() && (#[trigger] self.pairs@[i]).0@ == k
        &&& self.total == sum_category_totals(self.categories())
    }

    /// The law of the ledger: under the invariant, the grand total equals the
    /// sum of all per-category totals.
    pub proof fn lemma_grand_total_is_category_sum(self)
        requires
            self.wf(),
        ensures
            self.spec_total() == sum_category_totals(self.categories()),
    {
    }

    pub fn new() -> (l: Self)
        ensures
            l.wf(),
            l@ == Map::<Seq<char>, u128>::empty(),
            l.spec_total() == 0,
    {
        let l = RevenueLedger { pairs: Vec::new(), m: Ghost(Map::empty()), total: 0 };
        proof {
            assert(l.categories() =~= Seq::<(Seq<char>, u128)>::empty());
        }
        l
    }

    /// Index of the pair holding `category`, if any.
    fn find(&self, category: &String) -> (r: Option<usize>)
        ensures
            match r {
                Some(i) => i < self.pairs@.len() && self.pairs@[i as int].0@ == category@,
                None => forall|j: int|
                    0 <= j < self.pairs@.len() ==> (#[trigger] self.pairs@[j]).0@ != category@,
            },
    {
        let n = self.pairs.len();
        let mut i: usize = 0;
        while i < n
            invariant
                n == self.pairs@.len(),
                i <= n,
                forall|j: int| 0 <= j < i ==> (#[trigger] self.pairs@[j]).0@ != category@,
            decreases n - i,
    {
            if self.pairs[i].0.eq(category) {
                return Some(i);
            }
            i = i + 1;
        }
        None
    }

    /// The grand total.
    pub fn total(&self) -> (r: u128)
        ensures
            r == self.spec_total(),
    {
        self.total
    }

    /// The cumulative total of one category.
    pub fn by_category(&self, category: &String) -> (r: u128)
        requires
            self.wf(),
        ensures
            r == self.spec_by_category(category@),
    {
        match self.find(category) {
            Some(i) => self.pairs[i].1,
            None => {
                proof {
                    if self.m@.contains_key(category@) {
                        let i = choose|i: int|
                            0 <= i < self.pairs@.len() && (#[trigger] self.pairs@[i]).0@
                                == category@;
                        assert(self.pairs@[i].0@ == category@);
                    }
                }
                0
            },
        }
    }

    /// Adds `amount` to the category's total and to the grand total, both or
    /// neither: when the grand total would exceed the representable range the
    /// ledger is left unchanged and `recorded` is false.
    pub fn record(&mut self, category: String, amount: u128) -> (recorded: bool)
        requires
            old(self).wf(),
        ensures
            final(self).wf(),
            recorded == (old(self).spec_total() + amount <= u128::MAX),
            recorded ==> final(self)@ == old(self)@.insert(
                category@,
                (old(self).spec_by_category(category@) + amount) as u128,
            ) && final(self).spec_total() == old(self).spec_total() + amount,
            !recorded ==> *final(self) == *old(self),
    {
        if amount > u128::MAX - self.total {
            return false;
        }
        let found = self.find(&category);
        proof {
            self.m = Ghost(
                self.m@.insert(category@, (old(self).spec_by_category(category@) + amount) as u128),
            );
        }
        self.total = self.total + amount;
        match found {
            Some(i) => {
                proof {
                    lemma_entry_le_sum(old(self).categories(), i as int);
                    assert(old(self).categories()[i as int].1 == old(self).pairs@[i as int].1);
                }
                let ghost key_view = category@;
                let prior = self.pairs[i].1;
                self.pairs.set(i, (category, prior + amount));
                proof {
                    let s0 = old(self).pairs@;
                    let s1 = self.pairs@;
                    assert forall|k2: Seq<char>| self.m@.contains_key(k2) implies exists|j: int|
                        0 <= j < s1.len() && (#[trigger] s1[j]).0@ == k2 by {
                        if k2 == key_view {
                            assert(s1[i as int].0@ == k2);
                        } else {
                            let j = choose|j: int| 0 <= j < s0.len() && (#[trigger] s0[j]).0@ == k2;
                            assert(s1[j].0@ == k2);
                        }
                    }
                    assert(self.categories() =~= old(self).categories().update(
                        i as int,
                        (key_view, (old(self).spec_by_category(key_view) + amount) as u128),
                    ));
                    lemma_sum_update(
                        old(self).categories(),
                        i as int,
                        (key_view, (old(self).spec_by_category(key_view) + amount) as u128),
                    );
                }
            },
            None => {
                let ghost key_view = category@;
                proof {
                    if old(self).m@.contains_key(key_view) {
                        let i = choose|i: int|
                            0 <= i < old(self).pairs@.len() && (#[trigger] old(
                                self,
                            ).pairs@[i]).0@ == key_view;
                        assert(old(self).pairs@[i].0@ == key_view);
                    }
                }
                self.pairs.push((category, amount));
                proof {
                    let s0 = old(self).pairs@;
                    let s1 = self.pairs@;
                    assert forall|k2: Seq<char>| self.m@.contains_key(k2) implies exists|j: int|
                        0 <= j < s1.len() && (#[trigger] s1[j]).0@ == k2 by {
                        if k2 == key_view {
                            assert(s1[s1.len() - 1].0@ == k2);
                        } else {
                            let j = choose|j: int| 0 <= j < s0.len() && (#[trigger] s0[j]).0@ == k2;
                            assert(s1[j].0@ == k2);
                        }
                    }
                    assert(self.categories() =~= old(self).categories().push(
                        (key_view, amount),
                    ));
                    lemma_sum_push(old(self).categories(), (key_view, amount));
                }
            },
        }
        true
    }
}

} // verus!
