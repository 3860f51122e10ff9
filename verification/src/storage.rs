//! In-memory typed key-value stores standing in for the host's persistent
//! storage: a map keyed by `u64`, a map keyed by strings, and a set of
//! `u64` values. Each is an association vector with a mathematical view.

use vstd::prelude::*;

use crate::util::copy_u64s;

verus! {

/// A map from `u64` keys to values of any type, viewed as `Map<u64, V>`.
pub struct Table<V> {
    pairs: Vec<(u64, V)>,
    m: Ghost<Map<u64, V>>,
}

impl<V> View for Table<V> {
    type V = Map<u64, V>;

    closed spec fn view(&self) -> Map<u64, V> {
        self.m@
    }
}

impl<V> Table<V> {
    /// The association vector matches the map view: keys are unique, every
    /// stored pair is in the map, and every map entry is stored.
    pub closed spec fn wf(self) -> bool {
        &&& forall|i: int, j: int|
            0 <= i < j < self.pairs@.len() ==> (#[trigger] self.pairs@[i]).0 != (
            #[trigger] self.pairs@[j]).0
        &&& forall|i: int|
            0 <= i < self.pairs@.len() ==> self.m@.contains_key((#[trigger] self.pairs@[i]).0)
                && self.m@[self.pairs@[i].0] == self.pairs@[i].1
        &&& forall|k: u64|
            self.m@.contains_key(k) ==> exists|i: int|
                0 <= i < self.pairs@.len() && (#[trigger] self.pairs@[i]).0 == k
    }

    pub fn new() -> (t: Self)
        ensures
            t.wf(),
            t@ == Map::<u64, V>::empty(),
    {
        Table { pairs: Vec::new(), m: Ghost(Map::empty()) }
    }

    /// Index of the pair holding key `k`, if any.
    fn find(&self, k: u64) -> (r: Option<usize>)
        ensures
            match r {
                Some(i) => i < self.pairs@.len() && self.pairs@[i as int].0 == k,
                None => forall|j: int|
                    0 <= j < self.pairs@.len() ==> (#[trigger] self.pairs@[j]).0 != k,
            },
    {
        let n = self.pairs.len();
        let mut i: usize = 0;
        while i < n
            invariant
                n == self.pairs@.len(),
                i <= n,
                forall|j: int| 0 <= j < i ==> (#[trigger] self.pairs@[j]).0 != k,
            decreases n - i,
        {
            if self.pairs[i].0 == k {
                return Some(i);
            }
            i = i + 1;
        }
        None
    }

    /// The value stored under `k`, if any.
    pub fn get(&self, k: u64) -> (r: Option<&V>)
        requires
            self.wf(),
        ensures
            match r {
                Some(v) => self@.contains_key(k) && *v == self@[k],
                None => !self@.contains_key(k),
            },
    {
        match self.find(k) {
            Some(i) => Some(&self.pairs[i].1),
            None => {
                proof {
                    if self.m@.contains_key(k) {
                        let i = choose|i: int|
                            0 <= i < self.pairs@.len() && (#[trigger] self.pairs@[i]).0 == k;
                        assert(self.pairs@[i].0 == k);
                    }
                }
                None
            },
        }
    }

    /// Whether a value is stored under `k`.
    pub fn contains(&self, k: u64) -> (r: bool)
        requires
            self.wf(),
        ensures
            r == self@.contains_key(k),
    {
        match self.get(k) {
            Some(_) => true,
            None => false,
        }
    }

    /// Stores `v` under `k`, replacing any earlier value.
    pub fn insert(&mut self, k: u64, v: V)
        requires
            old(self).wf(),
        ensures
            final(self).wf(),
            final(self)@ == old(self)@.insert(k, v),
    {
        let found = self.find(k);
        proof {
            self.m = Ghost(self.m@.insert(k, v));
        }
        match found {
            Some(i) => {
                self.pairs.set(i, (k, v));
                proof {
                    let s0 = old(self).pairs@;
                    let s1 = self.pairs@;
                    assert forall|k2: u64| self.m@.contains_key(k2) implies exists|j: int|
                        0 <= j < s1.len() && (#[trigger] s1[j]).0 == k2 by {
                        if k2 == k {
                            assert(s1[i as int].0 == k2);
                        } else {
                            let j = choose|j: int| 0 <= j < s0.len() && (#[trigger] s0[j]).0 == k2;
                            assert(s1[j].0 == k2);
                        }
                    }
                }
            },
            None => {
                self.pairs.push((k, v));
                proof {
                    let s0 = old(self).pairs@;
                    let s1 = self.pairs@;
                    assert forall|k2: u64| self.m@.contains_key(k2) implies exists|j: int|
                        0 <= j < s1.len() && (#[trigger] s1[j]).0 == k2 by {
                        if k2 == k {
                            assert(s1[s1.len() - 1].0 == k2);
                        } else {
                            let j = choose|j: int| 0 <= j < s0.len() && (#[trigger] s0[j]).0 == k2;
                            assert(s1[j].0 == k2);
                        }
                    }
                }
            },
        }
    }

    /// Removes and returns the value stored under `k`.
    pub fn take(&mut self, k: u64) -> (v: V)
        requires
            old(self).wf(),
            old(self)@.contains_key(k),
        ensures
            final(self).wf(),
            v == old(self)@[k],
            final(self)@ == old(self)@.remove(k),
    {
        proof {
            self.m = Ghost(self.m@.remove(k));
        }
        let found = self.find(k);
        match found {
            Some(i) => {
                let pair = self.pairs.swap_remove(i);
                proof {
                    let s0 = old(self).pairs@;
                    let s1 = self.pairs@;
                    assert(s1 =~= s0.update(i as int, s0.last()).drop_last());
                    assert forall|k2: u64| self.m@.contains_key(k2) implies exists|j: int|
                        0 <= j < s1.len() && (#[trigger] s1[j]).0 == k2 by {
                        let j = choose|j: int| 0 <= j < s0.len() && (#[trigger] s0[j]).0 == k2;
                        if j == s0.len() - 1 {
                            assert(s1[i as int].0 == k2);
                        } else {
                            assert(s1[j].0 == k2);
                        }
                    }
                }
                pair.1
            },
            None => {
                proof {
                    let i = choose|i: int|
                        0 <= i < old(self).pairs@.len() && (#[trigger] old(self).pairs@[i]).0 == k;
                    assert(old(self).pairs@[i].0 == k);
                    assert(false);
                }
                // unreachable: the key is present by the precondition
                loop
                    invariant
                        false,
                    decreases 0int,
                {
                }
            },
        }
    }
}

/// A map from string keys to values of any type, viewed as
/// `Map<Seq<char>, V>`.
pub struct StrTable<V> {
    pairs: Vec<(String, V)>,
    m: Ghost<Map<Seq<char>, V>>,
}

impl<V> View for StrTable<V> {
    type V = Map<Seq<char>, V>;

    closed spec fn view(&self) -> Map<Seq<char>, V> {
        self.m@
    }
}

impl<V> StrTable<V> {
    /// The association vector matches the map view.
    pub closed spec fn wf(self) -> bool {
        &&& forall|i: int, j: int|
            0 <= i < j < self.pairs@.len() ==> (#[trigger] self.pairs@[i]).0@ != (
            #[trigger] self.pairs@[j]).0@
        &&& forall|i: int|
            0 <= i < self.pairs@.len() ==> self.m@.contains_key((#[trigger] self.pairs@[i]).0@)
                && self.m@[self.pairs@[i].0@] == self.pairs@[i].1
        &&& forall|k: Seq<char>|
            self.m@.contains_key(k) ==> exists|i: int|
                0 <= i < self.pairs@.len() && (#[trigger] self.pairs@[i]).0@ == k
    }

    pub fn new() -> (t: Self)
        ensures
            t.wf(),
            t@ == Map::<Seq<char>, V>::empty(),
    {
        StrTable { pairs: Vec::new(), m: Ghost(Map::empty()) }
    }

    /// Index of the pair holding key `k`, if any.
    fn find(&self, k: &String) -> (r: Option<usize>)
        ensures
            match r {
                Some(i) => i < self.pairs@.len() && self.pairs@[i as int].0@ == k@,
                None => forall|j: int|
                    0 <= j < self.pairs@.len() ==> (#[trigger] self.pairs@[j]).0@ != k@,
            },
    {
        let n = self.pairs.len();
        let mut i: usize = 0;
        while i < n
            invariant
                n == self.pairs@.len(),
                i <= n,
                forall|j: int| 0 <= j < i ==> (#[trigger] self.pairs@[j]).0@ != k@,
            decreases n - i,
        {
            if self.pairs[i].0.eq(k) {
                return Some(i);
            }
            i = i + 1;
        }
        None
    }

    /// The value stored under `k`, if any.
    pub fn get(&self, k: &String) -> (r: Option<&V>)
        requires
            self.wf(),
        ensures
            match r {
                Some(v) => self@.contains_key(k@) && *v == self@[k@],
                None => !self@.contains_key(k@),
            },
    {
        match self.find(k) {
            Some(i) => Some(&self.pairs[i].1),
            None => {
                proof {
                    if self.m@.contains_key(k@) {
                        let i = choose|i: int|
                            0 <= i < self.pairs@.len() && (#[trigger] self.pairs@[i]).0@ == k@;
                        assert(self.pairs@[i].0@ == k@);
                    }
                }
                None
            },
        }
    }

    /// Whether a value is stored under `k`.
    pub fn contains(&self, k: &String) -> (r: bool)
        requires
            self.wf(),
        ensures
            r == self@.contains_key(k@),
    {
        match self.get(k) {
            Some(_) => true,
            None => false,
        }
    }

    /// Stores `v` under `k`, replacing any earlier value.
    pub fn insert(&mut self, k: String, v: V)
        requires
            old(self).wf(),
        ensures
            final(self).wf(),
            final(self)@ == old(self)@.insert(k@, v),
    {
        let found = self.find(&k);
        proof {
            self.m = Ghost(self.m@.insert(k@, v));
        }
        match found {
            Some(i) => {
                let ghost key_view = k@;
                self.pairs.set(i, (k, v));
                proof {
                    let s0 = old(self).pairs@;
                    let s1 = self.pairs@;
                    assert forall|k2: Seq<char>| self.m@.contains_key(k2) implies exists|j: int|
                        0 <= j < s1.len() && (#[trigger] s1[j]).0@ == k2 by {
                        if k2 == key_view {
                            assert(s1[i as int].0@ == k2);
                        } else {
                            let j = choose|j: int| 0 <= j < s0.len() && (#[trigger] s0[j]).0@ == k2;
                            assert(s1[j].0@ == k2);
                        }
                    }
                }
            },
            None => {
                let ghost key_view = k@;
                self.pairs.push((k, v));
                proof {
                    let s0 = old(self).pairs@;
                    let s1 = self.pairs@;
                    assert forall|k2: Seq<char>| self.m@.contains_key(k2) implies exists|j: int|
                        0 <= j < s1.len() && (#[trigger] s1[j]).0@ == k2 by {
                        if k2 == key_view {
                            assert(s1[s1.len() - 1].0@ == k2);
                        } else {
                            let j = choose|j: int| 0 <= j < s0.len() && (#[trigger] s0[j]).0@ == k2;
                            assert(s1[j].0@ == k2);
                        }
                    }
                }
            },
        }
    }

    /// Removes and returns the value stored under `k`.
    pub fn take(&mut self, k: &String) -> (v: V)
        requires
            old(self).wf(),
            old(self)@.contains_key(k@),
        ensures
            final(self).wf(),
            v == old(self)@[k@],
            final(self)@ == old(self)@.remove(k@),
    {
        proof {
            self.m = Ghost(self.m@.remove(k@));
        }
        let found = self.find(k);
        match found {
            Some(i) => {
                let pair = self.pairs.swap_remove(i);
                proof {
                    let s0 = old(self).pairs@;
                    let s1 = self.pairs@;
                    assert(s1 =~= s0.update(i as int, s0.last()).drop_last());
                    assert forall|k2: Seq<char>| self.m@.contains_key(k2) implies exists|j: int|
                        0 <= j < s1.len() && (#[trigger] s1[j]).0@ == k2 by {
                        let j = choose|j: int| 0 <= j < s0.len() && (#[trigger] s0[j]).0@ == k2;
                        if j == s0.len() - 1 {
                            assert(s1[i as int].0@ == k2);
                        } else {
                            assert(s1[j].0@ == k2);
                        }
                    }
                }
                pair.1
            },
            None => {
                proof {
                    let i = choose|i: int|
                        0 <= i < old(self).pairs@.len() && (#[trigger] old(self).pairs@[i]).0@ == k@;
                    assert(old(self).pairs@[i].0@ == k@);
                    assert(false);
                }
                // unreachable: the key is present by the precondition
                loop
                    invariant
                        false,
                    decreases 0int,
                {
                }
            },
        }
    }
}

/// A set of `u64` values, viewed as `Set<u64>`; insertion order is kept.
pub struct U64Set {
    items: Vec<u64>,
}

impl View for U64Set {
    type V = Set<u64>;

    closed spec fn view(&self) -> Set<u64> {
        self.items@.to_set()
    }
}

impl U64Set {
    /// The backing vector holds no duplicates.
    pub closed spec fn wf(self) -> bool {
        self.items@.no_duplicates()
    }

    /// The members in insertion order.
    pub closed spec fn seq(self) -> Seq<u64> {
        self.items@
    }

    pub fn new() -> (s: Self)
        ensures
            s.wf(),
            s@ == Set::<u64>::empty(),
            s.seq() == Seq::<u64>::empty(),
    {
        proof {
            assert(Seq::<u64>::empty().to_set() =~= Set::<u64>::empty());
        }
        U64Set { items: Vec::new() }
    }

    /// Index of `v` in the backing vector, if it is a member.
    fn find(&self, v: u64) -> (r: Option<usize>)
        ensures
            match r {
                Some(i) => i < self.items@.len() && self.items@[i as int] == v,
                None => !self.items@.contains(v),
            },
    {
        let n = self.items.len();
        let mut i: usize = 0;
        while i < n
            invariant
                n == self.items@.len(),
                i <= n,
                forall|j: int| 0 <= j < i ==> self.items@[j] != v,
            decreases n - i,
        {
            if self.items[i] == v {
                return Some(i);
            }
            i = i + 1;
        }
        None
    }

    /// Whether `v` is a member.
    pub fn contains(&self, v: u64) -> (r: bool)
        ensures
            r == self@.contains(v),
    {
        match self.find(v) {
            Some(_) => true,
            None => false,
        }
    }

    /// The number of members.
    pub fn len(&self) -> (r: usize)
        requires
            self.wf(),
        ensures
            r == self@.len(),
    {
        proof {
            self.items@.unique_seq_to_set();
        }
        self.items.len()
    }

    /// Adds `v`; no effect when it is already a member.
    pub fn insert(&mut self, v: u64)
        requires
            old(self).wf(),
        ensures
            final(self).wf(),
            final(self)@ == old(self)@.insert(v),
            final(self).seq() == if old(self)@.contains(v) {
                old(self).seq()
            } else {
                old(self).seq().push(v)
            },
    {
        let found = self.contains(v);
        if !found {
            self.items.push(v);
            proof {
                let s0 = old(self).items@;
                let s1 = self.items@;
                assert(s1.drop_last() =~= s0);
                assert(!s0.contains(v));
                assert(s1.to_set() =~= s0.to_set().insert(v)) by {
                    assert forall|x: u64| s1.to_set().contains(x) implies s0.to_set().insert(
                        v,
                    ).contains(x) by {
                        let idx = choose|idx: int| 0 <= idx < s1.len() && s1[idx] == x;
                        if idx < s0.len() {
                            assert(s0[idx] == x);
                        }
                    }
                    assert forall|x: u64| s0.to_set().insert(v).contains(x) implies
                        s1.to_set().contains(x) by {
                        if x == v {
                            assert(s1[s1.len() - 1] == v);
                        } else {
                            let idx = choose|idx: int| 0 <= idx < s0.len() && s0[idx] == x;
                            assert(s1[idx] == x);
                        }
                    }
                }
            }
        } else {
            proof {
                assert(self.items@.to_set() =~= self.items@.to_set().insert(v));
            }
        }
    }

    /// Removes `v`; no effect when it is not a member.
    pub fn remove(&mut self, v: u64)
        requires
            old(self).wf(),
        ensures
            final(self).wf(),
            final(self)@ == old(self)@.remove(v),
    {
        let found = self.find(v);
        match found {
            Some(i) => {
                self.items.swap_remove(i);
                proof {
                    let s0 = old(self).items@;
                    let s1 = self.items@;
                    assert(s1 =~= s0.update(i as int, s0.last()).drop_last());
                    assert(s1.no_duplicates()) by {
                        assert forall|p: int, q: int|
                            0 <= p < q < s1.len() implies s1[p] != s1[q] by {
                            assert(s1[p] == s0.update(i as int, s0.last())[p]);
                            assert(s1[q] == s0.update(i as int, s0.last())[q]);
                        }
                    }
                    assert(s1.to_set() =~= s0.to_set().remove(v)) by {
                        assert forall|x: u64| s1.to_set().contains(x) implies s0.to_set().remove(
                            v,
                        ).contains(x) by {
                            let idx = choose|idx: int| 0 <= idx < s1.len() && s1[idx] == x;
                            if idx == i {
                                assert(s0[s0.len() - 1] == x);
                            } else {
                                assert(s0[idx] == x);
                            }
                            assert(x != v) by {
                                if x == v {
                                    if idx == i {
                                        assert(s0[s0.len() - 1] == v);
                                        assert(s0[i as int] == v);
                                        if i < s0.len() - 1 {
                                            assert(false);
                                        } else {
                                            assert(i == s0.len() - 1);
                                            assert(s1.len() == s0.len() - 1);
                                            assert(false);
                                        }
                                    } else {
                                        assert(s0[idx] == v);
                                        assert(s0[i as int] == v);
                                        assert(false);
                                    }
                                }
                            }
                        }
                        assert forall|x: u64| s0.to_set().remove(v).contains(x) implies
                            s1.to_set().contains(x) by {
                            let idx = choose|idx: int| 0 <= idx < s0.len() && s0[idx] == x;
                            if idx == s0.len() - 1 {
                                assert(i < s1.len()) by {
                                    if i == s1.len() {
                                        assert(i == s0.len() - 1);
                                        assert(s0[i as int] == v);
                                    }
                                }
                                assert(s1[i as int] == x);
                            } else {
                                assert(s1[idx] == x);
                            }
                        }
                    }
                }
            },
            None => {
                proof {
                    assert(self.items@.to_set() =~= self.items@.to_set().remove(v));
                }
            },
        }
    }

    /// The view of a set is always a finite set.
    pub proof fn lemma_finite(&self)
        ensures
            self@.finite(),
    {
        vstd::seq_lib::seq_to_set_is_finite(self.items@);
    }

    /// The members as a fresh vector, in insertion order.
    pub fn to_vec(&self) -> (r: Vec<u64>)
        requires
            self.wf(),
        ensures
            r@ == self.seq(),
            r@.to_set() == self@,
            r@.no_duplicates(),
    {
        copy_u64s(&self.items)
    }
}

} // verus!
