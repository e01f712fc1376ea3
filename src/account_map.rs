use crate::account::AccountId;
use vstd::prelude::*;

verus! {

/// The map that a list of (account, value) entries stands for; a later entry for
/// the same account would shadow an earlier one.
spec fn map_of<V>(s: Seq<(AccountId, V)>) -> Map<Seq<char>, V>
    decreases s.len(),
{
    if s.len() == 0 {
        Map::empty()
    } else {
        map_of(s.drop_last()).insert(s.last().0@, s.last().1)
    }
}

spec fn keys_unique<V>(s: Seq<(AccountId, V)>) -> bool {
    forall|i: int, j: int|
        0 <= i < s.len() && 0 <= j < s.len() && i != j ==> (#[trigger] s[i]).0@ != (#[trigger] s[j]).0@
}

spec fn sum_of(s: Seq<(AccountId, u128)>) -> int
    decreases s.len(),
{
    if s.len() == 0 {
        0
    } else {
        sum_of(s.drop_last()) + s.last().1
    }
}

proof fn lemma_map_of_entry<V>(s: Seq<(AccountId, V)>, i: int)
    requires
        keys_unique(s),
        0 <= i < s.len(),
    ensures
        map_of(s).contains_key(s[i].0@),
        map_of(s)[s[i].0@] == s[i].1,
    decreases s.len(),
{
    if i < s.len() - 1 {
        let d = s.drop_last();
        assert(d[i] == s[i]);
        assert(keys_unique(d)) by {
            assert forall|a: int, b: int|
                0 <= a < d.len() && 0 <= b < d.len() && a != b implies (#[trigger] d[a]).0@ != (#[trigger] d[b]).0@ by {
                assert(d[a] == s[a] && d[b] == s[b]);
            }
        }
        lemma_map_of_entry(d, i);
        assert(s[s.len() - 1] == s.last());
    }
}

proof fn lemma_map_of_key<V>(s: Seq<(AccountId, V)>, k: Seq<char>)
    requires
        map_of(s).contains_key(k),
    ensures
        exists|i: int| 0 <= i < s.len() && (#[trigger] s[i]).0@ == k,
    decreases s.len(),
{
    if s.last().0@ == k {
        assert(s[s.len() - 1] == s.last());
    } else {
        let d = s.drop_last();
        lemma_map_of_key(d, k);
        let i = choose|i: int| 0 <= i < d.len() && (#[trigger] d[i]).0@ == k;
        assert(s[i] == d[i]);
    }
}

proof fn lemma_map_of_update<V>(s: Seq<(AccountId, V)>, i: int, e: (AccountId, V))
    requires
        keys_unique(s),
        0 <= i < s.len(),
        e.0@ == s[i].0@,
    ensures
        map_of(s.update(i, e)) == map_of(s).insert(e.0@, e.1),
    decreases s.len(),
{
    let t = s.update(i, e);
    let d = s.drop_last();
    if i == s.len() - 1 {
        assert(t.drop_last() =~= d);
        assert(map_of(t) =~= map_of(s).insert(e.0@, e.1));
    } else {
        assert(t.drop_last() =~= d.update(i, e));
        assert(keys_unique(d)) by {
            assert forall|a: int, b: int|
                0 <= a < d.len() && 0 <= b < d.len() && a != b implies (#[trigger] d[a]).0@ != (#[trigger] d[b]).0@ by {
                assert(d[a] == s[a] && d[b] == s[b]);
            }
        }
        lemma_map_of_update(d, i, e);
        assert(s[s.len() - 1] == s.last());
        assert(t.last() == s.last());
        assert(s.last().0@ != e.0@);
        assert(map_of(t) =~= map_of(s).insert(e.0@, e.1));
    }
}

proof fn lemma_sum_update(s: Seq<(AccountId, u128)>, i: int, e: (AccountId, u128))
    requires
        0 <= i < s.len(),
    ensures
        sum_of(s.update(i, e)) == sum_of(s) - s[i].1 + e.1,
    decreases s.len(),
{
    let t = s.update(i, e);
    let d = s.drop_last();
    if i == s.len() - 1 {
        assert(t.drop_last() =~= d);
    } else {
        assert(t.drop_last() =~= d.update(i, e));
        lemma_sum_update(d, i, e);
        assert(d[i] == s[i]);
    }
}

proof fn lemma_entry_le_sum(s: Seq<(AccountId, u128)>, i: int)
    requires
        0 <= i < s.len(),
    ensures
        s[i].1 <= sum_of(s),
        0 <= sum_of(s),
    decreases s.len(),
{
    lemma_sum_nonneg(s.drop_last());
    if i < s.len() - 1 {
        lemma_entry_le_sum(s.drop_last(), i);
        assert(s.drop_last()[i] == s[i]);
    }
}

proof fn lemma_sum_nonneg(s: Seq<(AccountId, u128)>)
    ensures
        0 <= sum_of(s),
    decreases s.len(),
{
    if s.len() > 0 {
        lemma_sum_nonneg(s.drop_last());
    }
}

/// A finite map from accounts to values, kept as a list with one entry per account.
#[derive(Debug)]
pub struct AccountMap<V> {
    entries: Vec<(AccountId, V)>,
}

impl<V> View for AccountMap<V> {
    type V = Map<Seq<char>, V>;

    closed spec fn view(&self) -> Map<Seq<char>, V> {
        map_of(self.entries@)
    }
}

impl<V: Copy> AccountMap<V> {
    /// No account has two entries.
    pub closed spec fn wf(&self) -> bool {
        keys_unique(self.entries@)
    }

    pub fn new() -> (r: Self)
        ensures
            r.wf(),
            r@ == Map::<Seq<char>, V>::empty(),
    {
        AccountMap { entries: Vec::new() }
    }

    fn find(&self, k: &AccountId) -> (r: Option<usize>)
        ensures
            match r {
                Some(i) => i < self.entries@.len() && self.entries@[i as int].0@ == k@,
                None => forall|i: int| 0 <= i < self.entries@.len() ==> (#[trigger] self.entries@[i]).0@ != k@,
            },
    {
        let mut i: usize = 0;
        while i < self.entries.len()
            invariant
                i <= self.entries@.len(),
                forall|j: int| 0 <= j < i ==> (#[trigger] self.entries@[j]).0@ != k@,
            decreases self.entries@.len() - i,
        {
            if self.entries[i].0.eq(k) {
                return Some(i);
            }
            i += 1;
        }
        None
    }

    pub fn contains_key(&self, k: &AccountId) -> (r: bool)
        requires
            self.wf(),
        ensures
            r == self@.contains_key(k@),
    {
        match self.find(k) {
            Some(i) => {
                proof {
                    lemma_map_of_entry(self.entries@, i as int);
                }
                true
            },
            None => {
                proof {
                    if self@.contains_key(k@) {
                        lemma_map_of_key(self.entries@, k@);
                    }
                }
                false
            },
        }
    }

    pub fn get(&self, k: &AccountId) -> (r: Option<V>)
        requires
            self.wf(),
        ensures
            r == (if self@.contains_key(k@) {
                Some(self@[k@])
            } else {
                None
            }),
    {
        match self.find(k) {
            Some(i) => {
                proof {
                    lemma_map_of_entry(self.entries@, i as int);
                }
                Some(self.entries[i].1)
            },
            None => {
                proof {
                    if self@.contains_key(k@) {
                        lemma_map_of_key(self.entries@, k@);
                    }
                }
                None
            },
        }
    }

    /// Writes `v` for `k` in place, or appends an entry; returns where it wrote in place.
    fn put(&mut self, k: &AccountId, v: V) -> (r: Option<usize>)
        requires
            old(self).wf(),
        ensures
            final(self).wf(),
            final(self)@ == old(self)@.insert(k@, v),
            match r {
                Some(i) => i < old(self).entries@.len() && old(self).entries@[i as int].0@ == k@
                    && final(self).entries@ == old(self).entries@.update(i as int, (*k, v)),
                None => (forall|j: int| 0 <= j < old(self).entries@.len() ==> (#[trigger] old(self).entries@[j]).0@ != k@)
                    && final(self).entries@ == old(self).entries@.push((*k, v)),
            },
    {
        let e = (k.clone(), v);
        match self.find(k) {
            Some(i) => {
                proof {
                    lemma_map_of_update(self.entries@, i as int, e);
                }
                self.entries.set(i, e);
                proof {
                    assert(keys_unique(self.entries@)) by {
                        assert forall|a: int, b: int|
                            0 <= a < self.entries@.len() && 0 <= b < self.entries@.len() && a != b implies
                            (#[trigger] self.entries@[a]).0@ != (#[trigger] self.entries@[b]).0@ by {
                            assert(self.entries@[a].0@ == old(self).entries@[a].0@);
                            assert(self.entries@[b].0@ == old(self).entries@[b].0@);
                        }
                    }
                }
                Some(i)
            },
            None => {
                self.entries.push(e);
                proof {
                    assert(self.entries@.drop_last() =~= old(self).entries@);
                    assert(keys_unique(self.entries@)) by {
                        assert forall|a: int, b: int|
                            0 <= a < self.entries@.len() && 0 <= b < self.entries@.len() && a != b implies
                            (#[trigger] self.entries@[a]).0@ != (#[trigger] self.entries@[b]).0@ by {
                            if a < old(self).entries@.len() {
                                assert(self.entries@[a] == old(self).entries@[a]);
                            }
                            if b < old(self).entries@.len() {
                                assert(self.entries@[b] == old(self).entries@[b]);
                            }
                        }
                    }
                }
                None
            },
        }
    }

    pub fn insert(&mut self, k: &AccountId, v: V)
        requires
            old(self).wf(),
        ensures
            final(self).wf(),
            final(self)@ == old(self)@.insert(k@, v),
    {
        self.put(k, v);
    }
}

/// What `m` holds for `k`, where an account without an entry holds 0.
pub open spec fn amount_in(m: Map<Seq<char>, u128>, k: Seq<char>) -> u128 {
    if m.contains_key(k) {
        m[k]
    } else {
        0
    }
}

impl AccountMap<u128> {
    /// The sum of all the values held.
    pub closed spec fn total(&self) -> int {
        sum_of(self.entries@)
    }

    /// A map with no entries, whose values sum to 0.
    pub fn new_amounts() -> (r: Self)
        ensures
            r.wf(),
            r@ == Map::<Seq<char>, u128>::empty(),
            r.total() == 0,
    {
        AccountMap { entries: Vec::new() }
    }

    /// The value held for `k`, 0 where `k` has no entry.
    pub fn amount_of(&self, k: &AccountId) -> (r: u128)
        requires
            self.wf(),
        ensures
            r == amount_in(self@, k@),
    {
        match self.get(k) {
            Some(v) => v,
            None => 0,
        }
    }

    /// Sets the value held for `k`, giving `k` an entry if it had none; the sum
    /// changes by the difference.
    pub fn set_amount(&mut self, k: &AccountId, v: u128)
        requires
            old(self).wf(),
        ensures
            final(self).wf(),
            final(self)@ == old(self)@.insert(k@, v),
            final(self).total() == old(self).total() - amount_in(old(self)@, k@) + v,
    {
        match self.put(k, v) {
            Some(i) => {
                proof {
                    lemma_map_of_entry(old(self).entries@, i as int);
                    lemma_sum_update(old(self).entries@, i as int, (*k, v));
                }
            },
            None => {
                proof {
                    assert(self.entries@.drop_last() =~= old(self).entries@);
                    if old(self)@.contains_key(k@) {
                        lemma_map_of_key(old(self).entries@, k@);
                    }
                }
            },
        }
    }

    /// No single account holds more than the sum.
    pub proof fn lemma_amount_le_total(&self, k: Seq<char>)
        requires
            self.wf(),
        ensures
            amount_in(self@, k) <= self.total(),
            0 <= self.total(),
    {
        lemma_sum_nonneg(self.entries@);
        if self@.contains_key(k) {
            lemma_map_of_key(self.entries@, k);
            let i = choose|i: int| 0 <= i < self.entries@.len() && (#[trigger] self.entries@[i]).0@ == k;
            lemma_map_of_entry(self.entries@, i);
            lemma_entry_le_sum(self.entries@, i);
        }
    }
}

} // verus!
