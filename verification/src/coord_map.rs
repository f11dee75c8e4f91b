//! A map keyed by block or region coordinates `(x, z)`, kept as a list of
//! distinct keys in insertion order.

use vstd::prelude::*;

verus! {

/// The map that a list of entries with distinct keys stands for.
pub open spec fn coord_entries_map<V>(s: Seq<((i32, i32), V)>) -> Map<(i32, i32), V>
    decreases s.len(),
{
    if s.len() == 0 {
        Map::empty()
    } else {
        coord_entries_map(s.drop_last()).insert(s.last().0, s.last().1)
    }
}

pub open spec fn coord_keys_distinct<V>(s: Seq<((i32, i32), V)>) -> bool {
    forall|i: int, j: int| 0 <= i < j < s.len() ==> (#[trigger] s[i]).0 != (#[trigger] s[j]).0
}

/// Sum of the values of a list of entries.
pub open spec fn entries_total(s: Seq<((i32, i32), u64)>) -> int
    decreases s.len(),
{
    if s.len() == 0 {
        0
    } else {
        entries_total(s.drop_last()) + s.last().1
    }
}

proof fn lemma_coord_entries_map<V>(s: Seq<((i32, i32), V)>)
    requires
        coord_keys_distinct(s),
    ensures
        forall|i: int|
            0 <= i < s.len() ==> #[trigger] coord_entries_map(s).contains_key(s[i].0)
                && coord_entries_map(s)[s[i].0] == s[i].1,
        forall|k: (i32, i32)|
            #[trigger] coord_entries_map(s).contains_key(k) ==> exists|i: int|
                0 <= i < s.len() && (#[trigger] s[i]).0 == k,
        coord_entries_map(s).dom().len() == s.len(),
        coord_entries_map(s).dom().finite(),
    decreases s.len(),
{
    if s.len() > 0 {
        let t = s.drop_last();
        assert(coord_keys_distinct(t)) by {
            assert forall|i: int, j: int| 0 <= i < j < t.len() implies (#[trigger] t[i]).0
                != (#[trigger] t[j]).0 by {
                assert(t[i] == s[i] && t[j] == s[j]);
            }
        }
        lemma_coord_entries_map(t);
        let last = s.last();
        assert(!coord_entries_map(t).contains_key(last.0)) by {
            if coord_entries_map(t).contains_key(last.0) {
                let i = choose|i: int| 0 <= i < t.len() && (#[trigger] t[i]).0 == last.0;
                assert(t[i] == s[i]);
                assert(s[i].0 != s[s.len() - 1].0);
            }
        }
        assert forall|i: int| 0 <= i < s.len() implies #[trigger] coord_entries_map(
            s,
        ).contains_key(s[i].0) && coord_entries_map(s)[s[i].0] == s[i].1 by {
            if i < s.len() - 1 {
                assert(t[i] == s[i]);
                assert(s[i].0 != last.0);
            }
        }
        assert forall|k: (i32, i32)| #[trigger] coord_entries_map(s).contains_key(
            k,
        ) implies exists|i: int| 0 <= i < s.len() && (#[trigger] s[i]).0 == k by {
            if k == last.0 {
                assert(s[s.len() - 1].0 == k);
            } else {
                let i = choose|i: int| 0 <= i < t.len() && (#[trigger] t[i]).0 == k;
                assert(t[i] == s[i]);
            }
        }
    }
}

proof fn lemma_entries_total_push(s: Seq<((i32, i32), u64)>, e: ((i32, i32), u64))
    ensures
        entries_total(s.push(e)) == entries_total(s) + e.1,
{
    assert(s.push(e).drop_last() =~= s);
}

proof fn lemma_entries_total_update(s: Seq<((i32, i32), u64)>, i: int, e: ((i32, i32), u64))
    requires
        0 <= i < s.len(),
    ensures
        entries_total(s.update(i, e)) == entries_total(s) - s[i].1 + e.1,
    decreases s.len(),
{
    if i == s.len() - 1 {
        assert(s.update(i, e).drop_last() =~= s.drop_last());
    } else {
        lemma_entries_total_update(s.drop_last(), i, e);
        assert(s.update(i, e).drop_last() =~= s.drop_last().update(i, e));
    }
}

proof fn lemma_entries_total_ge(s: Seq<((i32, i32), u64)>, i: int)
    requires
        0 <= i < s.len(),
    ensures
        entries_total(s) >= s[i].1,
        entries_total(s) >= 0,
    decreases s.len(),
{
    lemma_entries_total_nonneg(s.drop_last());
    if i < s.len() - 1 {
        lemma_entries_total_ge(s.drop_last(), i);
    }
}

proof fn lemma_entries_total_nonneg(s: Seq<((i32, i32), u64)>)
    ensures
        entries_total(s) >= 0,
    decreases s.len(),
{
    if s.len() > 0 {
        lemma_entries_total_nonneg(s.drop_last());
    }
}

/// A map from coordinates to values.
pub struct CoordMap<V> {
    entries: Vec<((i32, i32), V)>,
}

impl<V> View for CoordMap<V> {
    type V = Map<(i32, i32), V>;

    closed spec fn view(&self) -> Map<(i32, i32), V> {
        coord_entries_map(self.entries@)
    }
}

impl<V> CoordMap<V> {
    /// Each key occurs once.
    #[verifier::type_invariant]
    closed spec fn wf(self) -> bool {
        coord_keys_distinct(self.entries@)
    }
}

impl<V> CoordMap<V> {
    /// The entries in insertion order.
    pub closed spec fn entry_seq(&self) -> Seq<((i32, i32), V)> {
        self.entries@
    }

    /// An empty table.
    pub fn new() -> (t: Self)
        ensures
            t@ == Map::<(i32, i32), V>::empty(),
            t.entry_seq().len() == 0,
    {
        CoordMap { entries: Vec::new() }
    }

    /// Index of the entry of `key`, if any.
    fn find(&self, key: (i32, i32)) -> (r: Option<usize>)
        ensures
            match r {
                Some(i) => i < self.entries@.len() && self.entries@[i as int].0 == key,
                None => forall|i: int|
                    0 <= i < self.entries@.len() ==> (#[trigger] self.entries@[i]).0 != key,
            },
    {
        let mut i: usize = 0;
        while i < self.entries.len()
            invariant
                0 <= i <= self.entries@.len(),
                forall|k: int| 0 <= k < i ==> (#[trigger] self.entries@[k]).0 != key,
            decreases self.entries@.len() - i,
        {
            let k = self.entries[i].0;
            if k.0 == key.0 && k.1 == key.1 {
                return Some(i);
            }
            i = i + 1;
        }
        None
    }

    /// Number of keys.
    pub fn len(&self) -> (n: usize)
        ensures
            n == self@.len(),
            n == self.entry_seq().len(),
    {
        proof {
            use_type_invariant(self);
            lemma_coord_entries_map(self.entries@);
        }
        self.entries.len()
    }

    /// Whether `key` is present.
    pub fn contains_key(&self, key: (i32, i32)) -> (b: bool)
        ensures
            b == self@.contains_key(key),
    {
        proof {
            use_type_invariant(self);
            lemma_coord_entries_map(self.entries@);
        }
        match self.find(key) {
            Some(i) => {
                assert(coord_entries_map(self.entries@).contains_key(self.entries@[i as int].0));
                true
            },
            None => false,
        }
    }

    /// The value of `key`, if present.
    pub fn get_ref(&self, key: (i32, i32)) -> (r: Option<&V>)
        ensures
            match r {
                Some(v) => self@.contains_key(key) && self@[key] == *v,
                None => !self@.contains_key(key),
            },
    {
        proof {
            use_type_invariant(self);
            lemma_coord_entries_map(self.entries@);
        }
        match self.find(key) {
            Some(i) => {
                assert(coord_entries_map(self.entries@).contains_key(self.entries@[i as int].0));
                Some(&self.entries[i].1)
            },
            None => None,
        }
    }
    /// Sets `key` to `value`, replacing an earlier value of the key.
    pub fn insert(&mut self, key: (i32, i32), value: V)
        ensures
            final(self)@ == old(self)@.insert(key, value),
            old(self)@.contains_key(key) ==> exists|i: int|
                0 <= i < old(self).entry_seq().len() && (#[trigger] old(self).entry_seq()[i]).0
                    == key && final(self).entry_seq() == old(self).entry_seq().update(
                    i,
                    (key, value),
                ),
            !old(self)@.contains_key(key) ==> final(self).entry_seq() == old(
                self,
            ).entry_seq().push((key, value)),
    {
        proof {
            use_type_invariant(&*self);
            lemma_coord_entries_map(self.entries@);
        }
        let ghost old_entries = self.entries@;
        match self.find(key) {
            Some(i) => {
                let mut entries: Vec<((i32, i32), V)> = Vec::new();
                std::mem::swap(&mut entries, &mut self.entries);
                entries.set(i, (key, value));
                proof {
                    let s = entries@;
                    assert(coord_keys_distinct(s)) by {
                        assert forall|a: int, b: int| 0 <= a < b < s.len() implies (
                        #[trigger] s[a]).0 != (#[trigger] s[b]).0 by {
                            assert(s[a].0 == old_entries[a].0);
                            assert(s[b].0 == old_entries[b].0);
                        }
                    }
                    lemma_coord_entries_map(s);
                    let m = coord_entries_map(old_entries).insert(key, value);
                    assert(coord_entries_map(s) =~= m) by {
                        assert forall|k: (i32, i32)| #[trigger] coord_entries_map(
                            s,
                        ).contains_key(k) implies m.contains_key(k) by {
                            let j = choose|j: int| 0 <= j < s.len() && (#[trigger] s[j]).0 == k;
                            if j != i {
                                assert(s[j] == old_entries[j]);
                            }
                        }
                        assert forall|k: (i32, i32)| #[trigger] m.contains_key(
                            k,
                        ) implies coord_entries_map(s).contains_key(k) by {
                            if k != key {
                                let j = choose|j: int|
                                    0 <= j < old_entries.len() && (#[trigger] old_entries[j]).0
                                        == k;
                                assert(s[j] == old_entries[j]);
                            } else {
                                assert(s[i as int].0 == k);
                            }
                        }
                        assert forall|k: (i32, i32)| #[trigger] coord_entries_map(
                            s,
                        ).contains_key(k) implies coord_entries_map(s)[k] == m[k] by {
                            let j = choose|j: int| 0 <= j < s.len() && (#[trigger] s[j]).0 == k;
                            if j != i {
                                assert(s[j] == old_entries[j]);
                            }
                        }
                    }
                    assert(old_entries[i as int].0 == key);
                }
                self.entries = entries;
                assert(old(self).entry_seq()[i as int].0 == key && self.entry_seq() == old(
                    self,
                ).entry_seq().update(i as int, (key, value)));
            },
            None => {
                let mut entries: Vec<((i32, i32), V)> = Vec::new();
                std::mem::swap(&mut entries, &mut self.entries);
                entries.push((key, value));
                proof {
                    let s = entries@;
                    assert(s.drop_last() =~= old_entries);
                    assert(coord_keys_distinct(s)) by {
                        assert forall|a: int, b: int| 0 <= a < b < s.len() implies (
                        #[trigger] s[a]).0 != (#[trigger] s[b]).0 by {
                            assert(s[a] == old_entries[a]);
                            if b < s.len() - 1 {
                                assert(s[b] == old_entries[b]);
                            }
                        }
                    }
                    assert(!coord_entries_map(old_entries).contains_key(key)) by {
                        if coord_entries_map(old_entries).contains_key(key) {
                            let j = choose|j: int|
                                0 <= j < old_entries.len() && (#[trigger] old_entries[j]).0
                                    == key;
                        }
                    }
                }
                self.entries = entries;
            },
        }
    }

}

impl<V: Copy> CoordMap<V> {
    /// The value of `key`, if present.
    pub fn get(&self, key: (i32, i32)) -> (r: Option<V>)
        ensures
            match r {
                Some(v) => self@.contains_key(key) && self@[key] == v,
                None => !self@.contains_key(key),
            },
    {
        proof {
            use_type_invariant(self);
            lemma_coord_entries_map(self.entries@);
        }
        match self.find(key) {
            Some(i) => {
                assert(coord_entries_map(self.entries@).contains_key(self.entries@[i as int].0));
                Some(self.entries[i].1)
            },
            None => None,
        }
    }

    /// The entries, each key once, in insertion order.
    pub fn to_vec(&self) -> (v: Vec<((i32, i32), V)>)
        ensures
            v@ == self.entry_seq(),
            coord_keys_distinct(v@),
            coord_entries_map(v@) == self@,
    {
        proof {
            use_type_invariant(self);
        }
        let mut v: Vec<((i32, i32), V)> = Vec::new();
        let mut i: usize = 0;
        while i < self.entries.len()
            invariant
                0 <= i <= self.entries@.len(),
                v@ == self.entries@.subrange(0, i as int),
            decreases self.entries@.len() - i,
        {
            v.push(self.entries[i]);
            i = i + 1;
            assert(v@ =~= self.entries@.subrange(0, i as int));
        }
        assert(v@ =~= self.entries@);
        v
    }
}

impl CoordMap<u64> {
    /// Sum of all values.
    pub closed spec fn total(&self) -> int {
        entries_total(self.entries@)
    }

    /// A map without entries sums to zero.
    pub proof fn lemma_total_empty(&self)
        requires
            self.entry_seq().len() == 0,
        ensures
            self.total() == 0,
    {
    }

    /// Sets the bytes of `key`; the sum changes by the new value less the
    /// replaced one.
    pub fn insert_counted(&mut self, key: (i32, i32), value: u64) -> (r: Option<u64>)
        ensures
            final(self)@ == old(self)@.insert(key, value),
            r == (if old(self)@.contains_key(key) {
                Some(old(self)@[key])
            } else {
                None::<u64>
            }),
            final(self).total() == old(self).total() - (if old(self)@.contains_key(key) {
                old(self)@[key] as int
            } else {
                0
            }) + value,
            old(self).total() >= 0,
            old(self)@.contains_key(key) ==> old(self).total() >= old(self)@[key],
            final(self).total() >= value,
    {
        proof {
            use_type_invariant(&*self);
            lemma_coord_entries_map(self.entries@);
            lemma_entries_total_nonneg(self.entries@);
            if self@.contains_key(key) {
                let i = choose|i: int|
                    0 <= i < self.entries@.len() && (#[trigger] self.entries@[i]).0 == key;
                lemma_entries_total_ge(self.entries@, i);
            }
        }
        let ghost old_seq = self.entry_seq();
        let ghost old_map = self@;
        let r = self.get(key);
        self.insert(key, value);
        proof {
            if old_map.contains_key(key) {
                let i = choose|i: int|
                    0 <= i < old_seq.len() && (#[trigger] old_seq[i]).0 == key
                        && self.entry_seq() == old_seq.update(i, (key, value));
                lemma_entries_total_update(old_seq, i, (key, value));
                assert(old_map[key] == old_seq[i].1);
            } else {
                lemma_entries_total_push(old_seq, (key, value));
            }
            lemma_entries_total_nonneg(old_seq);
        }
        r
    }
}

impl<T> CoordMap<Vec<T>> {
    /// Appends `x` to the list kept under `key`, starting an empty list
    /// where the key is new.
    pub fn push_value(&mut self, key: (i32, i32), x: T)
        ensures
            final(self)@.dom() == old(self)@.dom().insert(key),
            final(self)@[key]@ == (if old(self)@.contains_key(key) {
                old(self)@[key]@
            } else {
                Seq::<T>::empty()
            }).push(x),
            forall|k: (i32, i32)|
                k != key && #[trigger] old(self)@.contains_key(k) ==> final(self)@[k] == old(
                    self,
                )@[k],
    {
        proof {
            use_type_invariant(&*self);
            lemma_coord_entries_map(self.entries@);
        }
        let ghost old_entries = self.entries@;
        let mut entries: Vec<((i32, i32), Vec<T>)> = Vec::new();
        std::mem::swap(&mut entries, &mut self.entries);
        let ghost old_map = coord_entries_map(old_entries);
        match self.find_in(&entries, key) {
            Some(i) => {
                let (k, mut values) = entries.remove(i);
                values.push(x);
                entries.insert(i, (k, values));
                proof {
                    let s = entries@;
                    assert(s =~= old_entries.update(i as int, (key, s[i as int].1)));
                    assert(coord_keys_distinct(s)) by {
                        assert forall|a: int, b: int| 0 <= a < b < s.len() implies (
                        #[trigger] s[a]).0 != (#[trigger] s[b]).0 by {
                            assert(s[a].0 == old_entries[a].0);
                            assert(s[b].0 == old_entries[b].0);
                        }
                    }
                    lemma_coord_entries_map(s);
                    assert(coord_entries_map(old_entries).contains_key(old_entries[i as int].0));
                    assert(old_map[key] == old_entries[i as int].1);
                    assert forall|k: (i32, i32)| #[trigger] coord_entries_map(s).contains_key(
                        k,
                    ) <==> old_map.insert(key, s[i as int].1).contains_key(k) by {
                        if coord_entries_map(s).contains_key(k) {
                            let j = choose|j: int| 0 <= j < s.len() && (#[trigger] s[j]).0 == k;
                            if j != i {
                                assert(s[j] == old_entries[j]);
                            }
                        }
                        if old_map.contains_key(k) && k != key {
                            let j = choose|j: int|
                                0 <= j < old_entries.len() && (#[trigger] old_entries[j]).0 == k;
                            assert(s[j] == old_entries[j]);
                        }
                        if k == key {
                            assert(s[i as int].0 == k);
                        }
                    }
                    assert(coord_entries_map(s).dom() =~= old_map.dom().insert(key));
                    assert(coord_entries_map(s).contains_key(s[i as int].0));
                    assert forall|k: (i32, i32)| k != key && #[trigger] old_map.contains_key(
                        k,
                    ) implies coord_entries_map(s)[k] == old_map[k] by {
                        let j = choose|j: int|
                            0 <= j < old_entries.len() && (#[trigger] old_entries[j]).0 == k;
                        assert(s[j] == old_entries[j]);
                        assert(coord_entries_map(s).contains_key(s[j].0));
                        assert(coord_entries_map(old_entries).contains_key(old_entries[j].0));
                    }
                }
                self.entries = entries;
            },
            None => {
                let mut values: Vec<T> = Vec::new();
                values.push(x);
                entries.push((key, values));
                proof {
                    let s = entries@;
                    assert(s.drop_last() =~= old_entries);
                    assert(coord_keys_distinct(s)) by {
                        assert forall|a: int, b: int| 0 <= a < b < s.len() implies (
                        #[trigger] s[a]).0 != (#[trigger] s[b]).0 by {
                            assert(s[a] == old_entries[a]);
                            if b < s.len() - 1 {
                                assert(s[b] == old_entries[b]);
                            }
                        }
                    }
                    assert(!old_map.contains_key(key)) by {
                        if old_map.contains_key(key) {
                            let j = choose|j: int|
                                0 <= j < old_entries.len() && (#[trigger] old_entries[j]).0 == key;
                        }
                    }
                    assert(coord_entries_map(s) == old_map.insert(key, s.last().1));
                    assert(s.last().1@ =~= Seq::<T>::empty().push(x));
                    assert(coord_entries_map(s).dom() =~= old_map.dom().insert(key));
                }
                self.entries = entries;
            },
        }
    }
}

impl<V> CoordMap<V> {
    /// Index of the entry of `key` in `entries`, if any.
    fn find_in(&self, entries: &Vec<((i32, i32), V)>, key: (i32, i32)) -> (r: Option<usize>)
        ensures
            match r {
                Some(i) => i < entries@.len() && entries@[i as int].0 == key,
                None => forall|i: int|
                    0 <= i < entries@.len() ==> (#[trigger] entries@[i]).0 != key,
            },
    {
        let mut i: usize = 0;
        while i < entries.len()
            invariant
                0 <= i <= entries@.len(),
                forall|k: int| 0 <= k < i ==> (#[trigger] entries@[k]).0 != key,
            decreases entries@.len() - i,
        {
            let k = entries[i].0;
            if k.0 == key.0 && k.1 == key.1 {
                return Some(i);
            }
            i = i + 1;
        }
        None
    }
}

} // verus!
