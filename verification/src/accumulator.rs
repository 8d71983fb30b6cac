//! The accumulator: a mapping from validated keys to values with
//! entry-or-insert updates and snapshot iteration that detects structural
//! mutation instead of yielding corrupted pairs.

use vstd::prelude::*;
use crate::validate::ValidatedKey;

verus! {

/// Key types the accumulator can look up: equality of keys can be decided
/// executably and agrees with equality of the keys' abstract values.
pub trait AccumulatorKey: View + Sized {
    /// Decide whether two keys have the same abstract value.
    fn key_eq(&self, other: &Self) -> (r: bool)
        ensures
            r == (self@ == other@),
    ;
}

impl AccumulatorKey for String {
    fn key_eq(&self, other: &Self) -> (r: bool) {
        self.eq(other)
    }
}

impl AccumulatorKey for i32 {
    fn key_eq(&self, other: &Self) -> (r: bool) {
        *self == *other
    }
}

impl AccumulatorKey for u32 {
    fn key_eq(&self, other: &Self) -> (r: bool) {
        *self == *other
    }
}

impl AccumulatorKey for u64 {
    fn key_eq(&self, other: &Self) -> (r: bool) {
        *self == *other
    }
}

/// The mapping that a sequence of (key, value) pairs denotes; a later pair
/// with the same key would win, though the accumulator never stores two.
pub open spec fn map_of<KV, V>(s: Seq<(KV, V)>) -> Map<KV, V>
    decreases s.len(),
{
    if s.len() == 0 {
        Map::empty()
    } else {
        map_of(s.drop_last()).insert(s.last().0, s.last().1)
    }
}

/// No two pairs of the sequence share a key.
pub open spec fn keys_unique<KV, V>(s: Seq<(KV, V)>) -> bool {
    forall|i: int, j: int| 0 <= i < j < s.len() ==> s[i].0 != s[j].0
}

/// A key is in the denoted mapping exactly when some pair of the sequence
/// carries it.
pub proof fn lemma_map_of_contains<KV, V>(s: Seq<(KV, V)>, k: KV)
    ensures
        map_of(s).contains_key(k) <==> exists|j: int| 0 <= j < s.len() && s[j].0 == k,
    decreases s.len(),
{
    if s.len() > 0 {
        lemma_map_of_contains(s.drop_last(), k);
        if map_of(s).contains_key(k) && s.last().0 != k {
            let j = choose|j: int| 0 <= j < s.drop_last().len() && s.drop_last()[j].0 == k;
            assert(s[j].0 == k);
        }
        if exists|j: int| 0 <= j < s.len() && s[j].0 == k {
            let j = choose|j: int| 0 <= j < s.len() && s[j].0 == k;
            if j < s.len() - 1 {
                assert(s.drop_last()[j].0 == k);
            }
        }
    }
}

/// With unique keys, each pair of the sequence is in the denoted mapping.
pub proof fn lemma_map_of_index<KV, V>(s: Seq<(KV, V)>, i: int)
    requires
        keys_unique(s),
        0 <= i < s.len(),
    ensures
        map_of(s).contains_key(s[i].0),
        map_of(s)[s[i].0] == s[i].1,
    decreases s.len(),
{
    if i == s.len() - 1 {
        assert(map_of(s) == map_of(s.drop_last()).insert(s.last().0, s.last().1));
    } else {
        assert(keys_unique(s.drop_last()));
        lemma_map_of_index(s.drop_last(), i);
        assert(s.drop_last()[i] == s[i]);
        assert(s[i].0 != s.last().0);
    }
}

/// With unique keys, replacing the value of the pair at `i` denotes the same
/// mapping as inserting the new value at that pair's key.
pub proof fn lemma_map_of_update<KV, V>(s: Seq<(KV, V)>, i: int, v: V)
    requires
        keys_unique(s),
        0 <= i < s.len(),
    ensures
        map_of(s.update(i, (s[i].0, v))) == map_of(s).insert(s[i].0, v),
    decreases s.len(),
{
    let t = s.update(i, (s[i].0, v));
    if i == s.len() - 1 {
        assert(t.drop_last() =~= s.drop_last());
        assert(map_of(t) =~= map_of(s).insert(s[i].0, v));
    } else {
        assert(keys_unique(s.drop_last()));
        lemma_map_of_update(s.drop_last(), i, v);
        assert(t.drop_last() =~= s.drop_last().update(i, (s[i].0, v)));
        assert(s[i].0 != s.last().0);
        assert(t.last() == s.last());
        assert(map_of(t) =~= map_of(s).insert(s[i].0, v));
    }
}

/// An in-memory mapping from validated keys to values. Keys are unique; the
/// only ways to add or change an entry are [`ValidatedAccumulator::upsert`]
/// and [`ValidatedAccumulator::get_or_insert`]; reads are borrows.
///
/// At any instant either any number of shared borrows of the contents exist,
/// or exactly one mutable borrow: the borrows handed out are ordinary
/// references, so the compiler enforces this. A snapshot handle holds no
/// borrow; it re-checks the accumulator's version at every step instead.
pub struct ValidatedAccumulator<K: AccumulatorKey, V> {
    entries: Vec<(ValidatedKey<K>, V)>,
    version: u64,
}

impl<K: AccumulatorKey, V> ValidatedAccumulator<K, V> {
    /// The entries as (abstract key, value) pairs, in insertion order.
    pub closed spec fn pairs(self) -> Seq<(K::V, V)> {
        self.entries@.map_values(|e: (ValidatedKey<K>, V)| (e.0.key(), e.1))
    }

    /// The contents: the mapping from abstract keys to values.
    pub open spec fn contents(self) -> Map<K::V, V> {
        map_of(self.pairs())
    }

    /// How many structural mutations (insertions of a new key) have happened.
    pub closed spec fn version(self) -> u64 {
        self.version
    }

    /// Well-formed: keys are unique and each stored key satisfies the
    /// predicate it was validated against.
    pub closed spec fn wf(self) -> bool {
        &&& keys_unique(self.pairs())
        &&& forall|i: int| 0 <= i < self.entries@.len() ==> (#[trigger] self.entries@[i].0).wf()
    }

    /// Create an empty accumulator.
    pub fn new() -> (r: Self)
        ensures
            r.wf(),
            r.contents() == Map::<K::V, V>::empty(),
            r.version() == 0,
    {
        let r = ValidatedAccumulator { entries: Vec::new(), version: 0 };
        proof {
            assert(r.pairs() =~= Seq::<(K::V, V)>::empty());
        }
        r
    }

    /// Find the index of the entry carrying the key, if any.
    fn find(&self, key: &ValidatedKey<K>) -> (r: Option<usize>)
        requires
            self.wf(),
        ensures
            r matches Some(i) ==> i < self.pairs().len() && self.pairs()[i as int].0
                == key.key(),
            r is None ==> !self.contents().contains_key(key.key()),
    {
        let n = self.entries.len();
        let mut i: usize = 0;
        while i < n
            invariant
                n == self.entries.len(),
                i <= n,
                forall|j: int| 0 <= j < i ==> self.pairs()[j].0 != key.key(),
            decreases n - i,
        {
            if self.entries[i].0.raw().key_eq(key.raw()) {
                assert(self.pairs()[i as int].0 == key.key());
                return Some(i);
            }
            i += 1;
        }
        proof {
            lemma_map_of_contains(self.pairs(), key.key());
        }
        None
    }

    /// Look up the value stored under the key. Absence is signalled by
    /// `None`, never by an error; a key never inserted yields `None`.
    pub fn get(&self, key: &ValidatedKey<K>) -> (r: Option<&V>)
        requires
            self.wf(),
        ensures
            r is Some <==> self.contents().contains_key(key.key()),
            r matches Some(v) ==> *v == self.contents()[key.key()],
    {
        match self.find(key) {
            Some(i) => {
                proof {
                    lemma_map_of_index(self.pairs(), i as int);
                }
                Some(&self.entries[i].1)
            },
            None => None,
        }
    }

    /// Borrow the value of entry `i` mutably. The caller may write through
    /// the borrow; the contents end up with whatever value the borrow holds
    /// when it expires, under the unchanged key.
    fn value_at(&mut self, i: usize) -> (r: &mut V)
        requires
            old(self).wf(),
            i < old(self).pairs().len(),
        ensures
            final(self).wf(),
            *r == old(self).pairs()[i as int].1,
            final(self).version() == old(self).version(),
            final(self).pairs() == old(self).pairs().update(
                i as int,
                (old(self).pairs()[i as int].0, *final(r)),
            ),
            final(self).contents() == old(self).contents().insert(
                old(self).pairs()[i as int].0,
                *final(r),
            ),
    {
        proof {
            let s = self.pairs();
            let es = self.entries@;
            assert forall|v: V|
                (#[trigger] es.update(i as int, (es[i as int].0, v))).map_values(
                    |e: (ValidatedKey<K>, V)| (e.0.key(), e.1),
                ) =~= s.update(i as int, (s[i as int].0, v)) by {
            };
            assert forall|v: V|
                #[trigger] map_of(s.update(i as int, (s[i as int].0, v))) == map_of(s).insert(
                    s[i as int].0,
                    v,
                ) by {
                lemma_map_of_update(s, i as int, v);
            };
            assert forall|v: V| keys_unique(#[trigger] s.update(i as int, (s[i as int].0, v))) by {
                assert forall|p: int, q: int|
                    0 <= p < q < s.len() implies s.update(i as int, (s[i as int].0, v))[p].0
                    != s.update(i as int, (s[i as int].0, v))[q].0 by {
                    assert(s[p].0 != s[q].0);
                };
            };
        }
        &mut self.entries[i].1
    }

    /// Look the key up; if it is absent, evaluate the thunk exactly once and
    /// insert its result. Either way, return a mutable borrow of the value
    /// now stored under the key; the caller may mutate it in place. Only an
    /// insertion of a new key counts as a structural mutation.
    pub fn get_or_insert<F: FnOnce() -> V>(&mut self, key: ValidatedKey<K>, thunk: F) -> (r: &mut
        V)
        requires
            old(self).wf(),
            key.wf(),
            !old(self).contents().contains_key(key.key()) ==> call_requires(thunk, ()),
            !old(self).contents().contains_key(key.key()) ==> old(self).version() < u64::MAX,
        ensures
            final(self).wf(),
            final(self).contents() == old(self).contents().insert(key.key(), *final(r)),
            old(self).contents().contains_key(key.key()) ==> *r == old(self).contents()[key.key()]
                && final(self).version() == old(self).version(),
            !old(self).contents().contains_key(key.key()) ==> call_ensures(thunk, (), *r)
                && final(self).version() == old(self).version() + 1,
            *final(r) == *r ==> final(self).contents() == entry_or_insert(
                old(self).contents(),
                key.key(),
                *r,
            ),
    {
        match self.find(&key) {
            Some(i) => {
                proof {
                    lemma_map_of_index(self.pairs(), i as int);
                    assert(self.contents().insert(key.key(), self.contents()[key.key()])
                        =~= self.contents());
                }
                self.value_at(i)
            },
            None => {
                proof {
                    lemma_map_of_contains(self.pairs(), key.key());
                }
                let v = thunk();
                self.version = self.version + 1;
                let ghost old_pairs = self.pairs();
                let ghost old_contents = self.contents();
                let n = self.entries.len();
                self.entries.push((key, v));
                proof {
                    assert(self.pairs() =~= old_pairs.push((key.key(), v)));
                    assert(self.pairs().drop_last() =~= old_pairs);
                    assert(self.contents() == old_contents.insert(key.key(), v));
                    assert(keys_unique(self.pairs()));
                    assert forall|v2: V|
                        #[trigger] old_contents.insert(key.key(), v).insert(key.key(), v2)
                            == old_contents.insert(key.key(), v2) by {
                        assert(old_contents.insert(key.key(), v).insert(key.key(), v2)
                            =~= old_contents.insert(key.key(), v2));
                    };
                }
                self.value_at(n)
            },
        }
    }

    /// Insert the value under the key, replacing any value already stored
    /// there. Only an insertion of a new key counts as a structural mutation.
    pub fn upsert(&mut self, key: ValidatedKey<K>, value: V)
        requires
            old(self).wf(),
            key.wf(),
            !old(self).contents().contains_key(key.key()) ==> old(self).version() < u64::MAX,
        ensures
            final(self).wf(),
            final(self).contents() == old(self).contents().insert(key.key(), value),
            final(self).version() == if old(self).contents().contains_key(key.key()) {
                old(self).version()
            } else {
                (old(self).version() + 1) as u64
            },
    {
        match self.find(&key) {
            Some(i) => {
                proof {
                    lemma_map_of_index(self.pairs(), i as int);
                }
                let r = self.value_at(i);
                *r = value;
            },
            None => {
                proof {
                    lemma_map_of_contains(self.pairs(), key.key());
                }
                self.version = self.version + 1;
                let ghost old_pairs = self.pairs();
                let ghost old_contents = self.contents();
                self.entries.push((key, value));
                proof {
                    assert(self.pairs() =~= old_pairs.push((key.key(), value)));
                    assert(self.pairs().drop_last() =~= old_pairs);
                    assert(self.contents() == old_contents.insert(key.key(), value));
                    assert(keys_unique(self.pairs()));
                }
            },
        }
    }

    /// Begin a snapshot iteration over the contents at call time. The handle
    /// is invalidated by any structural mutation of the accumulator.
    pub fn snapshot_iterate(&self) -> (it: SnapshotIter)
        ensures
            it.version() == self.version(),
            it.cursor() == 0,
    {
        SnapshotIter { version: self.version, cursor: 0 }
    }

    /// Each stored pair is in the contents, under its own key. This is what
    /// makes a completed snapshot iteration faithful: every yielded pair is
    /// an entry of the mapping.
    pub proof fn lemma_pairs_in_contents(self)
        requires
            self.wf(),
        ensures
            forall|i: int|
                0 <= i < self.pairs().len() ==> self.contents().contains_key(
                    (#[trigger] self.pairs()[i]).0,
                ) && self.contents()[self.pairs()[i].0] == self.pairs()[i].1,
    {
        assert forall|i: int| 0 <= i < self.pairs().len() implies self.contents().contains_key(
            (#[trigger] self.pairs()[i]).0,
        ) && self.contents()[self.pairs()[i].0] == self.pairs()[i].1 by {
            lemma_map_of_index(self.pairs(), i);
        };
    }
}

/// An in-flight snapshot iteration met a structural mutation: the pairs it
/// would yield no longer reflect the contents at the time it began.
#[derive(Debug)]
pub struct BorrowViolationError;

/// A snapshot iteration handle: it remembers the accumulator's version at
/// the time the snapshot began and refuses to yield once that version is
/// gone, rather than yielding corrupted pairs.
pub struct SnapshotIter {
    version: u64,
    cursor: usize,
}

impl SnapshotIter {
    /// The accumulator version this snapshot was begun at.
    pub closed spec fn version(self) -> u64 {
        self.version
    }

    /// How many pairs have been yielded so far.
    pub closed spec fn cursor(self) -> int {
        self.cursor as int
    }

    /// Yield the next pair of the snapshot: the entries in insertion order,
    /// then `None`. If the accumulator has structurally changed since the
    /// snapshot began, report the violation instead of yielding anything.
    pub fn next<'a, K: AccumulatorKey, V>(
        &mut self,
        acc: &'a ValidatedAccumulator<K, V>,
    ) -> (r: Result<Option<(&'a K, &'a V)>, BorrowViolationError>)
        ensures
            r is Err <==> old(self).version() != acc.version(),
            r is Err ==> *final(self) == *old(self),
            old(self).version() == acc.version() ==> {
                &&& final(self).version() == old(self).version()
                &&& if old(self).cursor() < acc.pairs().len() {
                    &&& r matches Ok(Some(p)) ==> p.0@ == acc.pairs()[old(self).cursor()].0
                        && *p.1 == acc.pairs()[old(self).cursor()].1
                    &&& r is Ok && (r matches Ok(q) ==> q is Some)
                    &&& final(self).cursor() == old(self).cursor() + 1
                } else {
                    &&& r matches Ok(q) ==> q is None
                    &&& r is Ok
                    &&& final(self).cursor() == old(self).cursor()
                }
            },
    {
        if self.version != acc.version {
            return Err(BorrowViolationError);
        }
        if self.cursor < acc.entries.len() {
            let e = &acc.entries[self.cursor];
            self.cursor = self.cursor + 1;
            Ok(Some((e.0.raw(), &e.1)))
        } else {
            Ok(None)
        }
    }
}

/// The entry-or-insert step on abstract contents: what one call of
/// `get_or_insert` does to the mapping when the caller does not write
/// through the returned borrow.
pub open spec fn entry_or_insert<KV, V>(m: Map<KV, V>, k: KV, d: V) -> Map<KV, V> {
    if m.contains_key(k) {
        m
    } else {
        m.insert(k, d)
    }
}

/// Law: entry-or-insert consumes a default at most once per key. After one
/// entry-or-insert of a key, a second one with the same key leaves the
/// contents unchanged, whatever default it carries: its default is never
/// used.
pub proof fn lemma_entry_or_insert_once<KV, V>(m: Map<KV, V>, k: KV, d1: V, d2: V)
    ensures
        entry_or_insert(entry_or_insert(m, k, d1), k, d2) == entry_or_insert(m, k, d1),
{
    assert(entry_or_insert(m, k, d1).contains_key(k));
}

/// Law: a lookup is a pure function of the contents. The contract of `get`
/// pins the result down, so any two results it admits for the same
/// accumulator and key are identical; repeated calls without intervening
/// mutation cannot differ.
pub proof fn lemma_get_deterministic<KV, V>(m: Map<KV, V>, k: KV, r1: Option<V>, r2: Option<V>)
    requires
        r1 is Some <==> m.contains_key(k),
        r2 is Some <==> m.contains_key(k),
        r1 matches Some(v) ==> v == m[k],
        r2 matches Some(v) ==> v == m[k],
    ensures
        r1 == r2,
{
}

} // verus!
