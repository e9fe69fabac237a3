use vstd::prelude::*;

use crate::hash::Digest;
use crate::tx::{TransactionOutpoint, UtxoEntry};

verus! {

/// A key of a store: a plain value whose equality is decidable.
pub trait StoreKey: Sized + Copy {
    fn same(&self, other: &Self) -> (r: bool)
        ensures
            r == (*self == *other),
    ;
}

impl StoreKey for Digest {
    fn same(&self, other: &Digest) -> (r: bool) {
        *self == *other
    }
}

impl StoreKey for TransactionOutpoint {
    fn same(&self, other: &TransactionOutpoint) -> (r: bool) {
        *self == *other
    }
}

/// The value stored last under `key` in `entries`, if any.
pub open spec fn lookup<K, V>(entries: Seq<(K, V)>, key: K) -> Option<V>
    decreases entries.len(),
{
    if entries.len() == 0 {
        None
    } else if entries.last().0 == key {
        Some(entries.last().1)
    } else {
        lookup(entries.drop_last(), key)
    }
}

/// A snapshot of a keyed store. Entries are kept in the order in which they
/// were written; a later write under a key hides earlier ones.
pub struct KeyedStore<K, V> {
    pub entries: Vec<(K, V)>,
}

/// A store keyed by block hash.
pub type BlockStore<V> = KeyedStore<Digest, V>;

/// A collection of UTXO entries keyed by outpoint.
pub type UtxoCollection = KeyedStore<TransactionOutpoint, UtxoEntry>;

impl<K: StoreKey, V> KeyedStore<K, V> {
    pub open spec fn spec_get(&self, key: K) -> Option<V> {
        lookup(self.entries@, key)
    }

    pub fn new() -> (r: KeyedStore<K, V>)
        ensures
            forall|k: K| #[trigger] r.spec_get(k) is None,
    {
        KeyedStore { entries: Vec::new() }
    }

    pub fn insert(&mut self, key: K, value: V)
        ensures
            final(self).spec_get(key) == Some(value),
            forall|k: K| k != key ==> #[trigger] final(self).spec_get(k) == old(self).spec_get(k),
    {
        self.entries.push((key, value));
        assert(self.entries@.drop_last() =~= old(self).entries@);
    }

    pub fn get(&self, key: &K) -> (r: Option<&V>)
        ensures
            match r {
                Some(v) => self.spec_get(*key) == Some(*v),
                None => self.spec_get(*key) is None,
            },
    {
        let mut i: usize = self.entries.len();
        assert(self.entries@.subrange(0, i as int) =~= self.entries@);
        while i > 0
            invariant
                i <= self.entries@.len(),
                lookup(self.entries@, *key) == lookup(self.entries@.subrange(0, i as int), *key),
            decreases i,
        {
            assert(self.entries@.subrange(0, i as int).drop_last() =~= self.entries@.subrange(0, i - 1));
            if self.entries[i - 1].0.same(key) {
                return Some(&self.entries[i - 1].1);
            }
            i -= 1;
        }
        None
    }
}

/// The UTXO set changes caused by one chain block's acceptance.
pub struct UtxoDiff {
    pub added: UtxoCollection,
    pub removed: UtxoCollection,
}

impl UtxoDiff {
    pub fn removed(&self) -> (r: &UtxoCollection)
        ensures
            *r == self.removed,
    {
        &self.removed
    }
}

/// The position of the first occurrence of `h` in `s`, if any.
pub open spec fn first_occurrence(s: Seq<Digest>, h: Digest) -> Option<int>
    decreases s.len(),
{
    if s.len() == 0 {
        None
    } else if s[0] == h {
        Some(0)
    } else {
        match first_occurrence(s.drop_first(), h) {
            Some(i) => Some(i + 1),
            None => None,
        }
    }
}

/// What the first occurrence is: a position holding `h`, with no earlier one.
pub proof fn lemma_first_occurrence(s: Seq<Digest>, h: Digest)
    ensures
        match first_occurrence(s, h) {
            Some(i) => 0 <= i < s.len() && s[i] == h && forall|j: int| 0 <= j < i ==> s[j] != h,
            None => forall|j: int| 0 <= j < s.len() ==> s[j] != h,
        },
    decreases s.len(),
{
    if s.len() > 0 && s[0] != h {
        lemma_first_occurrence(s.drop_first(), h);
        assert forall|j: int| 0 < j < s.len() implies s[j] == s.drop_first()[j - 1] by {}
    }
}

/// A snapshot of the selected chain: `hashes[i]` is the chain block at
/// position `first_index + i`.
pub struct SelectedChainStore {
    pub first_index: u64,
    pub hashes: Vec<Digest>,
}

impl SelectedChainStore {
    pub open spec fn spec_hash_at(&self, position: int) -> Option<Digest> {
        if self.first_index <= position < self.first_index + self.hashes@.len() {
            Some(self.hashes@[position - self.first_index])
        } else {
            None
        }
    }

    /// The position of `h`, where it is on the chain at a position that a `u64` holds.
    pub open spec fn spec_index_of(&self, h: Digest) -> Option<u64> {
        match first_occurrence(self.hashes@, h) {
            Some(i) => if self.first_index + i <= u64::MAX {
                Some((self.first_index + i) as u64)
            } else {
                None
            },
            None => None,
        }
    }

    pub open spec fn spec_tip(&self) -> Option<(u64, Digest)> {
        if 0 < self.hashes@.len() && self.first_index + self.hashes@.len() - 1 <= u64::MAX {
            Some(((self.first_index + self.hashes@.len() - 1) as u64, self.hashes@.last()))
        } else {
            None
        }
    }

    pub fn new(first_index: u64, hashes: Vec<Digest>) -> (r: SelectedChainStore)
        ensures
            r.first_index == first_index,
            r.hashes@ == hashes@,
    {
        SelectedChainStore { first_index, hashes }
    }

    pub fn get_by_index(&self, position: u64) -> (r: Option<Digest>)
        ensures
            r == self.spec_hash_at(position as int),
    {
        if position >= self.first_index && position - self.first_index < self.hashes.len() as u64 {
            Some(self.hashes[(position - self.first_index) as usize])
        } else {
            None
        }
    }

    pub fn get_by_hash(&self, h: &Digest) -> (r: Option<u64>)
        ensures
            r == self.spec_index_of(*h),
    {
        let mut i: usize = 0;
        assert(self.hashes@.subrange(0, self.hashes@.len() as int) =~= self.hashes@);
        while i < self.hashes.len()
            invariant
                i <= self.hashes@.len(),
                first_occurrence(self.hashes@, *h) == match first_occurrence(self.hashes@.subrange(i as int, self.hashes@.len() as int), *h) {
                    Some(j) => Some(j + i),
                    None => None,
                },
            decreases self.hashes@.len() - i,
        {
            let ghost rest = self.hashes@.subrange(i as int, self.hashes@.len() as int);
            assert(rest.drop_first() =~= self.hashes@.subrange(i + 1, self.hashes@.len() as int));
            if self.hashes[i] == *h {
                if self.first_index as u128 + i as u128 <= u64::MAX as u128 {
                    return Some(self.first_index + i as u64);
                } else {
                    return None;
                }
            }
            i += 1;
        }
        assert(self.hashes@.subrange(i as int, self.hashes@.len() as int).len() == 0);
        None
    }

    pub fn get_tip(&self) -> (r: Option<(u64, Digest)>)
        ensures
            r == self.spec_tip(),
    {
        let n = self.hashes.len();
        if n == 0 {
            return None;
        }
        if self.first_index as u128 + (n - 1) as u128 <= u64::MAX as u128 {
            Some((self.first_index + (n - 1) as u64, self.hashes[n - 1]))
        } else {
            None
        }
    }
}

} // verus!
