//! The account ledger: a key-to-account store addressed by the derived
//! 20-byte key, modelled as a mathematical map from key bytes to accounts.

use vstd::prelude::*;
use crate::account::Account;
use crate::keys::{key_eq, ShortAccountHash};

verus! {

/// One ledger row.
pub struct LedgerEntry {
    pub key: ShortAccountHash,
    pub account: Account,
}

/// The map denoted by a sequence of rows, later rows taking precedence.
pub open spec fn entries_map(s: Seq<LedgerEntry>) -> Map<Seq<u8>, Account>
    decreases s.len(),
{
    if s.len() == 0 {
        Map::empty()
    } else {
        entries_map(s.drop_last()).insert(s.last().key@, s.last().account)
    }
}

/// A key-to-account store. Supports lookup, upsert and membership tests;
/// no iteration, no deletion.
pub struct Ledger {
    entries: Vec<LedgerEntry>,
}

impl View for Ledger {
    type V = Map<Seq<u8>, Account>;

    closed spec fn view(&self) -> Map<Seq<u8>, Account> {
        entries_map(self.entries@)
    }
}

/// Distinctness of row keys, the ledger's internal invariant.
pub open spec fn distinct_keys(s: Seq<LedgerEntry>) -> bool {
    forall|i: int, j: int| 0 <= i < j < s.len() ==> s[i].key@ != s[j].key@
}

proof fn lemma_entries_map_domain(s: Seq<LedgerEntry>, k: Seq<u8>)
    ensures
        entries_map(s).contains_key(k) <==> exists|i: int| 0 <= i < s.len() && s[i].key@ == k,
    decreases s.len(),
{
    if s.len() > 0 {
        lemma_entries_map_domain(s.drop_last(), k);
        if s.last().key@ == k {
            assert(s[s.len() - 1].key@ == k);
        } else {
            if entries_map(s).contains_key(k) {
                let i = choose|i: int| 0 <= i < s.drop_last().len() && s.drop_last()[i].key@ == k;
                assert(s[i].key@ == k);
            }
            if exists|i: int| 0 <= i < s.len() && s[i].key@ == k {
                let i = choose|i: int| 0 <= i < s.len() && s[i].key@ == k;
                assert(s.drop_last()[i].key@ == k);
            }
        }
    }
}

proof fn lemma_entries_map_index(s: Seq<LedgerEntry>, i: int)
    requires
        distinct_keys(s),
        0 <= i < s.len(),
    ensures
        entries_map(s).contains_key(s[i].key@),
        entries_map(s)[s[i].key@] == s[i].account,
    decreases s.len(),
{
    if i == s.len() - 1 {
    } else {
        assert(distinct_keys(s.drop_last()));
        lemma_entries_map_index(s.drop_last(), i);
        assert(s.drop_last()[i] == s[i]);
        assert(s.last().key@ != s[i].key@);
    }
}

proof fn lemma_entries_map_update(s: Seq<LedgerEntry>, i: int, e: LedgerEntry)
    requires
        distinct_keys(s),
        0 <= i < s.len(),
        s[i].key@ == e.key@,
    ensures
        entries_map(s.update(i, e)) =~= entries_map(s).insert(e.key@, e.account),
        distinct_keys(s.update(i, e)),
    decreases s.len(),
{
    let t = s.update(i, e);
    assert(t.len() == s.len());
    if i == s.len() - 1 {
        assert(t.drop_last() =~= s.drop_last());
        assert(t.last() == e);
    } else {
        assert(distinct_keys(s.drop_last()));
        assert(s.drop_last()[i] == s[i]);
        lemma_entries_map_update(s.drop_last(), i, e);
        assert(t.drop_last() =~= s.drop_last().update(i, e));
        assert(t.last() == s.last());
        assert(s.last().key@ != e.key@);
    }
}

impl Ledger {
    /// Row keys are pairwise distinct.
    pub closed spec fn wf(&self) -> bool {
        distinct_keys(self.entries@)
    }

    /// An empty ledger.
    pub fn new() -> (r: Ledger)
        ensures
            r.wf(),
            r@ =~= Map::<Seq<u8>, Account>::empty(),
    {
        Ledger { entries: Vec::new() }
    }

    /// Fetch the account stored under a key, if any.
    pub fn lookup(&self, key: &ShortAccountHash) -> (r: Option<Account>)
        requires
            self.wf(),
        ensures
            r == if self@.contains_key(key@) {
                Some(self@[key@])
            } else {
                Option::<Account>::None
            },
    {
        let n = self.entries.len();
        let mut i: usize = 0;
        while i < n
            invariant
                n == self.entries@.len(),
                i <= n,
                self.wf(),
                forall|j: int| 0 <= j < i ==> self.entries@[j].key@ != key@,
            decreases n - i,
        {
            if key_eq(&self.entries[i].key, key) {
                proof {
                    lemma_entries_map_index(self.entries@, i as int);
                }
                return Some(self.entries[i].account);
            }
            i = i + 1;
        }
        proof {
            lemma_entries_map_domain(self.entries@, key@);
        }
        None
    }

    /// Is any account stored under this key?
    pub fn contains(&self, key: &ShortAccountHash) -> (r: bool)
        requires
            self.wf(),
        ensures
            r == self@.contains_key(key@),
    {
        self.lookup(key).is_some()
    }

    /// Store an account under a key, replacing any previous row.
    pub fn upsert(&mut self, key: &ShortAccountHash, account: Account)
        requires
            old(self).wf(),
        ensures
            final(self).wf(),
            final(self)@ =~= old(self)@.insert(key@, account),
    {
        let n = self.entries.len();
        let mut i: usize = 0;
        while i < n
            invariant
                n == self.entries@.len(),
                i <= n,
                self.wf(),
                self.entries@ == old(self).entries@,
                forall|j: int| 0 <= j < i ==> self.entries@[j].key@ != key@,
            decreases n - i,
        {
            if key_eq(&self.entries[i].key, key) {
                let e = LedgerEntry { key: *key, account };
                proof {
                    lemma_entries_map_update(self.entries@, i as int, e);
                }
                self.entries[i] = e;
                return ;
            }
            i = i + 1;
        }
        let e = LedgerEntry { key: *key, account };
        proof {
            lemma_entries_map_domain(self.entries@, key@);
            assert(self.entries@.push(e).drop_last() =~= self.entries@);
            assert(forall|j: int|
                0 <= j < self.entries@.len() ==> self.entries@.push(e)[j] == self.entries@[j]);
        }
        self.entries.push(e);
    }
}

} // verus!
