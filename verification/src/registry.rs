//! The in-memory account-id to live-adapter index. Registering an id
//! atomically replaces any prior adapter under that id; nothing here is
//! persisted, the restore path rebuilds the table at process start.

use vstd::prelude::*;

use crate::credentials::ProviderInstance;
use crate::strutil::str_eq;

verus! {

/// The runtime table of account id to live adapter.
pub struct ProviderRegistry {
    entries: Vec<(String, ProviderInstance)>,
}

/// The map an entry list denotes; a later entry wins over an earlier one.
pub open spec fn map_of(entries: Seq<(String, ProviderInstance)>) -> Map<
    Seq<char>,
    ProviderInstance,
>
    decreases entries.len(),
{
    if entries.len() == 0 {
        Map::empty()
    } else {
        map_of(entries.drop_last()).insert(entries.last().0@, entries.last().1)
    }
}

proof fn lemma_map_of_keys(entries: Seq<(String, ProviderInstance)>, k: Seq<char>)
    ensures
        map_of(entries).contains_key(k) == exists|i: int|
            0 <= i < entries.len() && entries[i].0@ == k,
    decreases entries.len(),
{
    if entries.len() > 0 {
        lemma_map_of_keys(entries.drop_last(), k);
        if entries.last().0@ == k {
            assert(entries[entries.len() - 1].0@ == k);
        } else if map_of(entries.drop_last()).contains_key(k) {
            let i = choose|i: int|
                0 <= i < entries.drop_last().len() && entries.drop_last()[i].0@ == k;
            assert(entries[i].0@ == k);
        } else if exists|i: int| 0 <= i < entries.len() && entries[i].0@ == k {
            let i = choose|i: int| 0 <= i < entries.len() && entries[i].0@ == k;
            assert(i < entries.len() - 1);
            assert(entries.drop_last()[i].0@ == k);
        }
    }
}

proof fn lemma_map_of_last_match(entries: Seq<(String, ProviderInstance)>, i: int)
    requires
        0 <= i < entries.len(),
        forall|j: int| i < j < entries.len() ==> entries[j].0@ != entries[i].0@,
    ensures
        map_of(entries).contains_key(entries[i].0@),
        map_of(entries)[entries[i].0@] == entries[i].1,
    decreases entries.len(),
{
    lemma_map_of_keys(entries, entries[i].0@);
    if i == entries.len() - 1 {
    } else {
        assert(entries.drop_last()[i] == entries[i]);
        lemma_map_of_last_match(entries.drop_last(), i);
    }
}

proof fn lemma_map_of_remove(entries: Seq<(String, ProviderInstance)>, i: int)
    requires
        0 <= i < entries.len(),
        forall|j: int| 0 <= j < entries.len() && j != i ==> entries[j].0@ != entries[i].0@,
    ensures
        map_of(entries.remove(i)) =~= map_of(entries).remove(entries[i].0@),
    decreases entries.len(),
{
    let k = entries[i].0@;
    lemma_map_of_keys(entries, k);
    lemma_map_of_keys(entries.remove(i), k);
    if i == entries.len() - 1 {
        assert(entries.remove(i) =~= entries.drop_last());
        assert(map_of(entries) == map_of(entries.drop_last()).insert(k, entries.last().1));
        assert forall|kk: Seq<char>| #[trigger]
            map_of(entries.drop_last()).contains_key(kk) implies map_of(
            entries,
        ).remove(k).contains_key(kk) || kk == k by {}
        assert(!map_of(entries.drop_last()).contains_key(k)) by {
            lemma_map_of_keys(entries.drop_last(), k);
            if exists|j: int|
                0 <= j < entries.drop_last().len() && entries.drop_last()[j].0@ == k {
                let j = choose|j: int|
                    0 <= j < entries.drop_last().len() && entries.drop_last()[j].0@ == k;
                assert(entries[j].0@ == k);
            }
        }
        assert(map_of(entries.drop_last()) =~= map_of(entries).remove(k));
    } else {
        let shorter = entries.drop_last();
        assert(entries.remove(i).drop_last() =~= shorter.remove(i));
        assert(entries.remove(i).last() == entries.last());
        assert(shorter[i] == entries[i]);
        lemma_map_of_remove(shorter, i);
        assert(map_of(entries.remove(i)) == map_of(shorter.remove(i)).insert(
            entries.last().0@,
            entries.last().1,
        ));
        assert(entries.last().0@ != k);
        assert(map_of(shorter.remove(i)).insert(entries.last().0@, entries.last().1) =~= map_of(
            shorter,
        ).remove(k).insert(entries.last().0@, entries.last().1));
        assert(map_of(shorter).remove(k).insert(entries.last().0@, entries.last().1) =~= map_of(
            shorter,
        ).insert(entries.last().0@, entries.last().1).remove(k));
    }
}

proof fn lemma_map_of_len(entries: Seq<(String, ProviderInstance)>)
    requires
        forall|i: int, j: int| 0 <= i < j < entries.len() ==> entries[i].0@ != entries[j].0@,
    ensures
        map_of(entries).dom().len() == entries.len(),
        map_of(entries).dom().finite(),
    decreases entries.len(),
{
    if entries.len() > 0 {
        let shorter = entries.drop_last();
        lemma_map_of_len(shorter);
        let k = entries.last().0@;
        assert(!map_of(shorter).contains_key(k)) by {
            lemma_map_of_keys(shorter, k);
            if exists|j: int| 0 <= j < shorter.len() && shorter[j].0@ == k {
                let j = choose|j: int| 0 <= j < shorter.len() && shorter[j].0@ == k;
                assert(entries[j].0@ == k);
            }
        }
        assert(map_of(entries).dom() =~= map_of(shorter).dom().insert(k));
        vstd::set::axiom_set_insert_len(map_of(shorter).dom(), k);
    }
}

impl ProviderRegistry {
    /// Entry keys are pairwise distinct, so removal by key is exact.
    pub closed spec fn wf(&self) -> bool {
        forall|i: int, j: int|
            0 <= i < j < self.entries@.len() ==> self.entries@[i].0@ != self.entries@[j].0@
    }

    /// The table as a map from account id to adapter.
    pub closed spec fn view(&self) -> Map<Seq<char>, ProviderInstance> {
        map_of(self.entries@)
    }

    /// An empty table.
    pub fn new() -> (r: ProviderRegistry)
        ensures
            r.wf(),
            r@ == Map::<Seq<char>, ProviderInstance>::empty(),
    {
        ProviderRegistry { entries: Vec::new() }
    }

    /// The index of the entry holding an id.
    fn find_index(&self, account_id: &str) -> (r: Option<usize>)
        requires
            self.wf(),
        ensures
            r matches Some(i) && i < self.entries@.len() && self.entries@[i as int].0@
                == account_id@ ==> self@.contains_key(account_id@),
            (r is Some) == self@.contains_key(account_id@),
            r matches Some(i) ==> i < self.entries@.len() && self.entries@[i as int].0@
                == account_id@,
    {
        let n = self.entries.len();
        for i in 0..n
            invariant
                n == self.entries@.len(),
                forall|j: int| 0 <= j < i ==> self.entries@[j].0@ != account_id@,
        {
            if str_eq(self.entries[i].0.as_str(), account_id) {
                proof {
                    lemma_map_of_keys(self.entries@, account_id@);
                }
                return Some(i);
            }
        }
        proof {
            lemma_map_of_keys(self.entries@, account_id@);
        }
        None
    }

    /// Register an adapter under an account id, replacing any prior
    /// adapter for the same id in one step.
    pub fn register(&mut self, account_id: String, provider: ProviderInstance)
        requires
            old(self).wf(),
        ensures
            final(self).wf(),
            final(self)@ =~= old(self)@.insert(account_id@, provider),
    {
        let found = self.find_index(account_id.as_str());
        match found {
            Some(i) => {
                proof {
                    lemma_map_of_remove(self.entries@, i as int);
                }
                let ghost before = self.entries@;
                self.entries.remove(i);
                proof {
                    assert forall|a: int, b: int|
                        0 <= a < b < self.entries@.len() implies self.entries@[a].0@
                        != self.entries@[b].0@ by {
                        let before_a = if a < i as int {
                            a
                        } else {
                            a + 1
                        };
                        let before_b = if b < i as int {
                            b
                        } else {
                            b + 1
                        };
                        assert(self.entries@[a] == before[before_a]);
                        assert(self.entries@[b] == before[before_b]);
                    }
                }
            },
            None => {},
        }
        let ghost pre_push = self.entries@;
        self.entries.push((account_id, provider));
        proof {
            assert(self.entries@.drop_last() =~= pre_push);
            lemma_map_of_keys(pre_push, self.entries@.last().0@);
            assert forall|a: int, b: int|
                0 <= a < b < self.entries@.len() implies self.entries@[a].0@
                != self.entries@[b].0@ by {
                if b == self.entries@.len() - 1 {
                    assert(self.entries@[a] == pre_push[a]);
                    assert(!map_of(pre_push).contains_key(self.entries@.last().0@));
                }
            }
        }
    }

    /// Drop the adapter registered under an account id, if any.
    pub fn unregister(&mut self, account_id: &str)
        requires
            old(self).wf(),
        ensures
            final(self).wf(),
            final(self)@ =~= old(self)@.remove(account_id@),
    {
        let found = self.find_index(account_id);
        match found {
            Some(i) => {
                proof {
                    lemma_map_of_remove(self.entries@, i as int);
                }
                let ghost before = self.entries@;
                self.entries.remove(i);
                proof {
                    assert forall|a: int, b: int|
                        0 <= a < b < self.entries@.len() implies self.entries@[a].0@
                        != self.entries@[b].0@ by {
                        let before_a = if a < i as int {
                            a
                        } else {
                            a + 1
                        };
                        let before_b = if b < i as int {
                            b
                        } else {
                            b + 1
                        };
                        assert(self.entries@[a] == before[before_a]);
                        assert(self.entries@[b] == before[before_b]);
                    }
                }
            },
            None => {
                proof {
                    assert(self@ =~= self@.remove(account_id@));
                }
            },
        }
    }

    /// Look the adapter for an account id up.
    pub fn get(&self, account_id: &str) -> (r: Option<&ProviderInstance>)
        requires
            self.wf(),
        ensures
            (r is Some) == self@.contains_key(account_id@),
            r matches Some(p) ==> self@.contains_key(account_id@) && self@[account_id@] == *p,
    {
        let found = self.find_index(account_id);
        match found {
            Some(i) => {
                proof {
                    lemma_map_of_last_match(self.entries@, i as int);
                }
                Some(&self.entries[i].1)
            },
            None => None,
        }
    }

    /// How many adapters are registered.
    pub fn len(&self) -> (r: usize)
        requires
            self.wf(),
        ensures
            r == self@.dom().len(),
    {
        proof {
            lemma_map_of_len(self.entries@);
        }
        self.entries.len()
    }
}

} // verus!
