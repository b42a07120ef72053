use vstd::prelude::*;

use crate::states::States;

verus! {

/// A table from states to values, in which every state occurs at most once.
#[derive(Debug)]
pub struct StateTable<V> {
    entries: Vec<(States, V)>,
}

/// No state occurs twice among the entries.
pub open spec fn distinct_keys<V>(entries: Seq<(States, V)>) -> bool {
    forall|i: int, j: int|
        0 <= i < entries.len() && 0 <= j < entries.len() && i != j ==> entries[i].0 != entries[j].0
}

/// The map that a sequence of entries with distinct keys stands for.
pub open spec fn entries_map<V>(entries: Seq<(States, V)>) -> Map<States, V> {
    Map::new(
        |k: States| exists|i: int| 0 <= i < entries.len() && entries[i].0 == k,
        |k: States| entries[choose|i: int| 0 <= i < entries.len() && entries[i].0 == k].1,
    )
}

/// With distinct keys, the entry at index `i` is what the map holds for its key.
pub proof fn lemma_entry_in_map<V>(entries: Seq<(States, V)>, i: int)
    requires
        distinct_keys(entries),
        0 <= i < entries.len(),
    ensures
        entries_map(entries).contains_key(entries[i].0),
        entries_map(entries)[entries[i].0] == entries[i].1,
{
    let k = entries[i].0;
    assert(exists|j: int| 0 <= j < entries.len() && entries[j].0 == k);
    let j = choose|j: int| 0 <= j < entries.len() && entries[j].0 == k;
    assert(j == i);
}

impl<V> View for StateTable<V> {
    type V = Map<States, V>;

    closed spec fn view(&self) -> Map<States, V> {
        entries_map(self.entries@)
    }
}

impl<V> StateTable<V> {
    #[verifier::type_invariant]
    spec fn inv(self) -> bool {
        distinct_keys(self.entries@)
    }
}

impl<V: Copy> StateTable<V> {
    /// An empty table.
    pub fn new() -> (r: Self)
        ensures
            r@ == Map::<States, V>::empty(),
    {
        let r = StateTable { entries: Vec::new() };
        assert(r@ =~= Map::<States, V>::empty());
        r
    }

    /// Number of states in the table.
    pub fn len(&self) -> (r: usize)
        ensures
            r == self@.len(),
            self@.dom().finite(),
    {
        proof {
            use_type_invariant(self);
            self.lemma_dom_len();
        }
        self.entries.len()
    }

    proof fn lemma_dom_len(&self)
        requires
            distinct_keys(self.entries@),
        ensures
            self@.dom().finite(),
            self@.dom().len() == self.entries@.len(),
    {
        let e = self.entries@;
        let keys = e.map_values(|p: (States, V)| p.0);
        assert forall|q: States| self@.dom().contains(q) == #[trigger] keys.to_set().contains(q) by {
            if self@.dom().contains(q) {
                let i = choose|i: int| 0 <= i < e.len() && e[i].0 == q;
                assert(keys[i] == q);
            }
            if keys.to_set().contains(q) {
                let i = choose|i: int| 0 <= i < keys.len() && keys[i] == q;
                assert(e[i].0 == q);
            }
        }
        assert(self@.dom() =~= keys.to_set());
        assert forall|i: int, j: int| 0 <= i < keys.len() && 0 <= j < keys.len() && i != j implies keys[i] != keys[j] by {}
        keys.unique_seq_to_set();
    }

    /// Position of `k` among the entries, if it occurs.
    fn find(&self, k: &States) -> (r: Option<usize>)
        ensures
            match r {
                Some(i) => i < self.entries@.len() && self.entries@[i as int].0 == *k,
                None => forall|i: int| 0 <= i < self.entries@.len() ==> self.entries@[i].0 != *k,
            },
    {
        let mut i: usize = 0;
        while i < self.entries.len()
            invariant
                i <= self.entries@.len(),
                forall|j: int| 0 <= j < i ==> self.entries@[j].0 != *k,
            decreases self.entries@.len() - i,
        {
            if self.entries[i].0 == *k {
                return Some(i);
            }
            i = i + 1;
        }
        None
    }

    /// The value stored for `k`, if any.
    pub fn get(&self, k: &States) -> (r: Option<&V>)
        ensures
            r.is_some() == self@.contains_key(*k),
            r.is_some() ==> *r.unwrap() == self@[*k],
    {
        proof {
            use_type_invariant(self);
        }
        match self.find(k) {
            Some(i) => {
                proof {
                    lemma_entry_in_map(self.entries@, i as int);
                }
                Some(&self.entries[i].1)
            },
            None => {
                assert(!self@.contains_key(*k));
                None
            },
        }
    }

    /// Stores `v` for `k`, replacing what was stored for it.
    pub fn insert(&mut self, k: States, v: V)
        ensures
            final(self)@ == old(self)@.insert(k, v),
    {
        proof {
            use_type_invariant(&*self);
        }
        let ghost old_entries = self.entries@;
        let found = self.find(&k);
        let mut entries: Vec<(States, V)> = Vec::new();
        std::mem::swap(&mut entries, &mut self.entries);
        match found {
            Some(i) => {
                entries.set(i, (k, v));
            },
            None => {
                entries.push((k, v));
            },
        }
        let ghost new_entries = entries@;
        proof {
            assert(distinct_keys(new_entries));
            let pos: int = match found {
                Some(i) => i as int,
                None => old_entries.len() as int,
            };
            assert(new_entries[pos] == (k, v));
            lemma_entry_in_map(new_entries, pos);
            assert forall|q: States| #[trigger]
                entries_map(new_entries).contains_key(q) == entries_map(old_entries).insert(
                    k,
                    v,
                ).contains_key(q) by {
                if q != k && entries_map(old_entries).contains_key(q) {
                    let j = choose|j: int| 0 <= j < old_entries.len() && old_entries[j].0 == q;
                    assert(new_entries[j] == old_entries[j]);
                }
                if entries_map(new_entries).contains_key(q) && q != k {
                    let j = choose|j: int| 0 <= j < new_entries.len() && new_entries[j].0 == q;
                    assert(j != pos);
                    assert(old_entries[j] == new_entries[j]);
                }
            }
            assert forall|q: States|
                q != k && #[trigger] entries_map(old_entries).contains_key(q) implies entries_map(
                    new_entries,
                )[q] == entries_map(old_entries)[q] by {
                let j = choose|j: int| 0 <= j < old_entries.len() && old_entries[j].0 == q;
                lemma_entry_in_map(old_entries, j);
                assert(new_entries[j] == old_entries[j]);
                lemma_entry_in_map(new_entries, j);
            }
            assert(entries_map(new_entries) =~= entries_map(old_entries).insert(k, v));
        }
        self.entries = entries;
    }

    /// The entries of the table, one per state.
    pub fn entries(&self) -> (r: &Vec<(States, V)>)
        ensures
            distinct_keys(r@),
            entries_map(r@) == self@,
    {
        proof {
            use_type_invariant(self);
        }
        &self.entries
    }
}

impl<V: Copy> Clone for StateTable<V> {
    fn clone(&self) -> (r: Self)
        ensures
            r@ == self@,
    {
        proof {
            use_type_invariant(self);
        }
        let mut entries: Vec<(States, V)> = Vec::new();
        let mut i: usize = 0;
        while i < self.entries.len()
            invariant
                i <= self.entries@.len(),
                entries@ == self.entries@.subrange(0, i as int),
            decreases self.entries@.len() - i,
        {
            entries.push(self.entries[i]);
            i = i + 1;
        }
        assert(entries@ =~= self.entries@);
        StateTable { entries }
    }
}

} // verus!
