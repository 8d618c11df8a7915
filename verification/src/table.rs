use vstd::prelude::*;

verus! {

/// Keys that executable code can compare for equality of their views.
pub trait KeyEq: View + Sized {
    fn key_eq(&self, other: &Self) -> (r: bool)
        ensures
            r == (self@ == other@),
    ;
}

impl KeyEq for [u8; 32] {
    fn key_eq(&self, other: &Self) -> (r: bool) {
        let a = self.as_slice();
        let b = other.as_slice();
        let mut i: usize = 0;
        while i < 32
            invariant
                a@ == self@,
                b@ == other@,
                a@.len() == 32,
                b@.len() == 32,
                i <= 32,
                forall|j: int| 0 <= j < i ==> a@[j] == b@[j],
            decreases 32 - i,
        {
            if a[i] != b[i] {
                return false;
            }
            i = i + 1;
        }
        assert(self@ =~= other@);
        true
    }
}

impl KeyEq for ([u8; 32], [u8; 32]) {
    fn key_eq(&self, other: &Self) -> (r: bool) {
        self.0.key_eq(&other.0) && self.1.key_eq(&other.1)
    }
}

/// No two entries of `s` have keys with the same view.
pub open spec fn keys_unique<K: View, V>(s: Seq<(K, V)>) -> bool {
    forall|i: int, j: int|
        0 <= i < s.len() && 0 <= j < s.len() && i != j ==> #[trigger] s[i].0@ != #[trigger] s[j].0@
}

/// Some entry of `s` has a key whose view is `k`.
pub open spec fn has_key<K: View, V>(s: Seq<(K, V)>, k: K::V) -> bool {
    exists|i: int| 0 <= i < s.len() && #[trigger] s[i].0@ == k
}

/// The map that a sequence of entries stands for.
pub open spec fn entries_map<K: View, V: View>(s: Seq<(K, V)>) -> Map<K::V, V::V> {
    Map::new(
        |k: K::V| has_key(s, k),
        |k: K::V| s[choose|i: int| 0 <= i < s.len() && #[trigger] s[i].0@ == k].1@,
    )
}

/// Under unique keys, the entry at `i` is what the map holds for its key.
pub proof fn lemma_entries_map_at<K: View, V: View>(s: Seq<(K, V)>, i: int)
    requires
        keys_unique(s),
        0 <= i < s.len(),
    ensures
        entries_map(s).contains_key(s[i].0@),
        entries_map(s)[s[i].0@] == s[i].1@,
{
    let k = s[i].0@;
    assert(has_key(s, k));
    let j: int = choose|j: int| 0 <= j < s.len() && #[trigger] s[j].0@ == k;
    assert(s[j].0@ == k);
    assert(j == i);
}

/// Appending an entry whose key is new inserts it into the map.
pub proof fn lemma_entries_map_push<K: View, V: View>(s: Seq<(K, V)>, e: (K, V))
    requires
        keys_unique(s),
        !entries_map(s).contains_key(e.0@),
    ensures
        keys_unique(s.push(e)),
        entries_map(s.push(e)) =~= entries_map(s).insert(e.0@, e.1@),
{
    let t = s.push(e);
    assert forall|i: int, j: int|
        0 <= i < t.len() && 0 <= j < t.len() && i != j implies #[trigger] t[i].0@
        != #[trigger] t[j].0@ by {
        if i == s.len() {
            assert(t[j] == s[j]);
            if s[j].0@ == e.0@ {
                assert(has_key(s, e.0@));
            }
        } else if j == s.len() {
            assert(t[i] == s[i]);
            if s[i].0@ == e.0@ {
                assert(has_key(s, e.0@));
            }
        } else {
            assert(t[i] == s[i] && t[j] == s[j]);
        }
    }
    assert forall|k: K::V| #[trigger] entries_map(t).contains_key(k) <==> entries_map(
        s,
    ).insert(e.0@, e.1@).contains_key(k) by {
        if has_key(t, k) {
            let i: int = choose|i: int| 0 <= i < t.len() && #[trigger] t[i].0@ == k;
            if i < s.len() {
                assert(t[i] == s[i]);
                assert(has_key(s, k));
            }
        }
        if has_key(s, k) {
            let i: int = choose|i: int| 0 <= i < s.len() && #[trigger] s[i].0@ == k;
            assert(t[i] == s[i]);
            assert(has_key(t, k));
        }
        if k == e.0@ {
            assert(t[s.len() as int] == e);
            assert(has_key(t, k));
        }
    }
    assert forall|k: K::V| #[trigger] entries_map(t).contains_key(k) implies entries_map(t)[k]
        == entries_map(s).insert(e.0@, e.1@)[k] by {
        let i: int = choose|i: int| 0 <= i < t.len() && #[trigger] t[i].0@ == k;
        lemma_entries_map_at(t, i);
        if i < s.len() {
            assert(t[i] == s[i]);
            lemma_entries_map_at(s, i);
        } else {
            assert(t[i] == e);
        }
    }
}

/// Replacing the entry at `i` by one with the same key updates the map there.
pub proof fn lemma_entries_map_update<K: View, V: View>(s: Seq<(K, V)>, i: int, e: (K, V))
    requires
        keys_unique(s),
        0 <= i < s.len(),
        s[i].0@ == e.0@,
    ensures
        keys_unique(s.update(i, e)),
        entries_map(s.update(i, e)) =~= entries_map(s).insert(e.0@, e.1@),
{
    let t = s.update(i, e);
    assert forall|a: int, b: int|
        0 <= a < t.len() && 0 <= b < t.len() && a != b implies #[trigger] t[a].0@
        != #[trigger] t[b].0@ by {
        assert(s[a].0@ == t[a].0@);
        assert(s[b].0@ == t[b].0@);
    }
    assert forall|k: K::V| #[trigger] entries_map(t).contains_key(k) <==> entries_map(
        s,
    ).insert(e.0@, e.1@).contains_key(k) by {
        if has_key(t, k) {
            let a: int = choose|a: int| 0 <= a < t.len() && #[trigger] t[a].0@ == k;
            assert(s[a].0@ == k);
            assert(has_key(s, k));
        }
        if has_key(s, k) {
            let a: int = choose|a: int| 0 <= a < s.len() && #[trigger] s[a].0@ == k;
            assert(t[a].0@ == k);
            assert(has_key(t, k));
        }
        if k == e.0@ {
            assert(t[i].0@ == k);
            assert(has_key(t, k));
        }
    }
    assert forall|k: K::V| #[trigger] entries_map(t).contains_key(k) implies entries_map(t)[k]
        == entries_map(s).insert(e.0@, e.1@)[k] by {
        let a: int = choose|a: int| 0 <= a < t.len() && #[trigger] t[a].0@ == k;
        lemma_entries_map_at(t, a);
        if a != i {
            assert(t[a] == s[a]);
            lemma_entries_map_at(s, a);
        }
    }
}

/// Removing the entry at `i` removes its key from the map.
pub proof fn lemma_entries_map_remove<K: View, V: View>(s: Seq<(K, V)>, i: int)
    requires
        keys_unique(s),
        0 <= i < s.len(),
    ensures
        keys_unique(s.remove(i)),
        entries_map(s.remove(i)) =~= entries_map(s).remove(s[i].0@),
{
    let t = s.remove(i);
    let gone = s[i].0@;
    assert forall|a: int, b: int|
        0 <= a < t.len() && 0 <= b < t.len() && a != b implies #[trigger] t[a].0@
        != #[trigger] t[b].0@ by {
        let sa: int = if a < i { a } else { a + 1 };
        let sb: int = if b < i { b } else { b + 1 };
        assert(t[a] == s[sa]);
        assert(t[b] == s[sb]);
    }
    assert forall|k: K::V| #[trigger] entries_map(t).contains_key(k) <==> entries_map(
        s,
    ).remove(gone).contains_key(k) by {
        if has_key(t, k) {
            let a: int = choose|a: int| 0 <= a < t.len() && #[trigger] t[a].0@ == k;
            let sa: int = if a < i { a } else { a + 1 };
            assert(t[a] == s[sa]);
            assert(has_key(s, k));
            assert(sa != i);
        }
        if has_key(s, k) && k != gone {
            let a: int = choose|a: int| 0 <= a < s.len() && #[trigger] s[a].0@ == k;
            assert(a != i);
            let ta: int = if a < i { a } else { a - 1 };
            assert(t[ta] == s[a]);
            assert(has_key(t, k));
        }
    }
    assert forall|k: K::V| #[trigger] entries_map(t).contains_key(k) implies entries_map(t)[k]
        == entries_map(s).remove(gone)[k] by {
        let a: int = choose|a: int| 0 <= a < t.len() && #[trigger] t[a].0@ == k;
        let sa: int = if a < i { a } else { a + 1 };
        assert(t[a] == s[sa]);
        lemma_entries_map_at(t, a);
        lemma_entries_map_at(s, sa);
    }
}

/// A finite map kept as a vector of entries with distinct keys.
#[verifier::reject_recursive_types(K)]
#[verifier::reject_recursive_types(V)]
pub struct Table<K: View, V> {
    entries: Vec<(K, V)>,
}

impl<K: View, V: View> View for Table<K, V> {
    type V = Map<K::V, V::V>;

    closed spec fn view(&self) -> Map<K::V, V::V> {
        entries_map(self.entries@)
    }
}

impl<K: View, V> Table<K, V> {
    /// The entries have distinct keys.
    #[verifier::type_invariant]
    closed spec fn wf(&self) -> bool {
        keys_unique(self.entries@)
    }
}

impl<K: KeyEq, V: View> Table<K, V> {
    /// An empty table.
    pub fn new() -> (t: Self)
        ensures
            t@ == Map::<K::V, V::V>::empty(),
    {
        let t = Table { entries: Vec::new() };
        assert(t@ =~= Map::<K::V, V::V>::empty());
        t
    }

    fn find(&self, key: &K) -> (r: Option<usize>)
        ensures
            match r {
                Some(i) => i < self.entries@.len() && self.entries@[i as int].0@ == key@,
                None => !self@.contains_key(key@),
            },
    {
        let mut i: usize = 0;
        while i < self.entries.len()
            invariant
                i <= self.entries@.len(),
                forall|j: int| 0 <= j < i ==> #[trigger] self.entries@[j].0@ != key@,
            decreases self.entries@.len() - i,
        {
            if self.entries[i].0.key_eq(key) {
                return Some(i);
            }
            i = i + 1;
        }
        None
    }

    /// Whether the table holds `key`.
    pub fn contains_key(&self, key: &K) -> (r: bool)
        ensures
            r == self@.contains_key(key@),
    {
        match self.find(key) {
            Some(i) => {
                assert(has_key(self.entries@, key@));
                true
            },
            None => false,
        }
    }

    /// The value that the table holds for `key`.
    pub fn get(&self, key: &K) -> (r: Option<&V>)
        ensures
            match r {
                Some(v) => self@.contains_key(key@) && v@ == self@[key@],
                None => !self@.contains_key(key@),
            },
    {
        proof {
            use_type_invariant(self);
        }
        match self.find(key) {
            Some(i) => {
                proof {
                    lemma_entries_map_at(self.entries@, i as int);
                }
                Some(&self.entries[i].1)
            },
            None => None,
        }
    }

    /// Stores `value` under `key`, in place of what the key held before.
    pub fn insert(&mut self, key: K, value: V)
        ensures
            final(self)@ == old(self)@.insert(key@, value@),
    {
        proof {
            use_type_invariant(&*self);
        }
        match self.find(&key) {
            Some(i) => {
                proof {
                    lemma_entries_map_update(self.entries@, i as int, (key, value));
                }
                let mut entries: Vec<(K, V)> = Vec::new();
                std::mem::swap(&mut entries, &mut self.entries);
                entries[i] = (key, value);
                std::mem::swap(&mut entries, &mut self.entries);
            },
            None => {
                proof {
                    lemma_entries_map_push(self.entries@, (key, value));
                }
                let mut entries: Vec<(K, V)> = Vec::new();
                std::mem::swap(&mut entries, &mut self.entries);
                entries.push((key, value));
                std::mem::swap(&mut entries, &mut self.entries);
            },
        }
    }

    /// Removes `key` and what it held.
    pub fn remove(&mut self, key: &K)
        ensures
            final(self)@ == old(self)@.remove(key@),
    {
        proof {
            use_type_invariant(&*self);
        }
        match self.find(key) {
            Some(i) => {
                proof {
                    lemma_entries_map_remove(self.entries@, i as int);
                }
                let mut entries: Vec<(K, V)> = Vec::new();
                std::mem::swap(&mut entries, &mut self.entries);
                entries.remove(i);
                std::mem::swap(&mut entries, &mut self.entries);
            },
            None => {
                assert(self@.remove(key@) =~= self@);
            },
        }
    }
}

} // verus!
