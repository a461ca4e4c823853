use vstd::prelude::*;

verus! {

/// A key whose equality is decided on its view.
pub trait TableKey: View + Sized {
    fn same_key(&self, other: &Self) -> (r: bool)
        ensures
            r == (self@ == other@),
    ;
}

impl TableKey for String {
    fn same_key(&self, other: &Self) -> (r: bool) {
        *self == *other
    }
}

/// The map that a list of entries denotes: a later entry for a key overrides an earlier one.
pub open spec fn entries_map<K: View, V>(s: Seq<(K, V)>) -> Map<K::V, V>
    decreases s.len(),
{
    if s.len() == 0 {
        Map::empty()
    } else {
        entries_map(s.drop_last()).insert(s.last().0@, s.last().1)
    }
}

/// Entries past index `i` that do not hold key `k` leave its binding as the prefix has it.
proof fn lemma_tail_without_key<K: View, V>(s: Seq<(K, V)>, k: K::V, i: int)
    requires
        0 <= i <= s.len(),
        forall|j: int| i <= j < s.len() ==> #[trigger] s[j].0@ != k,
    ensures
        entries_map(s).contains_key(k) == entries_map(s.subrange(0, i)).contains_key(k),
        entries_map(s).contains_key(k) ==> entries_map(s)[k] == entries_map(
            s.subrange(0, i),
        )[k],
    decreases s.len(),
{
    if s.len() == i {
        assert(s.subrange(0, i) =~= s);
    } else {
        let d = s.drop_last();
        assert(d.subrange(0, i) =~= s.subrange(0, i));
        assert forall|j: int| i <= j < d.len() implies #[trigger] d[j].0@ != k by {
            assert(d[j] == s[j]);
        }
        lemma_tail_without_key(d, k, i);
        assert(s[s.len() - 1].0@ != k);
    }
}

/// Entry `j` is the last one for its key: the map binds the key to that entry's value.
proof fn lemma_last_entry_for_key<K: View, V>(s: Seq<(K, V)>, j: int)
    requires
        0 <= j < s.len(),
        forall|m: int| j < m < s.len() ==> #[trigger] s[m].0@ != s[j].0@,
    ensures
        entries_map(s).contains_key(s[j].0@),
        entries_map(s)[s[j].0@] == s[j].1,
{
    lemma_tail_without_key(s, s[j].0@, j + 1);
    assert(s.subrange(0, j + 1).drop_last() =~= s.subrange(0, j));
}

/// Replacing the last entry for a key is an insertion into the map.
proof fn lemma_replace_last_entry<K: View, V>(s: Seq<(K, V)>, j: int, e: (K, V))
    requires
        0 <= j < s.len(),
        s[j].0@ == e.0@,
        forall|m: int| j < m < s.len() ==> #[trigger] s[m].0@ != e.0@,
    ensures
        entries_map(s.update(j, e)) == entries_map(s).insert(e.0@, e.1),
    decreases s.len(),
{
    let t = s.update(j, e);
    if j == s.len() - 1 {
        assert(t.drop_last() =~= s.drop_last());
        assert(entries_map(t) =~= entries_map(s).insert(e.0@, e.1));
    } else {
        let d = s.drop_last();
        assert(t.drop_last() =~= d.update(j, e));
        assert forall|m: int| j < m < d.len() implies #[trigger] d[m].0@ != e.0@ by {
            assert(d[m] == s[m]);
        }
        lemma_replace_last_entry(d, j, e);
        assert(s.last().0@ != e.0@);
        assert(entries_map(t) =~= entries_map(s).insert(e.0@, e.1));
    }
}

/// A key that the map binds comes from an entry for it, whose value is the bound value.
pub proof fn lemma_binding_has_entry<K: View, V>(s: Seq<(K, V)>, k: K::V)
    requires
        entries_map(s).contains_key(k),
    ensures
        exists|j: int| 0 <= j < s.len() && s[j].0@ == k && #[trigger] s[j].1 == entries_map(s)[k],
    decreases s.len(),
{
    let d = s.drop_last();
    if s.last().0@ == k {
        assert(s[s.len() - 1].1 == entries_map(s)[k]);
    } else {
        lemma_binding_has_entry(d, k);
        let j = choose|j: int| 0 <= j < d.len() && d[j].0@ == k && #[trigger] d[j].1 == entries_map(d)[k];
        assert(s[j] == d[j]);
    }
}

/// A finite map held as a list of entries.
pub struct Table<K, V> {
    entries: Vec<(K, V)>,
}

impl<K: View, V> View for Table<K, V> {
    type V = Map<K::V, V>;

    closed spec fn view(&self) -> Map<K::V, V> {
        entries_map(self.entries@)
    }
}

impl<K: TableKey, V> Table<K, V> {
    pub fn new() -> (t: Self)
        ensures
            t@ == Map::<K::V, V>::empty(),
    {
        Table { entries: Vec::new() }
    }

    /// The table whose entries are `entries`, later ones overriding earlier ones.
    pub fn from_entries(entries: Vec<(K, V)>) -> (t: Self)
        ensures
            t@ == entries_map(entries@),
    {
        Table { entries }
    }

    /// The entries of the table; the map they denote is the table.
    pub fn into_entries(self) -> (r: Vec<(K, V)>)
        ensures
            entries_map(r@) == self@,
    {
        self.entries
    }

    /// The index of the last entry for `k`, if any.
    fn position(&self, k: &K) -> (r: Option<usize>)
        ensures
            match r {
                Some(j) => {
                    &&& j < self.entries@.len()
                    &&& self.entries@[j as int].0@ == k@
                    &&& forall|m: int|
                        j < m < self.entries@.len() ==> #[trigger] self.entries@[m].0@ != k@
                },
                None => forall|m: int|
                    0 <= m < self.entries@.len() ==> #[trigger] self.entries@[m].0@ != k@,
            },
    {
        let mut i: usize = self.entries.len();
        while i > 0
            invariant
                i <= self.entries@.len(),
                forall|m: int| i <= m < self.entries@.len() ==> #[trigger] self.entries@[m].0@ != k@,
            decreases i,
        {
            i = i - 1;
            if self.entries[i].0.same_key(k) {
                return Some(i);
            }
        }
        None
    }

    pub fn get(&self, k: &K) -> (r: Option<&V>)
        ensures
            match r {
                Some(v) => self@.contains_key(k@) && self@[k@] == *v,
                None => !self@.contains_key(k@),
            },
    {
        match self.position(k) {
            Some(j) => {
                proof {
                    lemma_last_entry_for_key(self.entries@, j as int);
                }
                Some(&self.entries[j].1)
            },
            None => {
                proof {
                    lemma_tail_without_key(self.entries@, k@, 0);
                    assert(self.entries@.subrange(0, 0) =~= Seq::<(K, V)>::empty());
                }
                None
            },
        }
    }

    pub fn set(&mut self, k: K, v: V)
        ensures
            final(self)@ == old(self)@.insert(k@, v),
    {
        match self.position(&k) {
            Some(j) => {
                proof {
                    lemma_replace_last_entry(self.entries@, j as int, (k, v));
                }
                self.entries.set(j, (k, v));
            },
            None => {
                let ghost s = self.entries@;
                self.entries.push((k, v));
                proof {
                    assert(self.entries@.drop_last() =~= s);
                }
            },
        }
    }
}

} // verus!
