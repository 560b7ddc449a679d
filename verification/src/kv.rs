//! A verified association table keyed by name, the building block of every
//! storage backend in this crate.

use vstd::prelude::*;

verus! {

/// Whether index `i` of the entry sequence holds key `k`.
pub open spec fn entry_at<V>(s: Seq<(String, V)>, k: Seq<char>, i: int) -> bool {
    0 <= i < s.len() && s[i].0@ == k
}

/// Whether some entry holds key `k`.
pub open spec fn seq_has_key<V>(s: Seq<(String, V)>, k: Seq<char>) -> bool {
    exists|i: int| entry_at(s, k, i)
}

/// The index of the entry holding key `k`.
pub open spec fn key_index<V>(s: Seq<(String, V)>, k: Seq<char>) -> int {
    choose|i: int| entry_at(s, k, i)
}

/// The map an entry sequence stands for.
pub open spec fn map_of<V>(s: Seq<(String, V)>) -> Map<Seq<char>, V> {
    Map::new(|k: Seq<char>| seq_has_key(s, k), |k: Seq<char>| s[key_index(s, k)].1)
}

/// All keys of the entry sequence are distinct.
pub open spec fn keys_unique<V>(s: Seq<(String, V)>) -> bool {
    forall|i: int, j: int| #![trigger s[i].0, s[j].0] 0 <= i < j < s.len() ==> s[i].0@ != s[j].0@
}

/// Two entries with the same key sit at the same index.
proof fn lemma_unique_same_index<V>(s: Seq<(String, V)>, k: Seq<char>, i: int, j: int)
    requires
        keys_unique(s),
        entry_at(s, k, i),
        entry_at(s, k, j),
    ensures
        i == j,
{
    if i < j {
        assert(s[i].0@ != s[j].0@);
    }
    if j < i {
        assert(s[j].0@ != s[i].0@);
    }
}

/// Under unique keys, the entry at any index is what the map holds for its
/// key.
proof fn lemma_value_at<V>(s: Seq<(String, V)>, i: int)
    requires
        keys_unique(s),
        0 <= i < s.len(),
    ensures
        map_of(s).contains_key(s[i].0@),
        map_of(s)[s[i].0@] == s[i].1,
{
    let k = s[i].0@;
    assert(entry_at(s, k, i));
    let j = key_index(s, k);
    assert(entry_at(s, k, j));
    lemma_unique_same_index(s, k, i, j);
}

/// Appending a fresh key extends the map by that key.
proof fn lemma_map_push<V>(s: Seq<(String, V)>, p: (String, V))
    requires
        keys_unique(s),
        !seq_has_key(s, p.0@),
    ensures
        keys_unique(s.push(p)),
        map_of(s.push(p)) == map_of(s).insert(p.0@, p.1),
{
    let t = s.push(p);
    assert forall|i: int, j: int| #![trigger t[i].0, t[j].0] 0 <= i < j < t.len() implies t[i].0@
        != t[j].0@ by {
        if j < s.len() {
            assert(t[i] == s[i] && t[j] == s[j]);
        } else {
            assert(t[j] == p);
            assert(t[i] == s[i]);
            if s[i].0@ == p.0@ {
                assert(entry_at(s, p.0@, i));
            }
        }
    }
    assert forall|k: Seq<char>| #[trigger]
        seq_has_key(t, k) implies seq_has_key(s, k) || k == p.0@ by {
        let i = choose|i: int| entry_at(t, k, i);
        if i < s.len() {
            assert(entry_at(s, k, i));
        } else {
            assert(t[i] == p);
        }
    }
    assert forall|k: Seq<char>| seq_has_key(s, k) implies #[trigger] seq_has_key(t, k) by {
        let i = choose|i: int| entry_at(s, k, i);
        assert(t[i] == s[i]);
        assert(entry_at(t, k, i));
    }
    assert(entry_at(t, p.0@, s.len() as int));
    assert forall|k: Seq<char>| #[trigger] seq_has_key(t, k) implies map_of(t)[k] == map_of(
        s,
    ).insert(p.0@, p.1)[k] by {
        let i = key_index(t, k);
        assert(entry_at(t, k, i));
        if k == p.0@ {
            lemma_unique_same_index(t, k, i, s.len() as int);
            assert(t[i].1 == p.1);
        } else {
            assert(i < s.len()) by {
                if i == s.len() {
                    assert(t[i] == p);
                }
            }
            assert(t[i] == s[i]);
            assert(entry_at(s, k, i));
            lemma_value_at(s, i);
        }
    }
    assert(map_of(t) =~= map_of(s).insert(p.0@, p.1));
}

/// Removing the entry at an index removes exactly its key from the map.
proof fn lemma_map_remove<V>(s: Seq<(String, V)>, i: int)
    requires
        keys_unique(s),
        0 <= i < s.len(),
    ensures
        keys_unique(s.remove(i)),
        map_of(s.remove(i)) == map_of(s).remove(s[i].0@),
{
    let t = s.remove(i);
    let k0 = s[i].0@;
    s.remove_ensures(i);
    let ghost back = |j: int| if j < i { j } else { j + 1 };
    assert forall|a: int, b: int| #![trigger t[a].0, t[b].0] 0 <= a < b < t.len() implies t[a].0@
        != t[b].0@ by {
        assert(t[a] == s[back(a)]);
        assert(t[b] == s[back(b)]);
    }
    assert forall|k: Seq<char>| #[trigger] seq_has_key(t, k) implies seq_has_key(s, k) && k
        != k0 by {
        let a = choose|a: int| entry_at(t, k, a);
        assert(t[a] == s[back(a)]);
        assert(entry_at(s, k, back(a)));
        if k == k0 {
            lemma_unique_same_index(s, k, back(a), i);
        }
    }
    assert forall|k: Seq<char>| seq_has_key(s, k) && k != k0 implies #[trigger] seq_has_key(
        t,
        k,
    ) by {
        let a = choose|a: int| entry_at(s, k, a);
        lemma_unique_same_index(s, k0, i, i);
        if a < i {
            assert(t[a] == s[a]);
            assert(entry_at(t, k, a));
        } else {
            assert(a != i);
            assert(t[a - 1] == s[a]);
            assert(entry_at(t, k, a - 1));
        }
    }
    assert forall|k: Seq<char>| #[trigger] seq_has_key(t, k) implies map_of(t)[k] == map_of(
        s,
    ).remove(k0)[k] by {
        let a = key_index(t, k);
        assert(entry_at(t, k, a));
        assert(t[a] == s[back(a)]);
        assert(entry_at(s, k, back(a)));
        lemma_value_at(s, back(a));
    }
    assert(map_of(t) =~= map_of(s).remove(k0));
}

/// An association table with unique string keys.
///
/// The view is the finite map the table stands for.
pub struct KvList<V> {
    entries: Vec<(String, V)>,
}

impl<V> View for KvList<V> {
    type V = Map<Seq<char>, V>;

    closed spec fn view(&self) -> Map<Seq<char>, V> {
        map_of(self.entries@)
    }
}

impl<V> KvList<V> {
    /// Well-formedness: the stored keys are unique. Constructors establish
    /// it and every method preserves it.
    pub closed spec fn wf(self) -> bool {
        keys_unique(self.entries@)
    }

    /// An empty table.
    pub fn empty() -> (r: KvList<V>)
        ensures
            r@ == Map::<Seq<char>, V>::empty(),
            r.wf(),
    {
        let r = KvList { entries: Vec::new() };
        proof {
            assert forall|k: Seq<char>| !seq_has_key(r.entries@, k) by {}
            assert(r@ =~= Map::<Seq<char>, V>::empty());
        }
        r
    }

    /// The index of the entry holding `name`, if any.
    fn find(&self, name: &String) -> (r: Option<usize>)
        ensures
            match r {
                Some(i) => entry_at(self.entries@, name@, i as int),
                None => !seq_has_key(self.entries@, name@),
            },
    {
        let n = self.entries.len();
        let mut i: usize = 0;
        while i < n
            invariant
                n == self.entries@.len(),
                i <= n,
                forall|j: int| 0 <= j < i ==> self.entries@[j].0@ != name@,
            decreases n - i,
        {
            if self.entries[i].0 == *name {
                return Some(i);
            }
            i = i + 1;
        }
        None
    }

    /// Whether an entry is stored under `name`.
    pub fn contains(&self, name: &String) -> (r: bool)
        ensures
            r == self@.contains_key(name@),
    {
        match self.find(name) {
            Some(_) => true,
            None => false,
        }
    }

    /// The value stored under `name`, if any.
    pub fn get<'a>(&'a self, name: &String) -> (r: Option<&'a V>)
        requires
            self.wf(),
        ensures
            match r {
                Some(v) => self@.contains_key(name@) && *v == self@[name@],
                None => !self@.contains_key(name@),
            },
    {
        match self.find(name) {
            Some(i) => {
                proof {
                    lemma_value_at(self.entries@, i as int);
                }
                Some(&self.entries[i].1)
            }
            None => None,
        }
    }

    /// Insert a fresh entry; rejects a name that is already present, leaving
    /// the table unchanged.
    pub fn insert_new(&mut self, name: String, value: V) -> (r: bool)
        requires
            old(self).wf(),
        ensures
            final(self).wf(),
            r == !old(self)@.contains_key(name@),
            r ==> final(self)@ == old(self)@.insert(name@, value),
            !r ==> *final(self) == *old(self),
    {
        match self.find(&name) {
            Some(_) => false,
            None => {
                proof {
                    lemma_map_push(self.entries@, (name, value));
                }
                self.entries.push((name, value));
                true
            }
        }
    }

    /// Remove the entry under `name`, handing back its value; `None` when no
    /// such entry exists, leaving the table unchanged.
    pub fn remove_entry(&mut self, name: &String) -> (r: Option<V>)
        requires
            old(self).wf(),
        ensures
            final(self).wf(),
            match r {
                Some(v) => old(self)@.contains_key(name@) && v == old(self)@[name@]
                    && final(self)@ == old(self)@.remove(name@),
                None => !old(self)@.contains_key(name@) && *final(self) == *old(self),
            },
    {
        match self.find(name) {
            Some(i) => {
                proof {
                    lemma_value_at(self.entries@, i as int);
                    lemma_map_remove(self.entries@, i as int);
                }
                let (_, v) = self.entries.remove(i);
                Some(v)
            }
            None => None,
        }
    }

    /// All names in the table: no duplicates, and exactly the keys of the
    /// map.
    pub fn names(&self) -> (r: Vec<String>)
        requires
            self.wf(),
        ensures
            forall|i: int| 0 <= i < r@.len() ==> #[trigger] self@.contains_key(r@[i]@),
            forall|i: int, j: int| #![trigger r@[i], r@[j]] 0 <= i < j < r@.len() ==> r@[i]@
                != r@[j]@,
            forall|k: Seq<char>| #[trigger] self@.contains_key(k) ==> exists|i: int|
                0 <= i < r@.len() && r@[i]@ == k,
    {
        let n = self.entries.len();
        let mut out: Vec<String> = Vec::new();
        let mut i: usize = 0;
        while i < n
            invariant
                n == self.entries@.len(),
                keys_unique(self.entries@),
                i <= n,
                out@.len() == i,
                forall|j: int| 0 <= j < i ==> out@[j]@ == self.entries@[j].0@,
            decreases n - i,
        {
            let name = self.entries[i].0.clone();
            out.push(name);
            i = i + 1;
        }
        proof {
            assert forall|i: int| 0 <= i < out@.len() implies #[trigger] self@.contains_key(
                out@[i]@,
            ) by {
                lemma_value_at(self.entries@, i);
            }
            assert forall|k: Seq<char>| #[trigger] self@.contains_key(k) implies exists|i: int|
                0 <= i < out@.len() && out@[i]@ == k by {
                let i = choose|i: int| entry_at(self.entries@, k, i);
                assert(out@[i]@ == k);
            }
        }
        out
    }
}

} // verus!
