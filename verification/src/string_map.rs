//! A finite map keyed by strings, backed by an association list.
//!
//! Both the connection registry and the task table of the pipeline are maps
//! from an opaque string id to a record; this container gives them a shared,
//! fully specified implementation whose model is a `Map<Seq<char>, V>`.

use vstd::prelude::*;

verus! {

/// Cloning with a contract: the copy equals the original value.
pub trait ExactClone: Sized {
    fn exact_clone(&self) -> (r: Self)
        ensures
            r == *self,
    ;
}

/// The map described by an association list, later entries winning.
spec fn map_of<V>(s: Seq<(String, V)>) -> Map<Seq<char>, V>
    decreases s.len(),
{
    if s.len() == 0 {
        Map::empty()
    } else {
        map_of(s.drop_last()).insert(s.last().0@, s.last().1)
    }
}

/// No two entries of the list share a key.
spec fn distinct_keys<V>(s: Seq<(String, V)>) -> bool {
    forall|i: int, j: int| 0 <= i < j < s.len() ==> s[i].0@ != s[j].0@
}

proof fn lemma_map_of_contains<V>(s: Seq<(String, V)>)
    ensures
        map_of(s).dom().finite(),
        forall|k: Seq<char>|
            #[trigger] map_of(s).contains_key(k) <==> exists|i: int|
                0 <= i < s.len() && #[trigger] s[i].0@ == k,
    decreases s.len(),
{
    if s.len() > 0 {
        lemma_map_of_contains(s.drop_last());
        assert forall|k: Seq<char>| #[trigger] map_of(s).contains_key(k) implies exists|i: int|
            0 <= i < s.len() && #[trigger] s[i].0@ == k by {
            if k == s.last().0@ {
                assert(s[s.len() - 1].0@ == k);
            } else {
                let i = choose|i: int| 0 <= i < s.drop_last().len() && #[trigger] s.drop_last()[i].0@ == k;
                assert(s[i].0@ == k);
            }
        }
        assert forall|k: Seq<char>|
            (exists|i: int| 0 <= i < s.len() && #[trigger] s[i].0@ == k) implies #[trigger] map_of(
            s,
        ).contains_key(k) by {
            let i = choose|i: int| 0 <= i < s.len() && #[trigger] s[i].0@ == k;
            if i < s.len() - 1 {
                assert(s.drop_last()[i].0@ == k);
            }
        }
    }
}

proof fn lemma_map_of_get<V>(s: Seq<(String, V)>, i: int)
    requires
        distinct_keys(s),
        0 <= i < s.len(),
    ensures
        map_of(s).contains_key(s[i].0@),
        map_of(s)[s[i].0@] == s[i].1,
    decreases s.len(),
{
    lemma_map_of_contains(s);
    if i < s.len() - 1 {
        assert(s[i].0@ != s.last().0@);
        assert(s.drop_last()[i] == s[i]);
        lemma_map_of_get(s.drop_last(), i);
    }
}

proof fn lemma_distinct_remove<V>(s: Seq<(String, V)>, i: int)
    requires
        distinct_keys(s),
        0 <= i < s.len(),
    ensures
        distinct_keys(s.remove(i)),
        forall|j: int| 0 <= j < s.remove(i).len() ==> #[trigger] s.remove(i)[j].0@ != s[i].0@,
{
    s.remove_ensures(i);
}

proof fn lemma_map_of_remove<V>(s: Seq<(String, V)>, i: int)
    requires
        distinct_keys(s),
        0 <= i < s.len(),
    ensures
        map_of(s.remove(i)) == map_of(s).remove(s[i].0@),
{
    let r = s.remove(i);
    s.remove_ensures(i);
    lemma_distinct_remove(s, i);
    lemma_map_of_contains(s);
    lemma_map_of_contains(r);
    assert forall|k: Seq<char>| #[trigger]
        map_of(r).contains_key(k) == map_of(s).remove(s[i].0@).contains_key(k) by {
        if map_of(r).contains_key(k) {
            let j = choose|j: int| 0 <= j < r.len() && #[trigger] r[j].0@ == k;
            if j < i {
                assert(s[j].0@ == k);
            } else {
                assert(s[j + 1].0@ == k);
            }
        }
        if map_of(s).contains_key(k) && k != s[i].0@ {
            let j = choose|j: int| 0 <= j < s.len() && #[trigger] s[j].0@ == k;
            if j < i {
                assert(r[j].0@ == k);
            } else {
                assert(r[j - 1].0@ == k);
            }
        }
    }
    assert forall|k: Seq<char>| map_of(r).contains_key(k) implies #[trigger] map_of(r)[k]
        == map_of(s).remove(s[i].0@)[k] by {
        let j = choose|j: int| 0 <= j < r.len() && #[trigger] r[j].0@ == k;
        lemma_map_of_get(r, j);
        if j < i {
            lemma_map_of_get(s, j);
        } else {
            lemma_map_of_get(s, j + 1);
        }
    }
    assert(map_of(r) =~= map_of(s).remove(s[i].0@));
}

proof fn lemma_map_of_len<V>(s: Seq<(String, V)>)
    requires
        distinct_keys(s),
    ensures
        map_of(s).dom().len() == s.len(),
    decreases s.len(),
{
    lemma_map_of_contains(s);
    if s.len() > 0 {
        let d = s.drop_last();
        lemma_map_of_len(d);
        lemma_map_of_contains(d);
        assert(!map_of(d).contains_key(s.last().0@));
        assert(map_of(s).dom() =~= map_of(d).dom().insert(s.last().0@));
        vstd::set::axiom_set_insert_len(map_of(d).dom(), s.last().0@);
    }
}

/// Whether `v` is the value of some entry of `m`.
pub open spec fn is_value_of<V>(m: Map<Seq<char>, V>, v: V) -> bool {
    exists|k: Seq<char>| #[trigger] m.contains_key(k) && m[k] == v
}

/// A map from string ids to values of type `V`, with a `Map<Seq<char>, V>`
/// as its model.
pub struct StringMap<V> {
    entries: Vec<(String, V)>,
}

impl<V> View for StringMap<V> {
    type V = Map<Seq<char>, V>;

    closed spec fn view(&self) -> Map<Seq<char>, V> {
        map_of(self.entries@)
    }
}

impl<V> StringMap<V> {
    #[verifier::type_invariant]
    spec fn wf(&self) -> bool {
        distinct_keys(self.entries@)
    }

    /// The empty map.
    pub fn new() -> (m: Self)
        ensures
            m@ == Map::<Seq<char>, V>::empty(),
    {
        StringMap { entries: Vec::new() }
    }

    fn index_of(&self, key: &String) -> (r: Option<usize>)
        ensures
            match r {
                Some(i) => 0 <= i < self.entries@.len() && self.entries@[i as int].0@ == key@,
                None => forall|i: int|
                    0 <= i < self.entries@.len() ==> #[trigger] self.entries@[i as int].0@ != key@,
            },
    {
        let n = self.entries.len();
        let mut i: usize = 0;
        while i < n
            invariant
                n == self.entries@.len(),
                0 <= i <= n,
                forall|j: int| 0 <= j < i ==> #[trigger] self.entries@[j].0@ != key@,
            decreases n - i,
        {
            if self.entries[i].0 == *key {
                return Some(i);
            }
            i = i + 1;
        }
        None
    }

    /// Whether the map holds an entry for `key`.
    pub fn contains_key(&self, key: &String) -> (r: bool)
        ensures
            r == self@.contains_key(key@),
    {
        proof {
            use_type_invariant(&*self);
            lemma_map_of_contains(self.entries@);
        }
        match self.index_of(key) {
            Some(_) => true,
            None => false,
        }
    }

    /// Look the value for `key` up.
    pub fn get(&self, key: &String) -> (r: Option<&V>)
        ensures
            match r {
                Some(v) => self@.contains_key(key@) && *v == self@[key@],
                None => !self@.contains_key(key@),
            },
    {
        proof {
            use_type_invariant(&*self);
            lemma_map_of_contains(self.entries@);
        }
        match self.index_of(key) {
            Some(i) => {
                proof {
                    lemma_map_of_get(self.entries@, i as int);
                }
                Some(&self.entries[i].1)
            },
            None => None,
        }
    }

    /// Bind `key` to `value`, replacing any earlier binding.
    pub fn insert(&mut self, key: String, value: V)
        ensures
            final(self)@ == old(self)@.insert(key@, value),
    {
        proof {
            use_type_invariant(&*self);
        }
        let mut entries: Vec<(String, V)> = Vec::new();
        core::mem::swap(&mut entries, &mut self.entries);
        let ghost s = entries@;
        match Self::slice_index_of(&entries, &key) {
            Some(i) => {
                proof {
                    lemma_distinct_remove(s, i as int);
                    lemma_map_of_remove(s, i as int);
                }
                let _ = entries.remove(i);
                let ghost k = key@;
                entries.push((key, value));
                proof {
                    assert(entries@.drop_last() =~= s.remove(i as int));
                    assert(map_of(entries@) == map_of(s.remove(i as int)).insert(k, value));
                    assert(map_of(entries@) =~= map_of(s).insert(k, value));
                }
            },
            None => {
                let ghost k = key@;
                entries.push((key, value));
                proof {
                    lemma_map_of_contains(s);
                    assert(entries@.drop_last() =~= s);
                    assert(map_of(entries@) == map_of(s).insert(k, value));
                }
            },
        }
        core::mem::swap(&mut entries, &mut self.entries);
    }

    /// Drop the binding for `key`, handing its value back.
    pub fn remove(&mut self, key: &String) -> (r: Option<V>)
        ensures
            final(self)@ == old(self)@.remove(key@),
            match r {
                Some(v) => old(self)@.contains_key(key@) && v == old(self)@[key@],
                None => !old(self)@.contains_key(key@),
            },
    {
        proof {
            use_type_invariant(&*self);
            lemma_map_of_contains(self.entries@);
        }
        let mut entries: Vec<(String, V)> = Vec::new();
        core::mem::swap(&mut entries, &mut self.entries);
        let ghost s = entries@;
        let r = match Self::slice_index_of(&entries, key) {
            Some(i) => {
                proof {
                    lemma_map_of_get(s, i as int);
                    lemma_distinct_remove(s, i as int);
                    lemma_map_of_remove(s, i as int);
                }
                let entry = entries.remove(i);
                Some(entry.1)
            },
            None => {
                proof {
                    assert(map_of(s) =~= map_of(s).remove(key@));
                }
                None
            },
        };
        core::mem::swap(&mut entries, &mut self.entries);
        r
    }

    fn slice_index_of(entries: &Vec<(String, V)>, key: &String) -> (r: Option<usize>)
        ensures
            match r {
                Some(i) => 0 <= i < entries@.len() && entries@[i as int].0@ == key@,
                None => forall|i: int|
                    0 <= i < entries@.len() ==> #[trigger] entries@[i as int].0@ != key@,
            },
    {
        let n = entries.len();
        let mut i: usize = 0;
        while i < n
            invariant
                n == entries@.len(),
                0 <= i <= n,
                forall|j: int| 0 <= j < i ==> #[trigger] entries@[j].0@ != key@,
            decreases n - i,
        {
            if entries[i].0 == *key {
                return Some(i);
            }
            i = i + 1;
        }
        None
    }

    /// The keys of the map, each exactly once.
    pub fn keys_cloned(&self) -> (r: Vec<String>)
        ensures
            r@.len() == self@.dom().len(),
            forall|i: int| 0 <= i < r@.len() ==> self@.contains_key(#[trigger] r@[i]@),
            forall|k: Seq<char>|
                self@.contains_key(k) ==> exists|i: int| 0 <= i < r@.len() && #[trigger] r@[i]@ == k,
            forall|i: int, j: int| 0 <= i < j < r@.len() ==> r@[i]@ != r@[j]@,
    {
        proof {
            use_type_invariant(&*self);
            lemma_map_of_contains(self.entries@);
            lemma_map_of_len(self.entries@);
        }
        let n = self.entries.len();
        let mut r: Vec<String> = Vec::new();
        let mut i: usize = 0;
        while i < n
            invariant
                n == self.entries@.len(),
                0 <= i <= n,
                r@.len() == i,
                distinct_keys(self.entries@),
                forall|j: int| 0 <= j < i ==> #[trigger] r@[j]@ == self.entries@[j].0@,
            decreases n - i,
        {
            r.push(self.entries[i].0.clone());
            i = i + 1;
        }
        assert forall|k: Seq<char>| self@.contains_key(k) implies exists|i: int|
            0 <= i < r@.len() && #[trigger] r@[i]@ == k by {
            let i = choose|i: int| 0 <= i < self.entries@.len() && #[trigger] self.entries@[i].0@ == k;
            assert(r@[i]@ == k);
        }
        r
    }

    /// The values of the map, one for each entry.
    pub fn values_cloned(&self) -> (r: Vec<V>)
        where V: ExactClone
        ensures
            r@.len() == self@.dom().len(),
            forall|i: int| 0 <= i < r@.len() ==> is_value_of(self@, #[trigger] r@[i]),
            forall|k: Seq<char>|
                self@.contains_key(k) ==> exists|i: int| 0 <= i < r@.len() && #[trigger] r@[i] == self@[k],
    {
        proof {
            use_type_invariant(&*self);
            lemma_map_of_contains(self.entries@);
            lemma_map_of_len(self.entries@);
        }
        let n = self.entries.len();
        let mut r: Vec<V> = Vec::new();
        let mut i: usize = 0;
        while i < n
            invariant
                n == self.entries@.len(),
                0 <= i <= n,
                r@.len() == i,
                distinct_keys(self.entries@),
                forall|j: int| 0 <= j < i ==> #[trigger] r@[j] == self.entries@[j].1,
            decreases n - i,
        {
            r.push(self.entries[i].1.exact_clone());
            i = i + 1;
        }
        assert forall|i: int| 0 <= i < r@.len() implies is_value_of(self@, #[trigger] r@[i]) by {
            lemma_map_of_get(self.entries@, i);
            assert(self@.contains_key(self.entries@[i].0@) && self@[self.entries@[i].0@] == r@[i]);
        }
        assert forall|k: Seq<char>| self@.contains_key(k) implies exists|i: int|
            0 <= i < r@.len() && #[trigger] r@[i] == self@[k] by {
            let i = choose|i: int| 0 <= i < self.entries@.len() && #[trigger] self.entries@[i].0@ == k;
            lemma_map_of_get(self.entries@, i);
            assert(r@[i] == self@[k]);
        }
        r
    }
}

} // verus!
