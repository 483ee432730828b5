//! A string-keyed map with verified map semantics.
//!
//! The map is backed by a vector of key/value pairs whose keys are kept
//! unique, and is viewed in specifications as a `Map<Seq<char>, V>`.

use vstd::prelude::*;

verus! {

/// Relies on `<str as PartialEq>::eq`: equality of two string slices is
/// equality of their characters.
#[verifier::external_body]
pub fn str_eq(a: &str, b: &str) -> (r: bool)
    ensures
        r == (a@ == b@),
{
    a == b
}

/// A mapping from string keys to values, immutable-by-sharing and
/// inexpensive to reason about: its view is a mathematical map.
#[derive(PartialEq, Debug)]
pub struct StringMap<V> {
    entries: Vec<(String, V)>,
}

/// The mathematical map described by a sequence of key/value pairs;
/// later pairs win, matching insertion into a map.
pub open spec fn map_of<V>(s: Seq<(String, V)>) -> Map<Seq<char>, V>
    decreases s.len(),
{
    if s.len() == 0 {
        Map::empty()
    } else {
        map_of(s.drop_last()).insert(s.last().0@, s.last().1)
    }
}

/// The keys of a sequence of pairs are pairwise distinct.
pub open spec fn distinct_keys<V>(s: Seq<(String, V)>) -> bool {
    forall|i: int, j: int| 0 <= i < j < s.len() ==> s[i].0@ != s[j].0@
}

pub(crate) proof fn lemma_map_of_contains<V>(s: Seq<(String, V)>, k: Seq<char>)
    ensures
        map_of(s).contains_key(k) <==> exists|i: int| 0 <= i < s.len() && s[i].0@ == k,
    decreases s.len(),
{
    if s.len() > 0 {
        lemma_map_of_contains(s.drop_last(), k);
        if s.last().0@ == k {
            assert(s[s.len() - 1].0@ == k);
        } else if map_of(s).contains_key(k) {
            let i = choose|i: int| 0 <= i < s.drop_last().len() && s.drop_last()[i].0@ == k;
            assert(s[i].0@ == k);
        } else {
            assert forall|i: int| 0 <= i < s.len() && s[i].0@ == k implies false by {
                assert(i < s.len() - 1);
                assert(s.drop_last()[i].0@ == k);
            }
        }
    }
}

pub(crate) proof fn lemma_map_of_get<V>(s: Seq<(String, V)>, i: int)
    requires
        distinct_keys(s),
        0 <= i < s.len(),
    ensures
        map_of(s).contains_key(s[i].0@),
        map_of(s)[s[i].0@] == s[i].1,
    decreases s.len(),
{
    if i == s.len() - 1 {
        lemma_map_of_contains(s, s[i].0@);
    } else {
        assert(s.drop_last()[i] == s[i]);
        lemma_map_of_get(s.drop_last(), i);
        assert(s[i].0@ != s.last().0@);
    }
}

pub(crate) proof fn lemma_map_of_len<V>(s: Seq<(String, V)>)
    requires
        distinct_keys(s),
    ensures
        map_of(s).dom().finite(),
        map_of(s).dom().len() == s.len(),
    decreases s.len(),
{
    if s.len() > 0 {
        lemma_map_of_len(s.drop_last());
        lemma_map_of_contains(s.drop_last(), s.last().0@);
        assert(!map_of(s.drop_last()).contains_key(s.last().0@));
    }
}

impl<V> View for StringMap<V> {
    type V = Map<Seq<char>, V>;

    closed spec fn view(&self) -> Map<Seq<char>, V> {
        map_of(self.entries@)
    }
}

impl<V> StringMap<V> {
    /// The map's internal invariant: its keys are pairwise distinct.
    #[verifier::type_invariant]
    pub closed spec fn wf(self) -> bool {
        distinct_keys(self.entries@)
    }

    /// The key/value pairs of the map, in insertion order.
    pub closed spec fn pairs(&self) -> Seq<(String, V)> {
        self.entries@
    }

    /// The pairs list the map's entries: distinct keys, each present in the
    /// view with its value, and together making up the whole domain.
    pub proof fn lemma_pairs(&self)
        requires
            self.wf(),
        ensures
            distinct_keys(self.pairs()),
            self@.dom().finite(),
            self@.dom().len() == self.pairs().len(),
            forall|i: int|
                0 <= i < self.pairs().len() ==> #[trigger] self@.contains_key(self.pairs()[i].0@)
                    && self@[self.pairs()[i].0@] == self.pairs()[i].1,
            forall|k: Seq<char>|
                self@.contains_key(k) ==> exists|i: int|
                    0 <= i < self.pairs().len() && self.pairs()[i].0@ == k,
    {
        lemma_map_of_len(self.entries@);
        assert forall|i: int| 0 <= i < self.pairs().len() implies #[trigger] self@.contains_key(
            self.pairs()[i].0@,
        ) && self@[self.pairs()[i].0@] == self.pairs()[i].1 by {
            lemma_map_of_get(self.entries@, i);
        }
        assert forall|k: Seq<char>| self@.contains_key(k) implies exists|i: int|
            0 <= i < self.pairs().len() && self.pairs()[i].0@ == k by {
            lemma_map_of_contains(self.entries@, k);
            let i = choose|i: int| 0 <= i < self.entries@.len() && self.entries@[i].0@ == k;
            assert(0 <= i < self.pairs().len() && self.pairs()[i].0@ == k);
        }
    }

    /// Create an empty map.
    pub fn new() -> (r: Self)
        ensures
            r@ == Map::<Seq<char>, V>::empty(),
            r.pairs() == Seq::<(String, V)>::empty(),
    {
        StringMap { entries: Vec::new() }
    }

    /// The number of entries.
    pub fn len(&self) -> (r: usize)
        ensures
            r == self@.dom().len(),
            r == self.pairs().len(),
    {
        proof {
            use_type_invariant(self);
            self.lemma_pairs();
        }
        self.entries.len()
    }

    /// Whether the map has no entries.
    pub fn is_empty(&self) -> (r: bool)
        ensures
            r == (self@.dom().len() == 0),
    {
        proof {
            use_type_invariant(self);
            self.lemma_pairs();
        }
        self.entries.is_empty()
    }

    /// Whether `key` is present.
    pub fn contains_key(&self, key: &str) -> (r: bool)
        ensures
            r == self@.contains_key(key@),
    {
        proof {
            use_type_invariant(self);
            lemma_map_of_contains(self.entries@, key@);
        }
        let n = self.entries.len();
        let mut i: usize = 0;
        while i < n
            invariant
                n == self.entries@.len(),
                i <= n,
                forall|j: int| 0 <= j < i ==> self.entries@[j].0@ != key@,
            decreases n - i,
        {
            if str_eq(self.entries[i].0.as_str(), key) {
                proof {
                    use_type_invariant(self);
                    lemma_map_of_contains(self.entries@, key@);
                }
                return true;
            }
            i = i + 1;
        }
        proof {
            lemma_map_of_contains(self.entries@, key@);
        }
        false
    }

    /// Look a key up.
    pub fn get(&self, key: &str) -> (r: Option<&V>)
        ensures
            match r {
                Some(v) => self@.contains_key(key@) && *v == self@[key@],
                None => !self@.contains_key(key@),
            },
    {
        proof {
            use_type_invariant(self);
            lemma_map_of_contains(self.entries@, key@);
        }
        let n = self.entries.len();
        let mut i: usize = 0;
        while i < n
            invariant
                n == self.entries@.len(),
                i <= n,
                forall|j: int| 0 <= j < i ==> self.entries@[j].0@ != key@,
            decreases n - i,
        {
            if str_eq(self.entries[i].0.as_str(), key) {
                proof {
                    use_type_invariant(self);
                    lemma_map_of_contains(self.entries@, key@);
                    lemma_map_of_get(self.entries@, i as int);
                }
                return Some(&self.entries[i].1);
            }
            i = i + 1;
        }
        proof {
            lemma_map_of_contains(self.entries@, key@);
        }
        None
    }

    /// Insert a key/value pair, replacing the value of a present key.
    pub fn insert(&mut self, key: String, value: V)
        ensures
            final(self)@ == old(self)@.insert(key@, value),
            old(self)@.contains_key(key@) ==> final(self).pairs().len() == old(
                self,
            ).pairs().len(),
            !old(self)@.contains_key(key@) ==> final(self).pairs() == old(self).pairs().push(
                (key, value),
            ),
    {
        proof {
            use_type_invariant(&*self);
            lemma_map_of_contains(self.entries@, key@);
        }
        let mut entries: Vec<(String, V)> = Vec::new();
        std::mem::swap(&mut entries, &mut self.entries);
        let ghost old_entries = entries@;
        let n = entries.len();
        let mut i: usize = 0;
        let mut found: Option<usize> = None;
        while i < n && found.is_none()
            invariant
                n == entries@.len(),
                i <= n,
                entries@ == old_entries,
                match found {
                    Some(fi) => fi < n && entries@[fi as int].0@ == key@,
                    None => forall|j: int| 0 <= j < i ==> entries@[j].0@ != key@,
                },
            decreases n - i + (if found.is_none() { 1int } else { 0int }),
        {
            if str_eq(entries[i].0.as_str(), key.as_str()) {
                found = Some(i);
            } else {
                i = i + 1;
            }
        }
        match found {
            Some(fi) => {
                entries[fi].1 = value;
                proof {
                    assert(entries@ =~= old_entries.update(
                        fi as int,
                        (old_entries[fi as int].0, entries@[fi as int].1),
                    ));
                    assert(distinct_keys(entries@));
                    lemma_map_of_replace(old_entries, entries@, fi as int);
                    lemma_map_of_get(old_entries, fi as int);
                    assert(map_of(entries@) =~= map_of(old_entries).insert(key@, value));
                }
            },
            None => {
                entries.push((key, value));
                proof {
                    assert(entries@.drop_last() == old_entries);
                    assert(distinct_keys(entries@));
                }
            },
        }
        self.entries = entries;
    }
}

pub(crate) proof fn lemma_map_of_replace<V>(s1: Seq<(String, V)>, s2: Seq<(String, V)>, i: int)
    requires
        distinct_keys(s1),
        0 <= i < s1.len(),
        s2.len() == s1.len(),
        s2[i].0@ == s1[i].0@,
        forall|j: int| 0 <= j < s1.len() && j != i ==> s2[j] == s1[j],
    ensures
        map_of(s2) == map_of(s1).insert(s1[i].0@, s2[i].1),
    decreases s1.len(),
{
    if i == s1.len() - 1 {
        assert(s2.drop_last() =~= s1.drop_last());
        assert(map_of(s2) =~= map_of(s1).insert(s1[i].0@, s2[i].1));
    } else {
        assert(forall|j: int|
            0 <= j < s1.drop_last().len() && j != i ==> s2.drop_last()[j] == s1.drop_last()[j]);
        assert(s2.drop_last()[i] == s2[i]);
        assert(s1.drop_last()[i] == s1[i]);
        lemma_map_of_replace(s1.drop_last(), s2.drop_last(), i);
        assert(s2.last() == s1.last());
        assert(s1.last().0@ != s1[i].0@);
        assert(map_of(s2) =~= map_of(s1).insert(s1[i].0@, s2[i].1));
    }
}

impl<V> Default for StringMap<V> {
    /// The default map is empty.
    fn default() -> (r: Self)
        ensures
            r@ == Map::<Seq<char>, V>::empty(),
            r.pairs() == Seq::<(String, V)>::empty(),
    {
        StringMap::new()
    }
}

impl<V: Clone> Clone for StringMap<V> {
    /// Cloning keeps the keys and clones each value.
    fn clone(&self) -> (r: Self)
        ensures
            r.pairs().len() == self.pairs().len(),
            forall|i: int|
                0 <= i < self.pairs().len() ==> #[trigger] r.pairs()[i].0 == self.pairs()[i].0
                    && cloned::<V>(self.pairs()[i].1, r.pairs()[i].1),
            r@.dom() =~= self@.dom(),
            forall|k: Seq<char>|
                #[trigger] self@.contains_key(k) ==> cloned::<V>(self@[k], r@[k]),
    {
        proof {
            use_type_invariant(self);
        }
        let n = self.entries.len();
        let mut entries: Vec<(String, V)> = Vec::new();
        let mut i: usize = 0;
        while i < n
            invariant
                n == self.entries@.len(),
                i <= n,
                entries@.len() == i,
                forall|j: int|
                    0 <= j < i ==> #[trigger] entries@[j].0 == self.entries@[j].0 && cloned::<V>(
                        self.entries@[j].1,
                        entries@[j].1,
                    ),
            decreases n - i,
        {
            let key = self.entries[i].0.clone();
            let value = self.entries[i].1.clone();
            entries.push((key, value));
            i = i + 1;
        }
        let r = StringMap { entries };
        proof {
            assert(distinct_keys(r.entries@));
            r.lemma_pairs();
            self.lemma_pairs();
            assert forall|k: Seq<char>| #[trigger] self@.contains_key(k) implies r@.contains_key(
                k,
            ) && cloned::<V>(self@[k], r@[k]) by {
                let j = choose|j: int|
                    0 <= j < self.pairs().len() && #[trigger] self.pairs()[j].0@ == k;
                assert(r.pairs()[j].0@ == k);
                assert(r@.contains_key(r.pairs()[j].0@) && r@[r.pairs()[j].0@] == r.pairs()[j].1);
                assert(self@.contains_key(self.pairs()[j].0@) && self@[self.pairs()[j].0@]
                    == self.pairs()[j].1);
            }
            assert forall|k: Seq<char>| #[trigger] r@.contains_key(k) implies self@.contains_key(
                k,
            ) by {
                let j = choose|j: int| 0 <= j < r.pairs().len() && #[trigger] r.pairs()[j].0@ == k;
                assert(self.pairs()[j].0@ == k);
            }
        }
        r
    }
}

impl<V> StringMap<V> {
    /// The pair at position `i` in insertion order.
    pub fn pair_at(&self, i: usize) -> (r: &(String, V))
        requires
            i < self.pairs().len(),
        ensures
            *r == self.pairs()[i as int],
    {
        &self.entries[i]
    }
}

impl<V: Clone> StringMap<V> {
    /// Copy into `self` every key of `other` that `self` does not already
    /// hold, with `other`'s value; a key already present keeps its value.
    pub fn merge_missing(&mut self, other: &Self)
        ensures
            final(self)@.dom() =~= old(self)@.dom() + other@.dom(),
            forall|k: Seq<char>|
                #[trigger] old(self)@.contains_key(k) ==> final(self)@[k] == old(self)@[k],
            forall|k: Seq<char>|
                #[trigger] other@.contains_key(k) && !old(self)@.contains_key(k) ==> cloned::<V>(
                    other@[k],
                    final(self)@[k],
                ),
    {
        proof {
            use_type_invariant(other);
        }
        let n = other.entries.len();
        let mut i: usize = 0;
        while i < n
            invariant
                n == other.entries@.len(),
                i <= n,
                distinct_keys(other.entries@),
                self@.dom() =~= old(self)@.dom() + map_of(other.entries@.take(i as int)).dom(),
                forall|k: Seq<char>|
                    #[trigger] old(self)@.contains_key(k) ==> self@[k] == old(self)@[k],
                forall|k: Seq<char>|
                    #[trigger] self@.contains_key(k) && !old(self)@.contains_key(k) ==> map_of(
                        other.entries@,
                    ).contains_key(k) && cloned::<V>(map_of(other.entries@)[k], self@[k]),
            decreases n - i,
        {
            proof {
                assert(other.entries@.take(i as int + 1).drop_last() =~= other.entries@.take(
                    i as int,
                ));
                lemma_map_of_get(other.entries@, i as int);
            }
            let key_present = self.contains_key(other.entries[i].0.as_str());
            if !key_present {
                let key = other.entries[i].0.clone();
                let value = other.entries[i].1.clone();
                self.insert(key, value);
            }
            i = i + 1;
        }
        proof {
            assert(other.entries@.take(n as int) =~= other.entries@);
            assert forall|k: Seq<char>|
                #[trigger] other@.contains_key(k) && !old(self)@.contains_key(k) implies cloned::<
                V,
            >(other@[k], self@[k]) by {
                assert(self@.dom().contains(k));
                assert(self@.contains_key(k));
            }
        }
    }
}

pub(crate) proof fn lemma_map_of_remove<V>(s: Seq<(String, V)>, i: int)
    requires
        distinct_keys(s),
        0 <= i < s.len(),
    ensures
        distinct_keys(s.remove(i)),
        map_of(s.remove(i)) == map_of(s).remove(s[i].0@),
    decreases s.len(),
{
    assert(distinct_keys(s.remove(i)));
    if i == s.len() - 1 {
        assert(s.remove(i) =~= s.drop_last());
        lemma_map_of_contains(s.drop_last(), s.last().0@);
        assert(!map_of(s.drop_last()).contains_key(s.last().0@));
        assert(map_of(s.remove(i)) =~= map_of(s).remove(s[i].0@));
    } else {
        lemma_map_of_remove(s.drop_last(), i);
        assert(s.remove(i).drop_last() =~= s.drop_last().remove(i));
        assert(s.remove(i).last() == s.last());
        assert(s[i].0@ != s.last().0@);
        assert(map_of(s.remove(i)) == map_of(s.drop_last().remove(i)).insert(
            s.last().0@,
            s.last().1,
        ));
        assert(map_of(s.remove(i)) =~= map_of(s).remove(s[i].0@));
    }
}

impl<V> StringMap<V> {
    /// Remove a key, returning its value if it was present.
    pub fn remove(&mut self, key: &str) -> (r: Option<V>)
        ensures
            final(self)@ == old(self)@.remove(key@),
            match r {
                Some(v) => old(self)@.contains_key(key@) && v == old(self)@[key@],
                None => !old(self)@.contains_key(key@),
            },
    {
        proof {
            use_type_invariant(&*self);
            lemma_map_of_contains(self.entries@, key@);
        }
        let mut entries: Vec<(String, V)> = Vec::new();
        std::mem::swap(&mut entries, &mut self.entries);
        let ghost old_entries = entries@;
        let n = entries.len();
        let mut i: usize = 0;
        let mut found: Option<usize> = None;
        while i < n && found.is_none()
            invariant
                n == entries@.len(),
                i <= n,
                entries@ == old_entries,
                match found {
                    Some(fi) => fi < n && entries@[fi as int].0@ == key@,
                    None => forall|j: int| 0 <= j < i ==> entries@[j].0@ != key@,
                },
            decreases n - i + (if found.is_none() {
                1int
            } else {
                0int
            }),
        {
            if str_eq(entries[i].0.as_str(), key) {
                found = Some(i);
            } else {
                i = i + 1;
            }
        }
        let r = match found {
            Some(fi) => {
                let pair = entries.remove(fi);
                proof {
                    lemma_map_of_remove(old_entries, fi as int);
                    lemma_map_of_get(old_entries, fi as int);
                }
                Some(pair.1)
            },
            None => {
                proof {
                    assert(map_of(entries@) =~= map_of(entries@).remove(key@));
                }
                None
            },
        };
        self.entries = entries;
        r
    }
}

} // verus!
