use vstd::prelude::*;
use vstd::string::StringExecFns;

verus! {

/// A string-to-string map with unique keys, kept in insertion order.
pub struct TagMap {
    entries: Vec<(String, String)>,
}

/// No key occurs twice.
pub open spec fn keys_unique(s: Seq<(String, String)>) -> bool {
    forall|i: int, j: int| 0 <= i < j < s.len() ==> s[i].0@ != s[j].0@
}

/// The map that a sequence of pairs describes (a later pair for a key wins).
pub open spec fn entries_map(s: Seq<(String, String)>) -> Map<Seq<char>, Seq<char>>
    decreases s.len(),
{
    if s.len() == 0 {
        Map::empty()
    } else {
        entries_map(s.drop_last()).insert(s.last().0@, s.last().1@)
    }
}

proof fn lemma_entries_map_dom(s: Seq<(String, String)>, k: Seq<char>)
    ensures
        entries_map(s).contains_key(k) <==> exists|i: int| 0 <= i < s.len() && s[i].0@ == k,
    decreases s.len(),
{
    if s.len() > 0 {
        lemma_entries_map_dom(s.drop_last(), k);
        if entries_map(s).contains_key(k) && s.last().0@ != k {
            let i = choose|i: int| 0 <= i < s.len() - 1 && s.drop_last()[i].0@ == k;
            assert(s[i].0@ == k);
        }
        if exists|i: int| 0 <= i < s.len() && s[i].0@ == k {
            let i = choose|i: int| 0 <= i < s.len() && s[i].0@ == k;
            if i < s.len() - 1 {
                assert(s.drop_last()[i].0@ == k);
            }
        }
    }
}

proof fn lemma_entries_map_value(s: Seq<(String, String)>, i: int)
    requires
        keys_unique(s),
        0 <= i < s.len(),
    ensures
        entries_map(s).contains_key(s[i].0@),
        entries_map(s)[s[i].0@] == s[i].1@,
    decreases s.len(),
{
    if i < s.len() - 1 {
        assert(keys_unique(s.drop_last()));
        lemma_entries_map_value(s.drop_last(), i);
        assert(s.drop_last()[i] == s[i]);
    }
}

impl View for TagMap {
    type V = Map<Seq<char>, Seq<char>>;

    closed spec fn view(&self) -> Map<Seq<char>, Seq<char>> {
        entries_map(self.entries@)
    }
}

impl TagMap {
    #[verifier::type_invariant]
    closed spec fn wf(self) -> bool {
        keys_unique(self.entries@)
    }

    /// An empty map.
    pub fn new() -> (r: TagMap)
        ensures
            r@ == Map::<Seq<char>, Seq<char>>::empty(),
    {
        TagMap { entries: Vec::new() }
    }

    /// The number of keys. Read in order, the entries `0..r` hold every key once.
    pub fn len(&self) -> (r: usize)
        ensures
            r == self@.dom().len(),
            self@.dom().finite(),
            forall|k: Seq<char>|
                self@.contains_key(k) <==> exists|i: int| 0 <= i < r && #[trigger] self.key_at(i) == k,
            forall|i: int, j: int| 0 <= i < j < r ==> self.key_at(i) != self.key_at(j),
    {
        proof {
            use_type_invariant(self);
            self.lemma_dom_len();
            assert forall|k: Seq<char>|
                self@.contains_key(k) <==> exists|i: int|
                    0 <= i < self.entries@.len() && #[trigger] self.key_at(i) == k by {
                lemma_entries_map_dom(self.entries@, k);
                if self@.contains_key(k) {
                    let i = choose|i: int| 0 <= i < self.entries@.len() && self.entries@[i].0@ == k;
                    assert(self.key_at(i) == k);
                }
                if exists|i: int| 0 <= i < self.entries@.len() && #[trigger] self.key_at(i) == k {
                    let i = choose|i: int| 0 <= i < self.entries@.len() && #[trigger] self.key_at(i) == k;
                    assert(self.entries@[i].0@ == k);
                }
            }
        }
        self.entries.len()
    }

    /// Whether the map has no key.
    pub fn is_empty(&self) -> (r: bool)
        ensures
            r == (self@.dom().len() == 0),
    {
        self.len() == 0
    }

    proof fn lemma_dom_len(&self)
        requires
            keys_unique(self.entries@),
        ensures
            self@.dom().len() == self.entries@.len(),
            self@.dom().finite(),
    {
        lemma_dom_len_of(self.entries@);
    }

    /// The key of the `i`-th entry, in insertion order.
    pub closed spec fn key_at(&self, i: int) -> Seq<char> {
        self.entries@[i].0@
    }

    /// The key and the value of the `i`-th entry, in insertion order.
    pub fn entry(&self, i: usize) -> (r: (&String, &String))
        requires
            i < self@.dom().len(),
        ensures
            self@.contains_key(r.0@),
            self@[r.0@] == r.1@,
            r.0@ == self.key_at(i as int),
    {
        proof {
            use_type_invariant(self);
            self.lemma_dom_len();
            lemma_entries_map_value(self.entries@, i as int);
        }
        (&self.entries[i].0, &self.entries[i].1)
    }

    fn find(&self, key: &String) -> (r: Option<usize>)
        ensures
            match r {
                Some(i) => i < self.entries@.len() && self.entries@[i as int].0@ == key@,
                None => forall|i: int| 0 <= i < self.entries@.len() ==> self.entries@[i].0@ != key@,
            },
    {
        let mut i: usize = 0;
        while i < self.entries.len()
            invariant
                i <= self.entries@.len(),
                forall|j: int| 0 <= j < i ==> self.entries@[j].0@ != key@,
            decreases self.entries@.len() - i,
        {
            if self.entries[i].0 == *key {
                return Some(i);
            }
            i = i + 1;
        }
        None
    }

    /// The value stored under `key`.
    pub fn get(&self, key: &str) -> (r: Option<&String>)
        ensures
            match r {
                Some(v) => self@.contains_key(key@) && self@[key@] == v@,
                None => !self@.contains_key(key@),
            },
    {
        proof {
            use_type_invariant(self);
            lemma_entries_map_dom(self.entries@, key@);
        }
        let owned = String::from_str(key);
        match self.find(&owned) {
            Some(i) => {
                proof {
                    lemma_entries_map_value(self.entries@, i as int);
                }
                Some(&self.entries[i].1)
            },
            None => None,
        }
    }

    /// Whether `key` is present.
    pub fn contains_key(&self, key: &str) -> (r: bool)
        ensures
            r == self@.contains_key(key@),
    {
        self.get(key).is_some()
    }

    /// Stores `value` under `key`, replacing any earlier value.
    pub fn insert(&mut self, key: String, value: String)
        ensures
            final(self)@ == old(self)@.insert(key@, value@),
    {
        proof {
            use_type_invariant(&*self);
        }
        let ghost old_entries = self.entries@;
        let found = self.find(&key);
        let mut entries: Vec<(String, String)> = Vec::new();
        std::mem::swap(&mut self.entries, &mut entries);
        match found {
            Some(i) => {
                let ghost k = key@;
                let ghost v = value@;
                entries.set(i, (key, value));
                proof {
                    let s = entries@;
                    assert(keys_unique(s)) by {
                        assert forall|a: int, b: int| 0 <= a < b < s.len() implies s[a].0@
                            != s[b].0@ by {
                            assert(old_entries[a].0@ != old_entries[b].0@);
                        }
                    }
                    assert forall|kk: Seq<char>| #[trigger]
                        entries_map(s).contains_key(kk) == entries_map(old_entries).insert(
                            k,
                            v,
                        ).contains_key(kk) by {
                        lemma_entries_map_dom(s, kk);
                        lemma_entries_map_dom(old_entries, kk);
                        assert(s[i as int].0@ == k);
                        if kk != k && entries_map(old_entries).contains_key(kk) {
                            let j = choose|j: int|
                                0 <= j < old_entries.len() && old_entries[j].0@ == kk;
                            assert(s[j].0@ == kk);
                        }
                        if kk != k && entries_map(s).contains_key(kk) {
                            let j = choose|j: int| 0 <= j < s.len() && s[j].0@ == kk;
                            assert(old_entries[j].0@ == kk);
                        }
                    }
                    assert forall|kk: Seq<char>| #[trigger]
                        entries_map(s).contains_key(kk) implies entries_map(s)[kk]
                        == entries_map(old_entries).insert(k, v)[kk] by {
                        lemma_entries_map_dom(s, kk);
                        let j = choose|j: int| 0 <= j < s.len() && s[j].0@ == kk;
                        lemma_entries_map_value(s, j);
                        if j != i as int {
                            lemma_entries_map_value(old_entries, j);
                        }
                    }
                    assert(entries_map(s) =~= entries_map(old_entries).insert(k, v));
                }
                self.entries = entries;
            },
            None => {
                entries.push((key, value));
                proof {
                    let s = entries@;
                    assert(s.drop_last() =~= old_entries);
                    assert(keys_unique(s));
                }
                self.entries = entries;
            },
        }
    }

    /// A copy holding the same entries in the same order.
    pub fn duplicate(&self) -> (r: TagMap)
        ensures
            r@ == self@,
    {
        proof {
            use_type_invariant(self);
        }
        let mut entries: Vec<(String, String)> = Vec::new();
        let mut i: usize = 0;
        while i < self.entries.len()
            invariant
                i <= self.entries@.len(),
                entries@.len() == i,
                forall|j: int|
                    0 <= j < i ==> #[trigger] entries@[j].0@ == self.entries@[j].0@
                        && entries@[j].1@ == self.entries@[j].1@,
            decreases self.entries@.len() - i,
        {
            entries.push((self.entries[i].0.clone(), self.entries[i].1.clone()));
            i = i + 1;
        }
        proof {
            lemma_same_pairs_same_map(entries@, self.entries@);
        }
        TagMap { entries }
    }

    /// Whether every key of `filter` is present here with the same value.
    pub fn contains_all(&self, filter: &TagMap) -> (r: bool)
        ensures
            r == filter@.submap_of(self@),
    {
        proof {
            use_type_invariant(filter);
            filter.lemma_dom_len();
        }
        let n = filter.entries.len();
        let mut i: usize = 0;
        while i < n
            invariant
                n == filter.entries@.len(),
                keys_unique(filter.entries@),
                i <= n,
                forall|j: int|
                    0 <= j < i ==> #[trigger] self@.contains_key(filter.entries@[j].0@)
                        && self@[filter.entries@[j].0@] == filter.entries@[j].1@,
            decreases n - i,
        {
            let k = &filter.entries[i].0;
            let v = &filter.entries[i].1;
            match self.get(k.as_str()) {
                Some(mine) => {
                    if !(*mine == *v) {
                        proof {
                            lemma_entries_map_value(filter.entries@, i as int);
                        }
                        return false;
                    }
                },
                None => {
                    proof {
                        lemma_entries_map_value(filter.entries@, i as int);
                    }
                    return false;
                },
            }
            assert(k@ == filter.entries@[i as int].0@ && v@ == filter.entries@[i as int].1@);
            assert(self@.contains_key(filter.entries@[i as int].0@) && self@[filter.entries@[
                i as int].0@] == filter.entries@[i as int].1@);
            assert forall|j: int| 0 <= j < i + 1 implies #[trigger] self@.contains_key(
                filter.entries@[j].0@,
            ) && self@[filter.entries@[j].0@] == filter.entries@[j].1@ by {
                if j < i {
                } else {
                    assert(j == i);
                }
            }
            i = i + 1;
        }
        proof {
            assert forall|k: Seq<char>| #[trigger] filter@.contains_key(k) implies self@.contains_key(k)
                && self@[k] == filter@[k] by {
                lemma_entries_map_dom(filter.entries@, k);
                let j = choose|j: int| 0 <= j < n && filter.entries@[j].0@ == k;
                lemma_entries_map_value(filter.entries@, j);
            }
        }
        true
    }

    /// Whether both maps hold the same keys with the same values, whatever the order of insertion.
    pub fn same_as(&self, other: &TagMap) -> (r: bool)
        ensures
            r == (self@ == other@),
    {
        let a = self.contains_all(other);
        let b = other.contains_all(self);
        proof {
            if a && b {
                assert forall|k: Seq<char>| self@.contains_key(k) <==> other@.contains_key(k) by {
                    if self@.contains_key(k) {
                        assert(other@.contains_key(k));
                    }
                    if other@.contains_key(k) {
                        assert(self@.contains_key(k));
                    }
                }
                assert(self@ =~= other@);
            }
        }
        a && b
    }
}

proof fn lemma_same_pairs_same_map(a: Seq<(String, String)>, b: Seq<(String, String)>)
    requires
        a.len() == b.len(),
        forall|j: int| 0 <= j < a.len() ==> #[trigger] a[j].0@ == b[j].0@ && a[j].1@ == b[j].1@,
    ensures
        entries_map(a) == entries_map(b),
        keys_unique(a) == keys_unique(b),
    decreases a.len(),
{
    if a.len() > 0 {
        lemma_same_pairs_same_map(a.drop_last(), b.drop_last());
        assert(a.last().0@ == b.last().0@);
    }
    if keys_unique(b) && !keys_unique(a) {
        let (x, y) = choose|x: int, y: int| 0 <= x < y < a.len() && a[x].0@ == a[y].0@;
        assert(b[x].0@ == b[y].0@);
    }
    if keys_unique(a) && !keys_unique(b) {
        let (x, y) = choose|x: int, y: int| 0 <= x < y < b.len() && b[x].0@ == b[y].0@;
        assert(a[x].0@ == a[y].0@);
    }
}

proof fn lemma_dom_len_of(s: Seq<(String, String)>)
    requires
        keys_unique(s),
    ensures
        entries_map(s).dom().len() == s.len(),
        entries_map(s).dom().finite(),
    decreases s.len(),
{
    if s.len() > 0 {
        let t = s.drop_last();
        assert(keys_unique(t));
        lemma_dom_len_of(t);
        lemma_entries_map_dom(t, s.last().0@);
        if entries_map(t).contains_key(s.last().0@) {
            let j = choose|j: int| 0 <= j < t.len() && t[j].0@ == s.last().0@;
            assert(s[j].0@ == s[s.len() - 1].0@);
        }
    }
}

} // verus!
