//! Maps from text to text with unique keys, kept in insertion order: the
//! tags of an instance and the fields of a JSON object with opaque values.
use vstd::prelude::*;
use crate::text::str_eq;

verus! {

/// The map formed by inserting each entry in turn (later entries win).
pub open spec fn map_of(s: Seq<(String, String)>) -> Map<Seq<char>, Seq<char>>
    decreases s.len(),
{
    if s.len() == 0 {
        Map::empty()
    } else {
        map_of(s.drop_last()).insert(s.last().0@, s.last().1@)
    }
}

/// No key occurs twice.
pub open spec fn unique_keys(s: Seq<(String, String)>) -> bool {
    forall|i: int, j: int| 0 <= i < j < s.len() ==> s[i].0@ != s[j].0@
}

/// A map from text to text: at most one value per key.
#[derive(Debug)]
pub struct TextMap {
    entries: Vec<(String, String)>,
}

impl View for TextMap {
    type V = Map<Seq<char>, Seq<char>>;

    closed spec fn view(&self) -> Map<Seq<char>, Seq<char>> {
        map_of(self.entries@)
    }
}

proof fn lemma_map_of_facts(s: Seq<(String, String)>)
    requires
        unique_keys(s),
    ensures
        forall|q: Seq<char>|
            #![trigger map_of(s).dom().contains(q)]
            map_of(s).dom().contains(q) <==> exists|i: int| 0 <= i < s.len() && s[i].0@ == q,
        forall|i: int|
            0 <= i < s.len() ==> map_of(s).dom().contains(#[trigger] s[i].0@) && map_of(s)[s[i].0@]
                == s[i].1@,
    decreases s.len(),
{
    if s.len() > 0 {
        let t = s.drop_last();
        let last = s.last();
        lemma_map_of_facts(t);
        assert(map_of(s) == map_of(t).insert(last.0@, last.1@));
        assert forall|i: int| 0 <= i < s.len() implies map_of(s).dom().contains(#[trigger] s[i].0@)
            && map_of(s)[s[i].0@] == s[i].1@ by {
            if i < s.len() - 1 {
                assert(t[i] == s[i]);
                assert(s[i].0@ != last.0@);
                assert(map_of(t).dom().contains(t[i].0@));
            }
        }
        assert forall|q: Seq<char>| map_of(s).dom().contains(q) implies exists|i: int|
            0 <= i < s.len() && s[i].0@ == q by {
            if q != last.0@ {
                assert(map_of(t).dom().contains(q));
                let i = choose|i: int| 0 <= i < t.len() && t[i].0@ == q;
                assert(s[i] == t[i]);
            } else {
                assert(s[s.len() - 1].0@ == q);
            }
        }
    }
}

proof fn lemma_map_of_update(s: Seq<(String, String)>, i: int, e: (String, String))
    requires
        unique_keys(s),
        0 <= i < s.len(),
        e.0@ == s[i].0@,
    ensures
        map_of(s.update(i, e)) =~= map_of(s).insert(e.0@, e.1@),
        unique_keys(s.update(i, e)),
    decreases s.len(),
{
    let u = s.update(i, e);
    if i == s.len() - 1 {
        assert(u.drop_last() =~= s.drop_last());
    } else {
        assert(u.drop_last() =~= s.drop_last().update(i, e));
        lemma_map_of_update(s.drop_last(), i, e);
        assert(s.last().0@ != e.0@);
    }
}

impl TextMap {
    #[verifier::type_invariant]
    spec fn keys_unique(self) -> bool {
        unique_keys(self.entries@)
    }

    /// The empty map.
    pub fn new() -> (r: Self)
        ensures
            r@ == Map::<Seq<char>, Seq<char>>::empty(),
    {
        TextMap { entries: Vec::new() }
    }

    /// Number of keys.
    pub fn len(&self) -> (n: usize)
        ensures
            n == self@.len(),
    {
        proof {
            use_type_invariant(self);
            lemma_map_of_len(self.entries@);
        }
        self.entries.len()
    }

    /// The value of `key`, if it is set.
    pub fn get(&self, key: &str) -> (r: Option<&String>)
        ensures
            match r {
                Some(v) => self@.contains_key(key@) && self@[key@] == v@,
                None => !self@.contains_key(key@),
            },
    {
        proof {
            use_type_invariant(self);
            lemma_map_of_facts(self.entries@);
        }
        let mut i: usize = 0;
        while i < self.entries.len()
            invariant
                i <= self.entries.len(),
                forall|j: int| 0 <= j < i ==> self.entries@[j].0@ != key@,
            decreases self.entries.len() - i,
        {
            if str_eq(self.entries[i].0.as_str(), key) {
                proof {
                    use_type_invariant(self);
                    lemma_map_of_facts(self.entries@);
                    assert(map_of(self.entries@).dom().contains(self.entries@[i as int].0@));
                }
                return Some(&self.entries[i].1);
            }
            i = i + 1;
        }
        proof {
            use_type_invariant(self);
            lemma_map_of_facts(self.entries@);
        }
        None
    }

    /// Sets `key` to `value`, returning the value it replaced.
    pub fn insert(&mut self, key: String, value: String) -> (r: Option<String>)
        ensures
            final(self)@ == old(self)@.insert(key@, value@),
            match r {
                Some(v) => old(self)@.contains_key(key@) && old(self)@[key@] == v@,
                None => !old(self)@.contains_key(key@),
            },
    {
        proof {
            use_type_invariant(&*self);
            lemma_map_of_facts(self.entries@);
        }
        let mut i: usize = 0;
        while i < self.entries.len()
            invariant
                i <= self.entries.len(),
                self.entries@ == old(self).entries@,
                unique_keys(self.entries@),
                forall|j: int| 0 <= j < i ==> self.entries@[j].0@ != key@,
            decreases self.entries.len() - i,
        {
            if self.entries[i].0 == key {
                let ghost s = self.entries@;
                let old_value = self.entries[i].1.clone();
                proof {
                    lemma_map_of_update(s, i as int, (key, value));
                    lemma_map_of_facts(s);
                    assert(map_of(s)[s[i as int].0@] == s[i as int].1@);
                }
                let mut entries: Vec<(String, String)> = Vec::new();
                std::mem::swap(&mut entries, &mut self.entries);
                entries.set(i, (key, value));
                self.entries = entries;
                return Some(old_value);
            }
            i = i + 1;
        }
        let ghost s = self.entries@;
        proof {
            lemma_map_of_facts(s);
        }
        let mut entries: Vec<(String, String)> = Vec::new();
        std::mem::swap(&mut entries, &mut self.entries);
        entries.push((key, value));
        proof {
            assert(entries@.drop_last() =~= s);
            assert(unique_keys(entries@));
        }
        self.entries = entries;
        None
    }
}

impl TextMap {
    /// Adds every entry of `defaults` whose key is missing here; entries
    /// already present keep their values.
    #[verifier::spinoff_prover]
    pub fn fill_missing_from(&mut self, defaults: &TextMap)
        ensures
            final(self)@ == defaults@.union_prefer_right(old(self)@),
    {
        proof {
            use_type_invariant(defaults);
        }
        let ghost start = self@;
        let ghost d = defaults.entries@;
        let mut i: usize = 0;
        assert(d.take(0) =~= Seq::<(String, String)>::empty());
        assert(map_of(d.take(0)).union_prefer_right(start) =~= start);
        while i < defaults.entries.len()
            invariant
                i <= defaults.entries.len(),
                d == defaults.entries@,
                unique_keys(d),
                self@ == map_of(d.take(i as int)).union_prefer_right(start),
            decreases defaults.entries.len() - i,
        {
            let k = &defaults.entries[i].0;
            let v = &defaults.entries[i].1;
            assert(d.take((i + 1) as int).drop_last() =~= d.take(i as int));
            assert(d.take((i + 1) as int).last() == d[i as int]);
            assert(!map_of(d.take(i as int)).contains_key(k@)) by {
                let t = d.take(i as int);
                assert(unique_keys(t));
                lemma_map_of_facts(t);
                if map_of(t).contains_key(k@) {
                    let j = choose|j: int| 0 <= j < t.len() && t[j].0@ == k@;
                    assert(d[j].0@ == d[i as int].0@);
                }
            }
            let present = self.get(k.as_str()).is_some();
            if !present {
                let kk = k.clone();
                let vv = v.clone();
                self.insert(kk, vv);
                assert(self@ =~= map_of(d.take((i + 1) as int)).union_prefer_right(start));
            } else {
                assert(start.contains_key(k@));
                assert(self@ =~= map_of(d.take((i + 1) as int)).union_prefer_right(start));
            }
            i = i + 1;
        }
        assert(d.take(d.len() as int) =~= d);
    }
}

impl Clone for TextMap {
    fn clone(&self) -> (r: Self)
        ensures
            r@ == self@,
    {
        proof {
            use_type_invariant(self);
        }
        let mut entries: Vec<(String, String)> = Vec::new();
        let mut i: usize = 0;
        while i < self.entries.len()
            invariant
                i <= self.entries.len(),
                unique_keys(self.entries@),
                entries@ == self.entries@.take(i as int),
            decreases self.entries.len() - i,
        {
            let k = self.entries[i].0.clone();
            let v = self.entries[i].1.clone();
            entries.push((k, v));
            assert(entries@ =~= self.entries@.take((i + 1) as int));
            i = i + 1;
        }
        assert(self.entries@.take(self.entries.len() as int) =~= self.entries@);
        TextMap { entries }
    }
}

proof fn lemma_map_of_len(s: Seq<(String, String)>)
    requires
        unique_keys(s),
    ensures
        map_of(s).len() == s.len(),
        map_of(s).dom().finite(),
    decreases s.len(),
{
    if s.len() > 0 {
        let t = s.drop_last();
        lemma_map_of_len(t);
        lemma_map_of_facts(t);
        assert(!map_of(t).dom().contains(s.last().0@));
    }
}

/// Reading a key back right after setting it gives the value set, and
/// setting one key leaves every other key as it was.
pub proof fn lemma_insert_then_get(t: TextMap, key: Seq<char>, value: Seq<char>, other: Seq<char>)
    requires
        other != key,
    ensures
        t@.insert(key, value).contains_key(key),
        t@.insert(key, value)[key] == value,
        t@.insert(key, value).contains_key(other) == t@.contains_key(other),
        t@.contains_key(other) ==> t@.insert(key, value)[other] == t@[other],
{
}

} // verus!
