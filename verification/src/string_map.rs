//! Map with string keys.
use vstd::prelude::*;
use vstd::pervasive::cloned;
use crate::text::{contains_string, has_string};

verus! {

/// Map from strings to values. Each key occurs once.
#[derive(Debug)]
pub struct StringMap<V> {
    entries: Vec<(String, V)>,
}

/// No two entries have the same key.
pub open spec fn unique_keys<V>(entries: Seq<(String, V)>) -> bool {
    forall|i: int, j: int|
        0 <= i < j < entries.len() ==> (#[trigger] entries[i]).0@ != (#[trigger] entries[j]).0@
}

/// Some entry has the key.
pub open spec fn has_key<V>(entries: Seq<(String, V)>, key: Seq<char>) -> bool {
    exists|i: int| 0 <= i < entries.len() && (#[trigger] entries[i]).0@ == key
}

/// Position of the entry with the key.
pub open spec fn position<V>(entries: Seq<(String, V)>, key: Seq<char>) -> int {
    choose|i: int| 0 <= i < entries.len() && (#[trigger] entries[i]).0@ == key
}

/// Map that a list of entries stands for.
pub open spec fn entries_map<V>(entries: Seq<(String, V)>) -> Map<Seq<char>, V> {
    Map::new(|key: Seq<char>| has_key(entries, key), |key: Seq<char>| entries[position(entries, key)].1)
}

proof fn lemma_entry<V>(entries: Seq<(String, V)>, i: int)
    requires
        unique_keys(entries),
        0 <= i < entries.len(),
    ensures
        has_key(entries, entries[i].0@),
        position(entries, entries[i].0@) == i,
        entries_map(entries).contains_key(entries[i].0@),
        entries_map(entries)[entries[i].0@] == entries[i].1,
{
    let p = position(entries, entries[i].0@);
    assert(0 <= p < entries.len() && entries[p].0@ == entries[i].0@);
}

/// Adding an entry with a new key adds that key to the map.
proof fn lemma_push<V>(entries: Seq<(String, V)>, key: String, value: V)
    requires
        unique_keys(entries),
        !has_key(entries, key@),
    ensures
        unique_keys(entries.push((key, value))),
        entries_map(entries.push((key, value))) == entries_map(entries).insert(key@, value),
{
    let after = entries.push((key, value));
    assert(unique_keys(after));
    assert forall|k: Seq<char>| has_key(after, k) == (k == key@ || has_key(entries, k)) by {
        if has_key(entries, k) {
            let i = position(entries, k);
            assert(after[i].0@ == k);
        }
        if k == key@ {
            assert(after[entries.len() as int].0@ == k);
        }
        if has_key(after, k) {
            let i = position(after, k);
            if i < entries.len() {
                assert(entries[i].0@ == k);
            }
        }
    }
    assert forall|k: Seq<char>| has_key(after, k) implies entries_map(after)[k] == entries_map(entries).insert(
        key@,
        value,
    )[k] by {
        let i = position(after, k);
        lemma_entry(after, i);
        if i < entries.len() {
            lemma_entry(entries, i);
            assert(entries[i].0@ == k);
        }
    }
    assert(entries_map(after) =~= entries_map(entries).insert(key@, value));
}

/// Replacing the value of an entry replaces the value of its key in the map.
proof fn lemma_replace<V>(entries: Seq<(String, V)>, i: int, key: String, value: V)
    requires
        unique_keys(entries),
        0 <= i < entries.len(),
        entries[i].0@ == key@,
    ensures
        unique_keys(entries.update(i, (key, value))),
        entries_map(entries.update(i, (key, value))) == entries_map(entries).insert(key@, value),
{
    let after = entries.update(i, (key, value));
    assert(unique_keys(after));
    assert forall|k: Seq<char>| has_key(after, k) == has_key(entries, k) by {
        if has_key(entries, k) {
            assert(after[position(entries, k)].0@ == k);
        }
        if has_key(after, k) {
            assert(entries[position(after, k)].0@ == k);
        }
    }
    lemma_entry(entries, i);
    assert forall|k: Seq<char>| has_key(after, k) implies entries_map(after)[k] == entries_map(entries).insert(
        key@,
        value,
    )[k] by {
        let j = position(after, k);
        lemma_entry(after, j);
        lemma_entry(entries, j);
        assert(entries[j].0@ == k);
    }
    assert(entries_map(after) =~= entries_map(entries).insert(key@, value));
}

/// Dropping an entry drops its key from the map.
proof fn lemma_remove<V>(entries: Seq<(String, V)>, i: int)
    requires
        unique_keys(entries),
        0 <= i < entries.len(),
    ensures
        unique_keys(entries.remove(i)),
        entries_map(entries.remove(i)) == entries_map(entries).remove(entries[i].0@),
{
    let after = entries.remove(i);
    let key = entries[i].0@;
    assert forall|a: int, b: int| 0 <= a < b < after.len() implies (#[trigger] after[a]).0@ != (
    #[trigger] after[b]).0@ by {
        let a1 = if a < i { a } else { a + 1 };
        let b1 = if b < i { b } else { b + 1 };
        assert(after[a] == entries[a1] && after[b] == entries[b1]);
    }
    assert forall|k: Seq<char>| has_key(after, k) == (k != key && has_key(entries, k)) by {
        if has_key(entries, k) && k != key {
            let j = position(entries, k);
            let j1 = if j < i { j } else { j - 1 };
            assert(after[j1].0@ == k);
        }
        if has_key(after, k) {
            let j = position(after, k);
            let j1 = if j < i { j } else { j + 1 };
            assert(entries[j1].0@ == k);
        }
    }
    assert forall|k: Seq<char>| has_key(after, k) implies entries_map(after)[k] == entries_map(entries)[k] by {
        let j = position(after, k);
        let j1 = if j < i { j } else { j + 1 };
        lemma_entry(after, j);
        lemma_entry(entries, j1);
    }
    assert(entries_map(after) =~= entries_map(entries).remove(key));
}

/// The last entry's key is new to the entries before it.
proof fn lemma_last<V>(entries: Seq<(String, V)>, key: String, value: V)
    requires
        unique_keys(entries.push((key, value))),
    ensures
        unique_keys(entries),
        !entries_map(entries).contains_key(key@),
        entries_map(entries.push((key, value))) == entries_map(entries).insert(key@, value),
{
    let whole = entries.push((key, value));
    assert forall|i: int, j: int| 0 <= i < j < entries.len() implies (#[trigger] entries[i]).0@ != (
    #[trigger] entries[j]).0@ by {
        assert(whole[i].0@ != whole[j].0@);
    }
    assert forall|i: int| 0 <= i < entries.len() implies (#[trigger] entries[i]).0@ != key@ by {
        assert(whole[i].0@ != whole[entries.len() as int].0@);
    }
    lemma_push(entries, key, value);
}

/// The map has as many keys as there are entries.
proof fn lemma_count<V>(entries: Seq<(String, V)>)
    requires
        unique_keys(entries),
    ensures
        entries_map(entries).dom().finite(),
        entries_map(entries).dom().len() == entries.len(),
    decreases entries.len(),
{
    if entries.len() == 0 {
        assert(entries_map(entries).dom() =~= Set::<Seq<char>>::empty());
    } else {
        let before = entries.drop_last();
        let last = entries.last();
        assert(entries =~= before.push((last.0, last.1)));
        lemma_last(before, last.0, last.1);
        lemma_count(before);
        assert(entries_map(entries).dom() =~= entries_map(before).dom().insert(last.0@));
    }
}

/// Part of a map whose keys stand in a list.
pub open spec fn restricted<V>(map: Map<Seq<char>, V>, names: Seq<String>) -> Map<Seq<char>, V> {
    map.restrict(Set::new(|key: Seq<char>| has_string(names, key)))
}

impl<V> View for StringMap<V> {
    type V = Map<Seq<char>, V>;

    closed spec fn view(&self) -> Map<Seq<char>, V> {
        entries_map(self.entries@)
    }
}

impl<V> StringMap<V> {
    /// Entries, in the order in which they are handed out.
    pub closed spec fn entries(&self) -> Seq<(String, V)> {
        self.entries@
    }

    #[verifier::type_invariant]
    spec fn wf(&self) -> bool {
        unique_keys(self.entries@)
    }

    /// Empty map.
    pub fn new() -> (r: Self)
        ensures
            r@ == Map::<Seq<char>, V>::empty(),
            r.entries().len() == 0,
    {
        let r = StringMap { entries: Vec::new() };
        assert(r@ =~= Map::<Seq<char>, V>::empty());
        r
    }

    /// Number of entries.
    pub fn len(&self) -> (r: usize)
        ensures
            r == self.entries().len(),
            unique_keys(self.entries()),
            self@ == entries_map(self.entries()),
            self@.dom().finite(),
            self@.dom().len() == r,
    {
        proof {
            use_type_invariant(self);
            lemma_count(self.entries@);
        }
        self.entries.len()
    }

    /// Entry at a position.
    pub fn entry(&self, i: usize) -> (r: (&String, &V))
        requires
            i < self.entries().len(),
        ensures
            *r.0 == self.entries()[i as int].0,
            *r.1 == self.entries()[i as int].1,
            self@.contains_key(r.0@),
            self@[r.0@] == *r.1,
    {
        proof {
            use_type_invariant(self);
            lemma_entry(self.entries@, i as int);
        }
        let e = &self.entries[i];
        (&e.0, &e.1)
    }

    fn find(&self, key: &str) -> (r: Option<usize>)
        ensures
            match r {
                Some(i) => i < self.entries@.len() && self.entries@[i as int].0@ == key@
                    && self@.contains_key(key@) && self@[key@] == self.entries@[i as int].1,
                None => !has_key(self.entries@, key@) && !self@.contains_key(key@),
            },
    {
        proof {
            use_type_invariant(self);
        }
        let wanted = key.to_owned();
        for i in 0..self.entries.len()
            invariant
                wanted@ == key@,
                forall|j: int| 0 <= j < i ==> (#[trigger] self.entries@[j]).0@ != key@,
                unique_keys(self.entries@),
        {
            if self.entries[i].0 == wanted {
                proof {
                    lemma_entry(self.entries@, i as int);
                }
                return Some(i);
            }
        }
        None
    }

    /// Value of a key.
    pub fn get(&self, key: &str) -> (r: Option<&V>)
        ensures
            match r {
                Some(v) => self@.contains_key(key@) && self@[key@] == *v,
                None => !self@.contains_key(key@),
            },
    {
        match self.find(key) {
            Some(i) => Some(&self.entries[i].1),
            None => None,
        }
    }

    /// The key has a value.
    pub fn contains_key(&self, key: &str) -> (r: bool)
        ensures
            r == self@.contains_key(key@),
    {
        self.find(key).is_some()
    }

    /// Gives a key a value, in place of the one it had.
    pub fn insert(&mut self, key: String, value: V)
        ensures
            final(self)@ == old(self)@.insert(key@, value),
    {
        proof {
            use_type_invariant(&*self);
        }
        let place = self.find(key.as_str());
        let mut whole = StringMap::new();
        core::mem::swap(self, &mut whole);
        let mut entries = whole.into_entries();
        match place {
            Some(i) => {
                proof {
                    lemma_replace(entries@, i as int, key, value);
                }
                entries.set(i, (key, value));
            },
            None => {
                proof {
                    lemma_push(entries@, key, value);
                }
                entries.push((key, value));
            },
        }
        *self = StringMap { entries };
    }

    /// Takes a key and its value out.
    pub fn remove(&mut self, key: &str) -> (r: Option<V>)
        ensures
            final(self)@ == old(self)@.remove(key@),
            match r {
                Some(v) => old(self)@.contains_key(key@) && old(self)@[key@] == v,
                None => !old(self)@.contains_key(key@),
            },
    {
        proof {
            use_type_invariant(&*self);
        }
        match self.find(key) {
            Some(i) => {
                let mut whole = StringMap::new();
                core::mem::swap(self, &mut whole);
                let mut entries = whole.into_entries();
                proof {
                    lemma_remove(entries@, i as int);
                }
                let taken = entries.remove(i);
                *self = StringMap { entries };
                Some(taken.1)
            },
            None => {
                assert(self@.remove(key@) =~= self@);
                None
            },
        }
    }

    /// Adds the entries of another map. Where both have a key, the other map's value stays.
    pub fn extend(&mut self, other: StringMap<V>)
        ensures
            final(self)@ == old(self)@.union_prefer_right(other@),
    {
        let mut rest = other.into_entries();
        let ghost target = self@.union_prefer_right(other@);
        while rest.len() > 0
            invariant
                unique_keys(rest@),
                self@.union_prefer_right(entries_map(rest@)) == target,
            decreases rest.len(),
        {
            let ghost whole = rest@;
            let ghost before = self@;
            if let Some((key, value)) = rest.pop() {
                proof {
                    assert(whole == rest@.push((key, value)));
                    lemma_last(rest@, key, value);
                }
                self.insert(key, value);
                assert(self@.union_prefer_right(entries_map(rest@)) =~= before.union_prefer_right(
                    entries_map(whole),
                ));
            }
        }
        assert(self@.union_prefer_right(entries_map(rest@)) =~= self@);
    }

    /// Entries whose keys stand in a list.
    pub fn restricted_to(self, names: &Vec<String>) -> (r: StringMap<V>)
        ensures
            r@ == restricted(self@, names@),
    {
        let mut rest = self.into_entries();
        let mut r = StringMap::new();
        let ghost target = restricted(self@, names@);
        assert(r@.union_prefer_right(restricted(self@, names@)) =~= target);
        while rest.len() > 0
            invariant
                unique_keys(rest@),
                r@.union_prefer_right(restricted(entries_map(rest@), names@)) == target,
            decreases rest.len(),
        {
            let ghost whole = rest@;
            let ghost before = r@;
            if let Some((key, value)) = rest.pop() {
                proof {
                    assert(whole == rest@.push((key, value)));
                    lemma_last(rest@, key, value);
                }
                if contains_string(names, &key) {
                    r.insert(key, value);
                }
                assert(r@.union_prefer_right(restricted(entries_map(rest@), names@))
                    =~= before.union_prefer_right(restricted(entries_map(whole), names@)));
            }
        }
        assert(r@.union_prefer_right(restricted(entries_map(rest@), names@)) =~= r@);
        r
    }

    fn into_entries(self) -> (r: Vec<(String, V)>)
        ensures
            r == self.entries,
            unique_keys(r@),
            self@ == entries_map(r@),
    {
        proof {
            use_type_invariant(&self);
        }
        self.entries
    }
}

impl<V: Clone> Clone for StringMap<V> {
    fn clone(&self) -> (r: Self)
        ensures
            r@.dom() == self@.dom(),
            forall|k: Seq<char>| #[trigger]
                self@.contains_key(k) ==> cloned::<V>(self@[k], r@[k]),
    {
        proof {
            use_type_invariant(self);
        }
        let mut entries: Vec<(String, V)> = Vec::new();
        for i in 0..self.entries.len()
            invariant
                entries@.len() == i,
                forall|j: int|
                    0 <= j < i ==> (#[trigger] entries@[j]).0 == self.entries@[j].0 && cloned::<V>(
                        self.entries@[j].1,
                        entries@[j].1,
                    ),
        {
            let e = &self.entries[i];
            entries.push((e.0.clone(), e.1.clone()));
        }
        assert(unique_keys(entries@)) by {
            assert forall|a: int, b: int| 0 <= a < b < entries@.len() implies (#[trigger] entries@[a]).0@ != (
            #[trigger] entries@[b]).0@ by {
                assert(self.entries@[a].0@ != self.entries@[b].0@);
            }
        }
        let r = StringMap { entries };
        proof {
            assert forall|k: Seq<char>| has_key(r.entries@, k) == has_key(self.entries@, k) by {
                if has_key(self.entries@, k) {
                    let p = position(self.entries@, k);
                    assert(r.entries@[p].0@ == k);
                }
                if has_key(r.entries@, k) {
                    let p = position(r.entries@, k);
                    assert(self.entries@[p].0@ == k);
                }
            }
            assert(r@.dom() =~= self@.dom());
            assert forall|k: Seq<char>| #[trigger] self@.contains_key(k) implies cloned::<V>(self@[k], r@[k]) by {
                let p = position(self.entries@, k);
                lemma_entry(self.entries@, p);
                lemma_entry(r.entries@, p);
            }
        }
        r
    }
}

/// Copy of a map of strings.
pub fn copy_text_map(map: &StringMap<String>) -> (r: StringMap<String>)
    ensures
        r@ == map@,
{
    let r = map.clone();
    assert(r@ =~= map@);
    r
}

/// What an optional map of strings holds.
pub open spec fn opt_map_view(map: Option<StringMap<String>>) -> Option<Map<Seq<char>, String>> {
    match map {
        Some(m) => Some(m@),
        None => None,
    }
}

/// Copy of an optional map of strings.
pub fn copy_opt_map(map: &Option<StringMap<String>>) -> (r: Option<StringMap<String>>)
    ensures
        opt_map_view(r) == opt_map_view(*map),
{
    match map {
        Some(m) => Some(copy_text_map(m)),
        None => None,
    }
}

} // verus!
