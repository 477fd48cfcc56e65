//! A finite map from strings to strings.

use vstd::prelude::*;

verus! {

/// The view of one entry: its key and its value as sequences of characters.
pub type EntryView = (Seq<char>, Seq<char>);

/// The map that a list of entries stands for. Where two entries share a key,
/// the later one counts.
pub open spec fn entries_map(s: Seq<EntryView>) -> Map<Seq<char>, Seq<char>>
    decreases s.len(),
{
    if s.len() == 0 {
        Map::empty()
    } else {
        entries_map(s.drop_last()).insert(s.last().0, s.last().1)
    }
}

/// No two entries of the list share a key.
pub open spec fn keys_distinct(s: Seq<EntryView>) -> bool {
    forall|i: int, j: int| 0 <= i < j < s.len() ==> (#[trigger] s[i]).0 != (#[trigger] s[j]).0
}

/// Some entry of the list has the key `k`.
pub open spec fn has_key(s: Seq<EntryView>, k: Seq<char>) -> bool {
    exists|i: int| 0 <= i < s.len() && (#[trigger] s[i]).0 == k
}

/// The keys of `entries_map(s)` are the keys of the entries of `s`, and there
/// are finitely many of them.
pub proof fn lemma_entries_map_dom(s: Seq<EntryView>)
    ensures
        entries_map(s).dom().finite(),
        forall|k: Seq<char>| #[trigger] entries_map(s).contains_key(k) <==> has_key(s, k),
    decreases s.len(),
{
    if s.len() > 0 {
        let t = s.drop_last();
        lemma_entries_map_dom(t);
        assert forall|k: Seq<char>| #[trigger] entries_map(s).contains_key(k) <==> has_key(s, k) by {
            if has_key(t, k) {
                let i = choose|i: int| 0 <= i < t.len() && (#[trigger] t[i]).0 == k;
                assert(s[i].0 == k);
            }
            if s.last().0 == k {
                assert(s[s.len() - 1].0 == k);
            }
            if has_key(s, k) {
                let i = choose|i: int| 0 <= i < s.len() && (#[trigger] s[i]).0 == k;
                if i < t.len() {
                    assert(t[i].0 == k);
                }
            }
        }
    }
}

/// With distinct keys, every entry of the list is an entry of the map, and
/// the map has as many entries as the list.
pub proof fn lemma_entries_map_values(s: Seq<EntryView>)
    requires
        keys_distinct(s),
    ensures
        forall|i: int| 0 <= i < s.len() ==> entries_map(s).contains_key((#[trigger] s[i]).0)
            && entries_map(s)[s[i].0] == s[i].1,
        entries_map(s).len() == s.len(),
    decreases s.len(),
{
    if s.len() > 0 {
        let t = s.drop_last();
        assert forall|i: int, j: int| 0 <= i < j < t.len() implies (#[trigger] t[i]).0 != (
        #[trigger] t[j]).0 by {
            assert(s[i].0 != s[j].0);
        }
        lemma_entries_map_values(t);
        lemma_entries_map_dom(t);
        assert forall|i: int| 0 <= i < s.len() implies entries_map(s).contains_key(
            (#[trigger] s[i]).0,
        ) && entries_map(s)[s[i].0] == s[i].1 by {
            if i < t.len() {
                assert(t[i] == s[i]);
                assert(s[i].0 != s[s.len() - 1].0);
            }
        }
        if has_key(t, s.last().0) {
            let i = choose|i: int| 0 <= i < t.len() && (#[trigger] t[i]).0 == s.last().0;
            assert(s[i].0 != s[s.len() - 1].0);
        }
        assert(!entries_map(t).contains_key(s.last().0));
    }
}

/// A finite map from strings to strings: labels, annotations, selectors and
/// resource quantities. No key occurs twice among its entries.
#[derive(Debug)]
pub struct StringMap {
    entries: Vec<(String, String)>,
}

impl View for StringMap {
    type V = Map<Seq<char>, Seq<char>>;

    closed spec fn view(&self) -> Map<Seq<char>, Seq<char>> {
        entries_map(self.entries.deep_view())
    }
}

impl DeepView for StringMap {
    type V = Map<Seq<char>, Seq<char>>;

    open spec fn deep_view(&self) -> Map<Seq<char>, Seq<char>> {
        self@
    }
}

impl StringMap {
    #[verifier::type_invariant]
    spec fn well_formed(self) -> bool {
        keys_distinct(self.entries.deep_view())
    }

    /// The empty map.
    pub fn new() -> (m: StringMap)
        ensures
            m@ == Map::<Seq<char>, Seq<char>>::empty(),
    {
        let entries: Vec<(String, String)> = Vec::new();
        assert(entries.deep_view() =~= Seq::empty());
        StringMap { entries }
    }

    /// The number of entries.
    pub fn len(&self) -> (n: usize)
        ensures
            n == self@.len(),
            self@.dom().finite(),
    {
        proof {
            use_type_invariant(self);
            lemma_entries_map_values(self.entries.deep_view());
            lemma_entries_map_dom(self.entries.deep_view());
        }
        self.entries.len()
    }

    /// Whether the map has no entry.
    pub fn is_empty(&self) -> (b: bool)
        ensures
            b == (self@.len() == 0),
            self@.dom().finite(),
    {
        self.len() == 0
    }

    /// The position of the entry with the given key, if there is one.
    fn position(&self, key: &String) -> (at: Option<usize>)
        ensures
            match at {
                Some(i) => i < self.entries.len() && self.entries[i as int].0@ == key@,
                None => !has_key(self.entries.deep_view(), key@),
            },
    {
        let mut i: usize = 0;
        while i < self.entries.len()
            invariant
                i <= self.entries.len(),
                forall|j: int| 0 <= j < i ==> self.entries[j].0@ != key@,
            decreases self.entries.len() - i,
        {
            if self.entries[i].0 == *key {
                return Some(i);
            }
            i += 1;
        }
        proof {
            let s = self.entries.deep_view();
            if has_key(s, key@) {
                let j = choose|j: int| 0 <= j < s.len() && (#[trigger] s[j]).0 == key@;
                assert(self.entries[j].0@ != key@);
            }
        }
        None
    }

    /// The value stored under `key`, if there is one.
    pub fn get(&self, key: &str) -> (value: Option<&String>)
        ensures
            match value {
                Some(v) => self@.contains_key(key@) && v@ == self@[key@],
                None => !self@.contains_key(key@),
            },
    {
        let owned = key.to_owned();
        proof {
            use_type_invariant(self);
            lemma_entries_map_dom(self.entries.deep_view());
            lemma_entries_map_values(self.entries.deep_view());
        }
        match self.position(&owned) {
            Some(i) => {
                assert(self.entries.deep_view()[i as int].0 == key@);
                Some(&self.entries[i].1)
            },
            None => None,
        }
    }

    /// Whether some value is stored under `key`.
    pub fn contains_key(&self, key: &str) -> (b: bool)
        ensures
            b == self@.contains_key(key@),
    {
        self.get(key).is_some()
    }

    /// Stores `value` under `key` and returns the value that was stored
    /// there before, if there was one.
    pub fn insert(&mut self, key: String, value: String) -> (previous: Option<String>)
        ensures
            final(self)@ == old(self)@.insert(key@, value@),
            match previous {
                Some(v) => old(self)@.contains_key(key@) && v@ == old(self)@[key@],
                None => !old(self)@.contains_key(key@),
            },
    {
        proof {
            use_type_invariant(&*self);
            lemma_entries_map_dom(self.entries.deep_view());
            lemma_entries_map_values(self.entries.deep_view());
        }
        let ghost before = self.entries.deep_view();
        let found = self.position(&key);
        let mut entries: Vec<(String, String)> = Vec::new();
        assert(entries.deep_view() =~= Seq::empty());
        std::mem::swap(&mut self.entries, &mut entries);
        assert(entries.deep_view() == before);
        match found {
            Some(i) => {
                let previous = entries[i].1.clone();
                entries.set(i, (key, value));
                proof {
                    let after = entries.deep_view();
                    assert(after =~= before.update(i as int, (key@, value@)));
                    assert(before[i as int].0 == key@);
                    assert forall|a: int, b: int| 0 <= a < b < after.len() implies (
                    #[trigger] after[a]).0 != (#[trigger] after[b]).0 by {
                        assert(before[a].0 != before[b].0);
                    }
                    lemma_entries_map_dom(after);
                    lemma_entries_map_values(after);
                    assert forall|k: Seq<char>| #[trigger]
                        entries_map(after).contains_key(k) <==> entries_map(before).insert(
                        key@,
                        value@,
                    ).contains_key(k) by {
                        if has_key(after, k) {
                            let j = choose|j: int| 0 <= j < after.len() && (#[trigger] after[j]).0
                                == k;
                            assert(before[j].0 == k);
                        }
                        if has_key(before, k) {
                            let j = choose|j: int| 0 <= j < before.len() && (
                            #[trigger] before[j]).0 == k;
                            assert(after[j].0 == k);
                        }
                    }
                    assert forall|k: Seq<char>| #[trigger]
                        entries_map(after).contains_key(k) implies entries_map(after)[k]
                        == entries_map(before).insert(key@, value@)[k] by {
                        let j = choose|j: int| 0 <= j < after.len() && (#[trigger] after[j]).0 == k;
                        if j != i {
                            assert(before[j] == after[j]);
                        }
                    }
                    assert(entries_map(after) =~= entries_map(before).insert(key@, value@));
                }
                self.entries = entries;
                Some(previous)
            },
            None => {
                entries.push((key, value));
                proof {
                    let after = entries.deep_view();
                    assert(after =~= before.push((key@, value@)));
                    assert(after.drop_last() =~= before);
                    assert forall|a: int, b: int| 0 <= a < b < after.len() implies (
                    #[trigger] after[a]).0 != (#[trigger] after[b]).0 by {
                        if b < before.len() {
                            assert(before[a].0 != before[b].0);
                        } else {
                            assert(before[a].0 != key@);
                        }
                    }
                }
                self.entries = entries;
                None
            },
        }
    }

    /// The entries of the map, each key once, in no particular order.
    pub fn entries(&self) -> (list: Vec<(String, String)>)
        ensures
            keys_distinct(list.deep_view()),
            entries_map(list.deep_view()) == self@,
    {
        proof {
            use_type_invariant(self);
        }
        let mut list: Vec<(String, String)> = Vec::new();
        let mut i: usize = 0;
        while i < self.entries.len()
            invariant
                i <= self.entries.len(),
                list.deep_view() =~= self.entries.deep_view().take(i as int),
            decreases self.entries.len() - i,
        {
            let key = self.entries[i].0.clone();
            let value = self.entries[i].1.clone();
            let ghost earlier = list.deep_view();
            list.push((key, value));
            proof {
                let all = self.entries.deep_view();
                assert(list.deep_view() =~= earlier.push(all[i as int]));
                assert(all.take(i + 1) =~= all.take(i as int).push(all[i as int]));
            }
            i += 1;
        }
        assert(list.deep_view() =~= self.entries.deep_view());
        list
    }
}

impl Clone for StringMap {
    fn clone(&self) -> (copy: StringMap)
        ensures
            copy@ == self@,
    {
        let entries = self.entries();
        StringMap { entries }
    }
}

impl PartialEq for StringMap {
    fn eq(&self, other: &StringMap) -> (equal: bool) {
        proof {
            use_type_invariant(self);
            use_type_invariant(other);
            lemma_entries_map_dom(self.entries.deep_view());
            lemma_entries_map_values(self.entries.deep_view());
            lemma_entries_map_dom(other.entries.deep_view());
            lemma_entries_map_values(other.entries.deep_view());
        }
        if self.entries.len() != other.entries.len() {
            return false;
        }
        let ghost mine = self.entries.deep_view();
        let ghost theirs = other.entries.deep_view();
        let mut i: usize = 0;
        while i < self.entries.len()
            invariant
                i <= self.entries.len(),
                mine == self.entries.deep_view(),
                theirs == other.entries.deep_view(),
                forall|j: int|
                    0 <= j < i ==> entries_map(theirs).contains_key((#[trigger] mine[j]).0)
                        && entries_map(theirs)[mine[j].0] == mine[j].1,
                forall|k: Seq<char>| #[trigger]
                    entries_map(theirs).contains_key(k) <==> has_key(theirs, k),
                forall|j: int|
                    0 <= j < theirs.len() ==> entries_map(theirs).contains_key(
                        (#[trigger] theirs[j]).0,
                    ) && entries_map(theirs)[theirs[j].0] == theirs[j].1,
                forall|j: int|
                    0 <= j < mine.len() ==> entries_map(mine).contains_key((#[trigger] mine[j]).0)
                        && entries_map(mine)[mine[j].0] == mine[j].1,
            decreases self.entries.len() - i,
        {
            match other.position(&self.entries[i].0) {
                None => {
                    assert(mine[i as int].0 == self.entries[i as int].0@);
                    assert(!entries_map(theirs).contains_key(mine[i as int].0));
                    return false;
                },
                Some(at) => {
                    assert(mine[i as int].0 == theirs[at as int].0);
                    if other.entries[at].1 != self.entries[i].1 {
                        assert(entries_map(theirs)[mine[i as int].0] != mine[i as int].1);
                        return false;
                    }
                },
            }
            i += 1;
        }
        proof {
            assert forall|k: Seq<char>| entries_map(mine).contains_key(k) implies #[trigger]
                entries_map(theirs).contains_key(k) && entries_map(theirs)[k] == entries_map(
                mine,
            )[k] by {
                let j = choose|j: int| 0 <= j < mine.len() && (#[trigger] mine[j]).0 == k;
                assert(entries_map(theirs).contains_key(mine[j].0));
            }
            assert(entries_map(mine).dom().subset_of(entries_map(theirs).dom()));
            vstd::set_lib::lemma_subset_equality(
                entries_map(mine).dom(),
                entries_map(theirs).dom(),
            );
            assert(entries_map(mine) =~= entries_map(theirs));
        }
        true
    }
}

impl vstd::std_specs::cmp::PartialEqSpecImpl for StringMap {
    open spec fn obeys_eq_spec() -> bool {
        true
    }

    open spec fn eq_spec(&self, other: &StringMap) -> bool {
        self@ == other@
    }
}

} // verus!
