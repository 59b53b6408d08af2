//! String-keyed option maps (reader and writer options, table properties,
//! profile metadata): each key occurs once, a later insert replaces the value
//! of an existing key in place, and a new key is appended.

use vstd::prelude::*;
use vstd::map::*;
use crate::text::str_eq;

verus! {

/// A map from option names to option values.
#[derive(Debug)]
pub struct StringMap {
    entries: Vec<(String, String)>,
}

/// The entries of a map, in order, as character sequences.
pub open spec fn pairs_view(s: Seq<(String, String)>) -> Seq<(Seq<char>, Seq<char>)> {
    s.map_values(|p: (String, String)| (p.0@, p.1@))
}

/// No key occurs twice.
pub open spec fn keys_distinct(s: Seq<(Seq<char>, Seq<char>)>) -> bool {
    forall|i: int, j: int| 0 <= i < j < s.len() ==> #[trigger] s[i].0 != #[trigger] s[j].0
}

/// The map that a list of entries denotes: a later entry overrides an earlier one.
pub open spec fn pairs_map(s: Seq<(Seq<char>, Seq<char>)>) -> Map<Seq<char>, Seq<char>>
    decreases s.len(),
{
    if s.len() == 0 {
        Map::empty()
    } else {
        pairs_map(s.drop_last()).insert(s.last().0, s.last().1)
    }
}

/// With distinct keys, the map holds exactly the listed keys, each with its listed value.
pub proof fn lemma_pairs_map(s: Seq<(Seq<char>, Seq<char>)>)
    requires
        keys_distinct(s),
    ensures
        forall|k: Seq<char>| #[trigger] pairs_map(s).dom().contains(k) <==> exists|i: int| 0 <= i < s.len() && s[i].0 == k,
        forall|i: int| 0 <= i < s.len() ==> #[trigger] pairs_map(s)[s[i].0] == s[i].1,
        pairs_map(s).dom().finite(),
    decreases s.len(),
{
    if s.len() > 0 {
        let t = s.drop_last();
        assert(keys_distinct(t));
        lemma_pairs_map(t);
        assert forall|k: Seq<char>| #[trigger] pairs_map(s).dom().contains(k) <==> exists|i: int| 0 <= i < s.len() && s[i].0 == k by {
            if pairs_map(s).dom().contains(k) {
                if k == s.last().0 {
                    assert(s[s.len() - 1].0 == k);
                } else {
                    assert(pairs_map(t).dom().contains(k));
                    let i = choose|i: int| 0 <= i < t.len() && t[i].0 == k;
                    assert(s[i].0 == k);
                }
            }
            if exists|i: int| 0 <= i < s.len() && s[i].0 == k {
                let i = choose|i: int| 0 <= i < s.len() && s[i].0 == k;
                if i < s.len() - 1 {
                    assert(t[i].0 == k);
                }
            }
        }
        assert forall|i: int| 0 <= i < s.len() implies #[trigger] pairs_map(s)[s[i].0] == s[i].1 by {
            if i < s.len() - 1 {
                assert(t[i] == s[i]);
                assert(s[i].0 != s[s.len() - 1].0);
            }
        }
    }
}

impl View for StringMap {
    type V = Map<Seq<char>, Seq<char>>;

    closed spec fn view(&self) -> Map<Seq<char>, Seq<char>> {
        pairs_map(pairs_view(self.entries@))
    }
}

impl StringMap {
    /// The entries in order.
    pub closed spec fn entries_view(&self) -> Seq<(Seq<char>, Seq<char>)> {
        pairs_view(self.entries@)
    }

    /// Each key occurs once.
    #[verifier::type_invariant]
    pub closed spec fn wf(&self) -> bool {
        keys_distinct(pairs_view(self.entries@))
    }

    pub proof fn lemma_view(&self)
        requires
            self.wf(),
        ensures
            self@ == pairs_map(self.entries_view()),
            keys_distinct(self.entries_view()),
            forall|k: Seq<char>| #[trigger] self@.dom().contains(k) <==> exists|i: int| 0 <= i < self.entries_view().len() && self.entries_view()[i].0 == k,
            forall|i: int| 0 <= i < self.entries_view().len() ==> #[trigger] self@[self.entries_view()[i].0] == self.entries_view()[i].1,
            self@.dom().finite(),
    {
        lemma_pairs_map(pairs_view(self.entries@));
    }

    /// An empty map.
    pub fn new() -> (m: StringMap)
        ensures
            m@ == Map::<Seq<char>, Seq<char>>::empty(),
            m.entries_view() == Seq::<(Seq<char>, Seq<char>)>::empty(),
    {
        let entries: Vec<(String, String)> = Vec::new();
        assert(pairs_view(entries@) =~= Seq::<(Seq<char>, Seq<char>)>::empty());
        StringMap { entries }
    }

    /// The number of keys.
    pub fn len(&self) -> (n: usize)
        ensures
            n == self@.len(),
            n == self.entries_view().len(),
    {
        proof {
            use_type_invariant(self);
            self.lemma_view();
            lemma_distinct_len(self.entries_view());
        }
        self.entries.len()
    }

    /// The position of `key` among the entries, if present.
    fn find(&self, key: &str) -> (r: Option<usize>)
        ensures
            match r {
                Some(i) => i < self.entries_view().len() && self.entries_view()[i as int].0 == key@,
                None => forall|i: int| 0 <= i < self.entries_view().len() ==> self.entries_view()[i].0 != key@,
            },
    {
        let mut i: usize = 0;
        while i < self.entries.len()
            invariant
                i <= self.entries@.len(),
                forall|j: int| 0 <= j < i ==> pairs_view(self.entries@)[j].0 != key@,
            decreases self.entries@.len() - i,
        {
            if str_eq(self.entries[i].0.as_str(), key) {
                return Some(i);
            }
            i = i + 1;
        }
        None
    }

    /// The value of `key`, if present.
    pub fn get(&self, key: &str) -> (r: Option<&String>)
        ensures
            match r {
                Some(v) => self@.dom().contains(key@) && self@[key@] == v@,
                None => !self@.dom().contains(key@),
            },
    {
        proof {
            use_type_invariant(self);
            self.lemma_view();
        }
        match self.find(key) {
            Some(i) => Some(&self.entries[i].1),
            None => None,
        }
    }

    /// Sets `key` to `value`: an existing key keeps its position, a new key is
    /// appended.
    pub fn insert(&mut self, key: String, value: String)
        ensures
            final(self)@ == old(self)@.insert(key@, value@),
            old(self)@.dom().contains(key@) ==> exists|i: int| 0 <= i < old(self).entries_view().len()
                && old(self).entries_view()[i].0 == key@
                && final(self).entries_view() == old(self).entries_view().update(i, (key@, value@)),
            !old(self)@.dom().contains(key@) ==> final(self).entries_view() == old(self).entries_view().push((key@, value@)),
    {
        proof {
            use_type_invariant(&*self);
            self.lemma_view();
        }
        let ghost old_entries = pairs_view(self.entries@);
        let found = self.find(key.as_str());
        let ghost key_view = key@;
        let ghost value_view = value@;
        let ghost mut at: int = 0;
        let mut entries: Vec<(String, String)> = Vec::new();
        std::mem::swap(&mut entries, &mut self.entries);
        assert(pairs_view(entries@) == old_entries);
        match found {
            Some(i) => {
                let ghost k = key@;
                entries.set(i, (key, value));
                let ghost new_entries = pairs_view(entries@);
                assert(new_entries =~= old_entries.update(i as int, (k, value@)));
                proof {
                    at = i as int;
                }
                assert(keys_distinct(new_entries));
                proof {
                    lemma_pairs_map(new_entries);
                    lemma_pairs_map(old_entries);
                    assert forall|q: Seq<char>| #[trigger] pairs_map(new_entries).dom().contains(q) <==> pairs_map(old_entries).insert(k, value@).dom().contains(q) by {
                        if pairs_map(old_entries).dom().contains(q) {
                            let j = choose|j: int| 0 <= j < old_entries.len() && old_entries[j].0 == q;
                            assert(new_entries[j].0 == q);
                        }
                        if pairs_map(new_entries).dom().contains(q) {
                            let j = choose|j: int| 0 <= j < new_entries.len() && new_entries[j].0 == q;
                            if j != i {
                                assert(old_entries[j].0 == q);
                            }
                        }
                    }
                    assert forall|q: Seq<char>| #[trigger] pairs_map(new_entries).dom().contains(q) implies pairs_map(new_entries)[q] == pairs_map(old_entries).insert(k, value@)[q] by {
                        let j = choose|j: int| 0 <= j < new_entries.len() && new_entries[j].0 == q;
                        if j != i {
                            assert(old_entries[j] == new_entries[j]);
                        }
                    }
                    assert(pairs_map(new_entries) =~= pairs_map(old_entries).insert(k, value@));
                }
            },
            None => {
                let ghost k = key@;
                let ghost v = value@;
                entries.push((key, value));
                let ghost new_entries = pairs_view(entries@);
                assert(new_entries =~= old_entries.push((k, v)));
                assert(new_entries.drop_last() =~= old_entries);
                assert(keys_distinct(new_entries));
            },
        }
        self.entries = entries;
        proof {
            if old_entries.len() > 0 && found is Some {
                assert(old_entries[at].0 == key_view);
                assert(pairs_view(self.entries@) == old_entries.update(at, (key_view, value_view)));
            }
        }
    }

    /// Inserts every entry of `other`, in order: `other`'s values win.
    pub fn extend(&mut self, other: StringMap)
        ensures
            final(self)@ == old(self)@.union_prefer_right(other@),
    {
        let ghost start = self@;
        let ghost items = other.entries_view();
        proof {
            use_type_invariant(&other);
            other.lemma_view();
        }
        let mut rest = other.entries;
        let mut i: usize = 0;
        let n = rest.len();
        while i < n
            invariant
                n == rest@.len(),
                i <= n,
                pairs_view(rest@) == items,
                keys_distinct(items),
                self@ == start.union_prefer_right(pairs_map(items.take(i as int))),
            decreases n - i,
        {
            let k = rest[i].0.clone();
            let v = rest[i].1.clone();
            let ghost kv = (k@, v@);
            self.insert(k, v);
            proof {
                assert(items.take(i as int + 1).drop_last() =~= items.take(i as int));
                assert(items.take(i as int + 1).last() == kv);
                assert(self@ =~= start.union_prefer_right(pairs_map(items.take(i as int + 1))));
            }
            i = i + 1;
        }
        assert(items.take(n as int) =~= items);
    }

    /// Copies of the entries, in order.
    pub fn to_pairs(&self) -> (r: Vec<(String, String)>)
        ensures
            pairs_view(r@) == self.entries_view(),
    {
        let mut r: Vec<(String, String)> = Vec::new();
        let mut i: usize = 0;
        while i < self.entries.len()
            invariant
                i <= self.entries@.len(),
                r@ == self.entries@.take(i as int),
            decreases self.entries@.len() - i,
        {
            let k = self.entries[i].0.clone();
            let v = self.entries[i].1.clone();
            let ghost before = r@;
            r.push((k, v));
            assert(r@ =~= self.entries@.take(i as int + 1));
            i = i + 1;
        }
        assert(self.entries@.take(i as int) =~= self.entries@);
        r
    }

    /// A copy of this map.
    pub fn copy(&self) -> (r: StringMap)
        ensures
            r@ == self@,
            r.entries_view() == self.entries_view(),
    {
        proof {
            use_type_invariant(self);
        }
        StringMap { entries: self.to_pairs() }
    }
}

/// A list of distinct keys is as long as the map it denotes.
proof fn lemma_distinct_len(s: Seq<(Seq<char>, Seq<char>)>)
    requires
        keys_distinct(s),
    ensures
        pairs_map(s).len() == s.len(),
        pairs_map(s).dom().finite(),
    decreases s.len(),
{
    lemma_pairs_map(s);
    if s.len() > 0 {
        let t = s.drop_last();
        assert(keys_distinct(t));
        lemma_distinct_len(t);
        lemma_pairs_map(t);
        if pairs_map(t).dom().contains(s.last().0) {
            let i = choose|i: int| 0 <= i < t.len() && t[i].0 == s.last().0;
            assert(s[i].0 == s[s.len() - 1].0);
        }
    }
}

} // verus!
