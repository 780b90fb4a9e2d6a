//! A string-keyed map, viewed as `Map<Seq<char>, _>`.
//!
//! Entries are kept as an association list: `insert` appends, so a later
//! binding of a key shadows an earlier one, and `get` scans from the end.

use vstd::prelude::*;

verus! {

/// The map denoted by an association list, later entries winning.
pub open spec fn entries_map<T>(s: Seq<(Seq<char>, T)>) -> Map<Seq<char>, T>
    decreases s.len(),
{
    if s.len() == 0 {
        Map::empty()
    } else {
        entries_map(s.drop_last()).insert(s.last().0, s.last().1)
    }
}

/// Entries at indices `i..` never bind `k`, so the whole list agrees with
/// its prefix of length `i` on `k`.
proof fn lemma_entries_map_prefix_agree<T>(s: Seq<(Seq<char>, T)>, i: int, k: Seq<char>)
    requires
        0 <= i <= s.len(),
        forall|j: int| i <= j < s.len() ==> (#[trigger] s[j]).0 != k,
    ensures
        entries_map(s).contains_key(k) == entries_map(s.take(i)).contains_key(k),
        entries_map(s).contains_key(k) ==> entries_map(s)[k] == entries_map(s.take(i))[k],
    decreases s.len() - i,
{
    if i == s.len() {
        assert(s.take(i) =~= s);
    } else {
        let shorter = s.drop_last();
        assert(s.last().0 != k);
        assert(forall|j: int| i <= j < shorter.len() ==> (#[trigger] shorter[j]).0 != k);
        lemma_entries_map_prefix_agree(shorter, i, k);
        assert(shorter.take(i) =~= s.take(i));
    }
}

/// A map from names to values of `V`, with insert-shadows semantics.
pub struct StrMap<V> {
    entries: Vec<(String, V)>,
}

impl<V: DeepView> View for StrMap<V> {
    type V = Map<Seq<char>, V::V>;

    closed spec fn view(&self) -> Map<Seq<char>, V::V> {
        entries_map(self.entries.deep_view())
    }
}

impl<V: DeepView> DeepView for StrMap<V> {
    type V = Map<Seq<char>, V::V>;

    open spec fn deep_view(&self) -> Map<Seq<char>, V::V> {
        self.view()
    }
}

impl<V: DeepView> StrMap<V> {
    /// The empty map.
    pub fn new() -> (m: Self)
        ensures
            m@ == Map::<Seq<char>, V::V>::empty(),
    {
        let m = StrMap { entries: Vec::new() };
        proof {
            assert(m.entries.deep_view() =~= Seq::<(Seq<char>, V::V)>::empty());
        }
        m
    }

    /// Binds `key` to `value`, shadowing any earlier binding.
    pub fn insert(&mut self, key: String, value: V)
        ensures
            final(self)@ == old(self)@.insert(key@, value.deep_view()),
    {
        let ghost before = self.entries.deep_view();
        self.entries.push((key, value));
        proof {
            let after = self.entries.deep_view();
            assert(after =~= before.push((key@, value.deep_view())));
            assert(after.drop_last() =~= before);
        }
    }

    /// Looks `key` up, returning the most recent binding if there is one.
    pub fn get<'a>(&'a self, key: &str) -> (r: Option<&'a V>)
        ensures
            match r {
                Some(v) => self@.contains_key(key@) && v.deep_view() == self@[key@],
                None => !self@.contains_key(key@),
            },
    {
        let k: String = key.to_owned();
        let ghost s = self.entries.deep_view();
        let mut i: usize = self.entries.len();
        while i > 0
            invariant
                i <= self.entries.len(),
                k@ == key@,
                s == self.entries.deep_view(),
                forall|j: int| i <= j < s.len() ==> (#[trigger] s[j]).0 != key@,
            decreases i,
        {
            i = i - 1;
            if self.entries[i].0 == k {
                proof {
                    lemma_entries_map_prefix_agree(s, i + 1, key@);
                    assert(s.take(i + 1).drop_last() =~= s.take(i as int));
                    assert(s.take(i + 1).last() == s[i as int]);
                    assert(s[i as int].0 == key@);
                }
                return Some(&self.entries[i].1);
            }
        }
        proof {
            lemma_entries_map_prefix_agree(s, 0, key@);
            assert(s.take(0) =~= Seq::<(Seq<char>, V::V)>::empty());
        }
        None
    }
}

impl StrMap<String> {
    /// An independent copy denoting the same map.
    pub fn duplicate(&self) -> (r: Self)
        ensures
            r@ == self@,
    {
        let mut entries: Vec<(String, String)> = Vec::new();
        let n: usize = self.entries.len();
        let mut i: usize = 0;
        while i < n
            invariant
                i <= n,
                n == self.entries.len(),
                entries.deep_view() =~= self.entries.deep_view().take(i as int),
            decreases n - i,
        {
            let ghost before = entries.deep_view();
            entries.push((self.entries[i].0.clone(), self.entries[i].1.clone()));
            proof {
                assert(entries.deep_view() =~= before.push(
                    (self.entries[i as int].0@, self.entries[i as int].1@),
                ));
                assert(entries.deep_view() =~= self.entries.deep_view().take(i + 1));
            }
            i = i + 1;
        }
        let r = StrMap { entries };
        proof {
            assert(r.entries.deep_view() =~= self.entries.deep_view());
        }
        r
    }
}

} // verus!
