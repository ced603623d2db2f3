//! A map from texts to values.
use crate::text;
use vstd::prelude::*;

verus! {

/// A map from texts to values, which keeps its keys in the order of their first insertion.
#[derive(Debug)]
pub struct StrMap<V> {
    entries: Vec<(String, V)>,
}

/// The map that a row of pairs with distinct keys describes.
pub open spec fn map_of<V>(s: Seq<(String, V)>) -> Map<Seq<char>, V>
    decreases s.len(),
{
    if s.len() == 0 {
        Map::empty()
    } else {
        map_of(s.drop_last()).insert(s.last().0@, s.last().1)
    }
}

pub open spec fn distinct_keys<V>(s: Seq<(String, V)>) -> bool {
    forall|i: int, j: int|
        0 <= i < j < s.len() ==> (#[trigger] s[i]).0@ != (#[trigger] s[j]).0@
}

proof fn lemma_map_of<V>(s: Seq<(String, V)>, k: Seq<char>)
    requires
        distinct_keys(s),
    ensures
        map_of(s).dom().finite(),
        map_of(s).dom().contains(k) <==> (exists|i: int| 0 <= i < s.len() && (#[trigger] s[i]).0@
            == k),
        forall|i: int|
            0 <= i < s.len() && (#[trigger] s[i]).0@ == k ==> map_of(s)[k] == s[i].1,
        map_of(s).dom().len() == s.len(),
    decreases s.len(),
{
    if s.len() > 0 {
        let t = s.drop_last();
        let last = s.last();
        lemma_map_of(t, k);
        lemma_map_of(t, last.0@);
        assert forall|i: int| 0 <= i < t.len() implies (#[trigger] t[i]).0@ != last.0@ by {
            assert(t[i] == s[i]);
            assert(s[s.len() - 1] == last);
        }
        assert(map_of(s).dom() =~= map_of(t).dom().insert(last.0@));
        if exists|i: int| 0 <= i < s.len() && (#[trigger] s[i]).0@ == k {
            let i = choose|i: int| 0 <= i < s.len() && (#[trigger] s[i]).0@ == k;
            if i < t.len() {
                assert(t[i].0@ == k);
            }
        }
        if map_of(t).dom().contains(k) {
            let i = choose|i: int| 0 <= i < t.len() && (#[trigger] t[i]).0@ == k;
            assert(s[i].0@ == k);
        }
        if k == last.0@ {
            assert(s[s.len() - 1].0@ == k);
        }
        assert forall|i: int|
            0 <= i < s.len() && (#[trigger] s[i]).0@ == k implies map_of(s)[k] == s[i].1 by {
            if i < t.len() {
                assert(t[i] == s[i]);
            }
        }
    }
}

impl<V> StrMap<V> {
    pub closed spec fn pairs(self) -> Seq<(String, V)> {
        self.entries@
    }

    /// The keys in their order.
    pub open spec fn key_seq(self) -> Seq<Seq<char>> {
        Seq::new(self.pairs().len(), |i: int| self.pairs()[i].0@)
    }

    #[verifier::type_invariant]
    spec fn inv(self) -> bool {
        distinct_keys(self.entries@)
    }

    pub fn new() -> (r: StrMap<V>)
        ensures
            r@ == Map::<Seq<char>, V>::empty(),
            r.pairs().len() == 0,
    {
        StrMap { entries: Vec::new() }
    }

    fn position(&self, key: &str) -> (r: Option<usize>)
        ensures
            match r {
                Some(i) => i < self.entries@.len() && self.entries@[i as int].0@ == key@,
                None => forall|i: int| 0 <= i < self.entries@.len() ==> (#[trigger] self.entries@[i]).0@
                    != key@,
            },
    {
        let mut i: usize = 0;
        while i < self.entries.len()
            invariant
                i <= self.entries@.len(),
                forall|k: int| 0 <= k < i ==> (#[trigger] self.entries@[k]).0@ != key@,
            decreases self.entries@.len() - i,
        {
            if text::same(self.entries[i].0.as_str(), key) {
                return Some(i);
            }
            i = i + 1;
        }
        None
    }

    /// The number of keys, each of which stands in the row of keys exactly once.
    pub fn len(&self) -> (r: usize)
        ensures
            r == self@.dom().len(),
            r == self.pairs().len(),
            self@.dom().finite(),
            self.key_seq().no_duplicates(),
            self.key_seq().to_set() == self@.dom(),
            forall|i: int|
                0 <= i < self.pairs().len() ==> self@.dom().contains(
                    (#[trigger] self.pairs()[i]).0@,
                ) && self@[self.pairs()[i].0@] == self.pairs()[i].1,
    {
        proof {
            use_type_invariant(self);
            lemma_keys(*self);
        }
        self.entries.len()
    }

    pub fn get(&self, key: &str) -> (r: Option<&V>)
        ensures
            match r {
                Some(v) => self@.dom().contains(key@) && self@[key@] == *v,
                None => !self@.dom().contains(key@),
            },
    {
        proof {
            use_type_invariant(self);
            lemma_map_of(self.entries@, key@);
        }
        match self.position(key) {
            Some(i) => Some(&self.entries[i].1),
            None => None,
        }
    }

    pub fn contains_key(&self, key: &str) -> (r: bool)
        ensures
            r == self@.dom().contains(key@),
    {
        self.get(key).is_some()
    }

    /// The key and the value at a position of the row.
    pub fn at(&self, i: usize) -> (r: &(String, V))
        requires
            i < self.pairs().len(),
        ensures
            *r == self.pairs()[i as int],
    {
        &self.entries[i]
    }

    /// All keys, each once.
    pub fn keys(&self) -> (r: Vec<String>)
        ensures
            r.deep_view() == self.key_seq(),
            r.deep_view().no_duplicates(),
            r.deep_view().to_set() == self@.dom(),
    {
        let n: usize = self.len();
        let mut out: Vec<String> = Vec::new();
        let mut i: usize = 0;
        while i < n
            invariant
                n == self.pairs().len(),
                i <= n,
                out.deep_view() == self.key_seq().take(i as int),
            decreases n - i,
        {
            let ghost before = out.deep_view();
            out.push(self.at(i).0.clone());
            assert(out.deep_view() =~= before.push(self.key_seq()[i as int]));
            i = i + 1;
        }
        assert(self.key_seq().take(n as int) =~= self.key_seq());
        out
    }

    /// Sets the value for a key, in place of an earlier one.
    pub fn insert(&mut self, key: String, value: V)
        ensures
            final(self)@ == old(self)@.insert(key@, value),
    {
        proof {
            use_type_invariant(&*self);
            lemma_map_of(self.entries@, key@);
        }
        let at = self.position(key.as_str());
        let ghost s = self.entries@;
        let mut entries: Vec<(String, V)> = Vec::new();
        std::mem::swap(&mut entries, &mut self.entries);
        match at {
            Some(i) => {
                entries.set(i, (key, value));
                proof {
                    let t = s.update(i as int, (key, value));
                    assert(distinct_keys(t)) by {
                        assert forall|a: int, b: int| 0 <= a < b < t.len() implies (#[trigger] t[a]).0@
                            != (#[trigger] t[b]).0@ by {
                            assert(s[a].0@ != s[b].0@);
                        }
                    }
                    lemma_map_update(s, i as int, (key, value));
                }
            },
            None => {
                entries.push((key, value));
                proof {
                    let t = s.push((key, value));
                    assert(t.drop_last() =~= s);
                    assert(distinct_keys(t)) by {
                        assert forall|a: int, b: int| 0 <= a < b < t.len() implies (#[trigger] t[a]).0@
                            != (#[trigger] t[b]).0@ by {
                            if b < s.len() {
                                assert(s[a].0@ != s[b].0@);
                            } else {
                                assert(s[a].0@ != key@);
                            }
                        }
                    }
                }
            },
        }
        self.entries = entries;
    }

    /// Takes a key and its value out.
    pub fn remove(&mut self, key: &str)
        ensures
            final(self)@ == old(self)@.remove(key@),
    {
        proof {
            use_type_invariant(&*self);
            lemma_map_of(self.entries@, key@);
        }
        let ghost s = self.entries@;
        match self.position(key) {
            Some(i) => {
                let mut entries: Vec<(String, V)> = Vec::new();
                std::mem::swap(&mut entries, &mut self.entries);
                let _gone = entries.remove(i);
                proof {
                    let t = s.remove(i as int);
                    assert(distinct_keys(t)) by {
                        assert forall|a: int, b: int| 0 <= a < b < t.len() implies (#[trigger] t[a]).0@
                            != (#[trigger] t[b]).0@ by {
                            let a0 = if a < i { a } else { a + 1 };
                            let b0 = if b < i { b } else { b + 1 };
                            assert(s[a0].0@ != s[b0].0@);
                        }
                    }
                    assert forall|k: Seq<char>|
                        map_of(t).dom().contains(k) <==> map_of(s).remove(key@).dom().contains(
                            k,
                        ) by {
                        lemma_map_of(s, k);
                        lemma_map_of(t, k);
                        if map_of(t).dom().contains(k) {
                            let j = choose|j: int| 0 <= j < t.len() && (#[trigger] t[j]).0@ == k;
                            let j0 = if j < i { j } else { j + 1 };
                            assert(s[j0].0@ == k);
                            if j < i {
                                assert(s[j0].0@ != s[i as int].0@);
                            } else {
                                assert(s[i as int].0@ != s[j0].0@);
                            }
                        }
                        if map_of(s).dom().contains(k) && k != key@ {
                            let j = choose|j: int| 0 <= j < s.len() && (#[trigger] s[j]).0@ == k;
                            let j0 = if j < i { j } else { j - 1 };
                            assert(t[j0].0@ == k);
                        }
                    }
                    assert forall|k: Seq<char>| map_of(t).dom().contains(k) implies map_of(t)[k]
                        == map_of(s)[k] by {
                        lemma_map_of(s, k);
                        lemma_map_of(t, k);
                        let j = choose|j: int| 0 <= j < t.len() && (#[trigger] t[j]).0@ == k;
                        let j0 = if j < i { j } else { j + 1 };
                        assert(s[j0] == t[j]);
                    }
                    assert(map_of(t) =~= map_of(s).remove(key@));
                }
                self.entries = entries;
            },
            None => {
                assert(self@ =~= old(self)@.remove(key@));
            },
        }
    }
}

proof fn lemma_map_update<V>(s: Seq<(String, V)>, i: int, e: (String, V))
    requires
        distinct_keys(s),
        0 <= i < s.len(),
        e.0@ == s[i].0@,
    ensures
        map_of(s.update(i, e)) == map_of(s).insert(e.0@, e.1),
    decreases s.len(),
{
    let t = s.update(i, e);
    if i == s.len() - 1 {
        assert(t.drop_last() =~= s.drop_last());
        assert(map_of(t) =~= map_of(s).insert(e.0@, e.1));
    } else {
        assert(t.drop_last() =~= s.drop_last().update(i, e));
        lemma_map_update(s.drop_last(), i, e);
        assert(s[i].0@ != s[s.len() - 1].0@);
        assert(map_of(t) =~= map_of(s).insert(e.0@, e.1));
    }
}

proof fn lemma_keys<V>(m: StrMap<V>)
    requires
        distinct_keys(m.entries@),
    ensures
        m@.dom().finite(),
        m@.dom().len() == m.pairs().len(),
        m.key_seq().no_duplicates(),
        m.key_seq().to_set() == m@.dom(),
        forall|i: int|
            0 <= i < m.pairs().len() ==> m@.dom().contains((#[trigger] m.pairs()[i]).0@)
                && m@[m.pairs()[i].0@] == m.pairs()[i].1,
{
    let s = m.entries@;
    lemma_map_of(s, Seq::empty());
    assert forall|k: Seq<char>| m.key_seq().to_set().contains(k) <==> m@.dom().contains(k) by {
        lemma_map_of(s, k);
        if m@.dom().contains(k) {
            let i = choose|i: int| 0 <= i < s.len() && (#[trigger] s[i]).0@ == k;
            assert(m.key_seq()[i] == k);
        }
        if m.key_seq().contains(k) {
            let i = choose|i: int| 0 <= i < m.key_seq().len() && m.key_seq()[i] == k;
            assert(s[i].0@ == k);
        }
    }
    assert(m.key_seq().to_set() =~= m@.dom());
    assert forall|i: int| 0 <= i < s.len() implies m@.dom().contains((#[trigger] s[i]).0@)
        && m@[s[i].0@] == s[i].1 by {
        lemma_map_of(s, s[i].0@);
    }
}

impl<V> View for StrMap<V> {
    type V = Map<Seq<char>, V>;

    closed spec fn view(&self) -> Map<Seq<char>, V> {
        map_of(self.entries@)
    }
}

} // verus!
