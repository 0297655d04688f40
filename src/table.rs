use vstd::prelude::*;

verus! {

/// What `s` maps `k` to: the value of the last entry named `k`.
pub open spec fn lookup<V>(s: Seq<(String, V)>, k: Seq<char>) -> Option<V>
    decreases s.len(),
{
    if s.len() == 0 {
        None
    } else if s.last().0@ == k {
        Some(s.last().1)
    } else {
        lookup(s.drop_last(), k)
    }
}

/// A table from names to values; a later entry for a name replaces an
/// earlier one.
pub struct NameTable<V> {
    entries: Vec<(String, V)>,
}

impl<V> View for NameTable<V> {
    type V = Map<Seq<char>, V>;

    closed spec fn view(&self) -> Map<Seq<char>, V> {
        Map::new(
            |k: Seq<char>| lookup(self.entries@, k) is Some,
            |k: Seq<char>| lookup(self.entries@, k)->Some_0,
        )
    }
}

/// Replacing the last entry named `e.0` by `e` maps that name to `e.1` and
/// leaves every other name as it was.
proof fn lemma_lookup_replace_last<V>(s: Seq<(String, V)>, j: int, e: (String, V), k: Seq<char>)
    requires
        0 <= j < s.len(),
        s[j].0@ == e.0@,
        forall|m: int| j < m < s.len() ==> (#[trigger] s[m]).0@ != e.0@,
    ensures
        lookup(s.update(j, e), k) == if k == e.0@ {
            Some(e.1)
        } else {
            lookup(s, k)
        },
    decreases s.len(),
{
    let t = s.update(j, e);
    if j == s.len() - 1 {
        assert(t.drop_last() =~= s.drop_last());
    } else {
        assert(t.drop_last() =~= s.drop_last().update(j, e));
        assert(t.last() == s.last());
        assert(s.last() == s[s.len() - 1]);
        lemma_lookup_replace_last(s.drop_last(), j, e, k);
    }
}

impl<V> NameTable<V> {
    pub fn new() -> (r: Self)
        ensures
            r@ == Map::<Seq<char>, V>::empty(),
    {
        let r = NameTable { entries: Vec::new() };
        assert(r@ =~= Map::<Seq<char>, V>::empty());
        r
    }

    /// The position of the last entry named `key`.
    fn position(&self, key: &String) -> (r: Option<usize>)
        ensures
            match r {
                Some(j) => j < self.entries@.len() && self.entries@[j as int].0@ == key@
                    && (forall|m: int|
                    j < m < self.entries@.len() ==> (#[trigger] self.entries@[m]).0@ != key@)
                    && lookup(self.entries@, key@) == Some(self.entries@[j as int].1),
                None => lookup(self.entries@, key@) is None,
            },
    {
        let mut i: usize = self.entries.len();
        assert(self.entries@.take(i as int) =~= self.entries@);
        while i > 0
            invariant
                i <= self.entries@.len(),
                forall|m: int| i <= m < self.entries@.len() ==> (#[trigger] self.entries@[m]).0@ != key@,
                lookup(self.entries@, key@) == lookup(self.entries@.take(i as int), key@),
            decreases i,
        {
            let ghost pre = self.entries@.take(i as int);
            assert(pre.drop_last() =~= self.entries@.take(i - 1));
            assert(pre.last() == self.entries@[i - 1]);
            assert(lookup(pre, key@) == if pre.last().0@ == key@ {
                Some(pre.last().1)
            } else {
                lookup(pre.drop_last(), key@)
            });
            if self.entries[i - 1].0 == *key {
                return Some(i - 1);
            }
            i = i - 1;
        }
        None
    }

    /// Maps `name` to `value`, replacing what it mapped to before.
    pub fn insert(&mut self, name: String, value: V)
        ensures
            final(self)@ == old(self)@.insert(name@, value),
    {
        let ghost k = name@;
        let ghost before = self.entries@;
        match self.position(&name) {
            Some(j) => {
                let ghost e = (name, value);
                proof {
                    assert forall|q: Seq<char>| #[trigger] lookup(before.update(j as int, e), q) == (
                    if q == k {
                        Some(value)
                    } else {
                        lookup(before, q)
                    }) by {
                        lemma_lookup_replace_last(before, j as int, e, q);
                    }
                }
                self.entries.set(j, (name, value));
                assert(self.entries@ == before.update(j as int, e));
            },
            None => {
                self.entries.push((name, value));
                assert(self.entries@.drop_last() =~= before);
            },
        }
        assert(self@ =~= old(self)@.insert(k, value));
    }

    pub fn get(&self, name: &str) -> (r: Option<&V>)
        ensures
            r matches Some(v) ==> self@.contains_key(name@) && *v == self@[name@],
            r is None ==> !self@.contains_key(name@),
    {
        let key = name.to_owned();
        match self.position(&key) {
            Some(j) => Some(&self.entries[j].1),
            None => None,
        }
    }
}

} // verus!
