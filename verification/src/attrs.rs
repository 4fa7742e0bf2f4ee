//! User-defined attributes of a record: a mapping from string to string
//! with unique keys and no significant order, stored as an association
//! list.  `spec_get` gives the exact lookup semantics every method is
//! specified against.

use vstd::prelude::*;

verus! {

/// First-match lookup in an association list.
pub open spec fn spec_lookup(s: Seq<(String, String)>, k: Seq<char>) -> Option<Seq<char>>
    decreases s.len(),
{
    if s.len() == 0 {
        None
    } else if s[0].0@ == k {
        Some(s[0].1@)
    } else {
        spec_lookup(s.drop_first(), k)
    }
}

/// Appending a pair changes only lookups that found nothing before.
pub proof fn lemma_lookup_push(s: Seq<(String, String)>, p: (String, String), k: Seq<char>)
    ensures
        spec_lookup(s.push(p), k) == (if spec_lookup(s, k) is Some {
            spec_lookup(s, k)
        } else if p.0@ == k {
            Some(p.1@)
        } else {
            None::<Seq<char>>
        }),
    decreases s.len(),
{
    if s.len() == 0 {
        reveal_with_fuel(spec_lookup, 3);
        assert(s.push(p)[0] == p);
        assert(s.push(p).len() == 1);
        assert(s.push(p).drop_first().len() == 0);
    } else {
        assert(s.push(p)[0] == s[0]);
        assert(s.push(p).drop_first() =~= s.drop_first().push(p));
        lemma_lookup_push(s.drop_first(), p, k);
    }
}

/// Replacing the first entry holding a key rebinds that key and nothing
/// else.
pub proof fn lemma_lookup_update(
    s: Seq<(String, String)>,
    i: int,
    p: (String, String),
    k: Seq<char>,
)
    requires
        0 <= i < s.len(),
        s[i].0@ == p.0@,
        forall|j: int| 0 <= j < i ==> s[j].0@ != p.0@,
    ensures
        spec_lookup(s.update(i, p), k) == (if p.0@ == k {
            Some(p.1@)
        } else {
            spec_lookup(s, k)
        }),
    decreases i,
{
    if i == 0 {
        assert(s.update(0, p)[0] == p);
        if p.0@ != k {
            assert(s.update(0, p).drop_first() =~= s.drop_first());
            assert(s[0].0@ == p.0@);
        }
    } else {
        assert(s.update(i, p)[0] == s[0]);
        assert(s.update(i, p).drop_first() =~= s.drop_first().update(i - 1, p));
        lemma_lookup_update(s.drop_first(), i - 1, p, k);
    }
}

/// A mapping from string keys to string values; keys are unique and the
/// order of entries carries no meaning.
#[derive(Debug)]
pub struct AttrMap {
    entries: Vec<(String, String)>,
}

impl AttrMap {
    /// The underlying entries, for specification purposes.
    pub closed spec fn spec_entries(&self) -> Seq<(String, String)> {
        self.entries@
    }

    /// The value bound to `k`, if any.
    pub open spec fn spec_get(&self, k: Seq<char>) -> Option<Seq<char>> {
        spec_lookup(self.spec_entries(), k)
    }

    /// Whether `k` is bound.
    pub open spec fn spec_contains(&self, k: Seq<char>) -> bool {
        self.spec_get(k) is Some
    }

    /// Keys are pairwise distinct.
    pub open spec fn wf(&self) -> bool {
        forall|i: int, j: int|
            0 <= i < j < self.spec_entries().len() ==> self.spec_entries()[i].0@
                != self.spec_entries()[j].0@
    }

    /// The empty mapping.
    pub fn new() -> (m: AttrMap)
        ensures
            m.spec_entries().len() == 0,
            m.wf(),
            forall|k: Seq<char>| m.spec_get(k) is None,
    {
        AttrMap { entries: Vec::new() }
    }

    /// Number of entries.
    pub fn len(&self) -> (n: usize)
        ensures
            n == self.spec_entries().len(),
    {
        self.entries.len()
    }

    /// Whether no key is bound.
    pub fn is_empty(&self) -> (r: bool)
        ensures
            r == (self.spec_entries().len() == 0),
            r ==> forall|k: Seq<char>| self.spec_get(k) is None,
    {
        self.entries.len() == 0
    }

    /// The entries as a vector of pairs, in storage order.
    pub fn entries(&self) -> (r: &Vec<(String, String)>)
        ensures
            r@ == self.spec_entries(),
    {
        &self.entries
    }

    /// Index of the first entry holding `k`, if any.
    fn position_of(&self, k: &str) -> (r: Option<usize>)
        ensures
            (r matches Some(i) ==> i < self.spec_entries().len()
                && self.spec_entries()[i as int].0@ == k@ && (forall|j: int|
                0 <= j < i ==> self.spec_entries()[j].0@ != k@)),
            r is None ==> (forall|j: int|
                0 <= j < self.spec_entries().len() ==> self.spec_entries()[j].0@ != k@),
            r is None ==> self.spec_get(k@) is None,
            r matches Some(i) ==> self.spec_get(k@) == Some(self.spec_entries()[i as int].1@),
    {
        let ghost s = self.entries@;
        proof {
            assert(s.skip(0) =~= s);
        }
        let mut i: usize = 0;
        while i < self.entries.len()
            invariant
                0 <= i <= s.len(),
                s == self.entries@,
                forall|j: int| 0 <= j < i ==> s[j].0@ != k@,
                spec_lookup(s, k@) == spec_lookup(s.skip(i as int), k@),
            decreases s.len() - i,
        {
            if self.entries[i].0 == k.to_owned() {
                proof {
                    assert(s.skip(i as int)[0] == s[i as int]);
                }
                return Some(i);
            }
            proof {
                assert(s.skip(i as int)[0] == s[i as int]);
                assert(s.skip(i as int).drop_first() =~= s.skip(i + 1));
            }
            i = i + 1;
        }
        proof {
            assert(s.skip(i as int).len() == 0);
        }
        None
    }

    /// The value bound to `k`, if any.
    pub fn get(&self, k: &str) -> (r: Option<&String>)
        ensures
            (r matches Some(v) ==> self.spec_get(k@) == Some(v@)),
            r is None ==> self.spec_get(k@) is None,
    {
        match self.position_of(k) {
            Some(i) => Some(&self.entries[i].1),
            None => None,
        }
    }

    /// Whether `k` is bound.
    pub fn contains_key(&self, k: &str) -> (r: bool)
        ensures
            r == self.spec_contains(k@),
    {
        self.position_of(k).is_some()
    }

    /// Bind `k` to `v`, replacing any previous binding; every other key
    /// keeps its value.
    pub fn insert(&mut self, k: String, v: String)
        requires
            old(self).wf(),
        ensures
            final(self).wf(),
            final(self).spec_get(k@) == Some(v@),
            forall|k2: Seq<char>|
                k2 != k@ ==> final(self).spec_get(k2) == old(self).spec_get(k2),
    {
        let ghost s = self.entries@;
        match self.position_of(k.as_str()) {
            Some(i) => {
                let ghost p = (k, v);
                self.entries[i] = (k, v);
                proof {
                    assert(self.entries@ =~= s.update(i as int, p));
                    assert forall|k2: Seq<char>| true implies spec_lookup(
                        self.entries@,
                        k2,
                    ) == (if p.0@ == k2 {
                        Some(p.1@)
                    } else {
                        spec_lookup(s, k2)
                    }) by {
                        lemma_lookup_update(s, i as int, p, k2);
                    }
                }
            },
            None => {
                let ghost p = (k, v);
                self.entries.push((k, v));
                proof {
                    assert(self.entries@ =~= s.push(p));
                    assert forall|k2: Seq<char>| true implies spec_lookup(
                        self.entries@,
                        k2,
                    ) == (if spec_lookup(s, k2) is Some {
                        spec_lookup(s, k2)
                    } else if p.0@ == k2 {
                        Some(p.1@)
                    } else {
                        None::<Seq<char>>
                    }) by {
                        lemma_lookup_push(s, p, k2);
                    }
                    assert(spec_lookup(s, p.0@) is None);
                }
            },
        }
    }
}

} // verus!
