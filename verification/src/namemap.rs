//! A registry mapping names to owned entities.
//!
//! Routes, sessions, templates, rule sets and fact collections are all held
//! in such registries: the owner has exclusive ownership of every contained
//! entity, registration replaces silently (last write wins), and lookups of
//! unknown names fail.

use vstd::prelude::*;

verus! {

/// The value bound to key `k` among the entries `s`, the latest binding
/// winning.
pub open spec fn seq_get<V>(s: Seq<(String, V)>, k: Seq<char>) -> Option<V>
    decreases s.len(),
{
    if s.len() == 0 {
        None
    } else if s.last().0@ == k {
        Some(s.last().1)
    } else {
        seq_get(s.drop_last(), k)
    }
}

/// A name-keyed registry of owned values.
pub struct NameMap<V> {
    entries: Vec<(String, V)>,
}

impl<V> NameMap<V> {
    /// The entries of the registry, oldest first.
    pub closed spec fn spec_entries(&self) -> Seq<(String, V)> {
        self.entries@
    }

    /// No two entries share a name.
    pub open spec fn wf(&self) -> bool {
        forall|i: int, j: int|
            0 <= i < j < self.spec_entries().len() ==> self.spec_entries()[i].0@
                != self.spec_entries()[j].0@
    }

    /// The value bound to `k`, if any.
    pub open spec fn spec_get(&self, k: Seq<char>) -> Option<V> {
        seq_get(self.spec_entries(), k)
    }

    /// Whether some value is bound to `k`.
    pub open spec fn contains_key(&self, k: Seq<char>) -> bool {
        self.spec_get(k) is Some
    }

    /// The number of entries.
    pub open spec fn spec_len(&self) -> nat {
        self.spec_entries().len()
    }

    /// An empty registry.
    pub fn new() -> (r: Self)
        ensures
            r.wf(),
            r.spec_len() == 0,
            forall|k: Seq<char>| r.spec_get(k) is None,
    {
        let r = NameMap { entries: Vec::new() };
        proof {
            assert(forall|k: Seq<char>| r.spec_get(k) is None);
        }
        r
    }

    /// Bind `name` to `v`, replacing any existing binding.
    pub fn insert(&mut self, name: &str, v: V)
        requires
            old(self).wf(),
        ensures
            final(self).wf(),
            final(self).spec_get(name@) == Some(v),
            forall|k: Seq<char>|
                k != name@ ==> final(self).spec_get(k) == old(self).spec_get(k),
            old(self).contains_key(name@) ==> final(self).spec_len() == old(self).spec_len(),
            !old(self).contains_key(name@) ==> final(self).spec_len() == old(self).spec_len()
                + 1,
    {
        let _ = self.take(name);
        let ghost mid = self.spec_entries();
        self.entries.push((name.to_owned(), v));
        proof {
            let e = self.spec_entries().last();
            assert(self.spec_entries() =~= mid.push(e));
            lemma_seq_get_push_fresh(mid, e);
            lemma_seq_get_none_absent(mid, e.0@);
            assert forall|a: int, b: int|
                0 <= a < b < self.spec_entries().len() implies self.spec_entries()[a].0@
                != self.spec_entries()[b].0@ by {
                if b < mid.len() {
                    assert(self.spec_entries()[a] == mid[a]);
                    assert(self.spec_entries()[b] == mid[b]);
                } else {
                    assert(self.spec_entries()[a] == mid[a]);
                }
            }
        }
    }

    /// Remove the binding of `name` and hand its value out, if one exists.
    pub fn take(&mut self, name: &str) -> (r: Option<V>)
        requires
            old(self).wf(),
        ensures
            final(self).wf(),
            r == old(self).spec_get(name@),
            final(self).spec_get(name@) is None,
            forall|k: Seq<char>|
                k != name@ ==> final(self).spec_get(k) == old(self).spec_get(k),
            r is Some ==> final(self).spec_len() == old(self).spec_len() - 1,
            r is None ==> *final(self) == *old(self),
    {
        let key = name.to_owned();
        let n = self.entries.len();
        let mut i: usize = 0;
        while i < n
            invariant
                n == self.spec_entries().len(),
                i <= n,
                key@ == name@,
                self.wf(),
                *self == *old(self),
                forall|j: int| 0 <= j < i ==> self.spec_entries()[j].0@ != name@,
            decreases n - i,
        {
            if self.entries[i].0 == key {
                let ghost pre = self.spec_entries();
                let (_, v) = self.entries.remove(i);
                proof {
                    lemma_seq_get_remove(pre, i as int, name@);
                    lemma_seq_get_found(pre, i as int, name@);
                }
                return Some(v);
            }
            i = i + 1;
        }
        proof {
            lemma_seq_get_absent(self.spec_entries(), name@);
        }
        None
    }

    /// The value bound to `name`, if any.
    pub fn get(&self, name: &str) -> (r: Option<&V>)
        requires
            self.wf(),
        ensures
            match r {
                Some(v) => self.spec_get(name@) == Some(*v),
                None => self.spec_get(name@) is None,
            },
    {
        let key = name.to_owned();
        let n = self.entries.len();
        let mut i: usize = 0;
        while i < n
            invariant
                n == self.spec_entries().len(),
                i <= n,
                key@ == name@,
                self.wf(),
                forall|j: int| 0 <= j < i ==> self.spec_entries()[j].0@ != name@,
            decreases n - i,
        {
            if self.entries[i].0 == key {
                proof {
                    lemma_seq_get_found(self.spec_entries(), i as int, name@);
                }
                return Some(&self.entries[i].1);
            }
            i = i + 1;
        }
        proof {
            lemma_seq_get_absent(self.spec_entries(), name@);
        }
        None
    }

    /// Whether `name` is bound.
    pub fn contains(&self, name: &str) -> (r: bool)
        requires
            self.wf(),
        ensures
            r == self.contains_key(name@),
    {
        match self.get(name) {
            Some(_) => true,
            None => false,
        }
    }

    /// The registered names, oldest first.
    pub fn keys(&self) -> (r: Vec<String>)
        requires
            self.wf(),
        ensures
            r@.len() == self.spec_len(),
            forall|i: int|
                0 <= i < r@.len() ==> r@[i]@ == self.spec_entries()[i].0@
                    && self.contains_key(r@[i]@),
            forall|i: int, j: int| 0 <= i < j < r@.len() ==> r@[i]@ != r@[j]@,
    {
        let n = self.entries.len();
        let mut r: Vec<String> = Vec::new();
        let mut i: usize = 0;
        while i < n
            invariant
                n == self.spec_entries().len(),
                i <= n,
                self.wf(),
                r@.len() == i,
                forall|j: int|
                    0 <= j < i ==> r@[j]@ == self.spec_entries()[j].0@ && self.contains_key(
                        r@[j]@,
                    ),
            decreases n - i,
        {
            proof {
                lemma_seq_get_found(self.spec_entries(), i as int, self.spec_entries()[i as int].0@);
            }
            r.push(self.entries[i].0.clone());
            i = i + 1;
        }
        r
    }

    /// The number of entries.
    pub fn len(&self) -> (r: usize)
        ensures
            r == self.spec_len(),
    {
        self.entries.len()
    }

    /// The entries of the registry, oldest first.
    pub fn items(&self) -> (r: &Vec<(String, V)>)
        ensures
            r@ == self.spec_entries(),
    {
        &self.entries
    }

    /// Each entry of a well-formed registry is the binding of its own name.
    pub proof fn lemma_entry_binding(&self, i: int)
        requires
            self.wf(),
            0 <= i < self.spec_entries().len(),
        ensures
            self.spec_get(self.spec_entries()[i].0@) == Some(self.spec_entries()[i].1),
    {
        lemma_seq_get_found(self.spec_entries(), i, self.spec_entries()[i].0@);
    }

    /// Every binding comes from some entry.
    pub proof fn lemma_binding_entry(&self, k: Seq<char>)
        requires
            self.spec_get(k) is Some,
        ensures
            exists|i: int|
                0 <= i < self.spec_entries().len() && self.spec_entries()[i].0@ == k
                    && self.spec_entries()[i].1 == self.spec_get(k)->Some_0,
    {
        lemma_seq_get_some_index(self.spec_entries(), k);
    }
}

/// A bound name has a witnessing entry.
proof fn lemma_seq_get_some_index<V>(s: Seq<(String, V)>, k: Seq<char>)
    requires
        seq_get(s, k) is Some,
    ensures
        exists|i: int| 0 <= i < s.len() && s[i].0@ == k && s[i].1 == seq_get(s, k)->Some_0,
    decreases s.len(),
{
    if s.last().0@ == k {
        assert(s[s.len() - 1].0@ == k && s[s.len() - 1].1 == seq_get(s, k)->Some_0);
    } else {
        lemma_seq_get_some_index(s.drop_last(), k);
        let i = choose|i: int|
            0 <= i < s.drop_last().len() && s.drop_last()[i].0@ == k && s.drop_last()[i].1
                == seq_get(s.drop_last(), k)->Some_0;
        assert(s[i].0@ == k && s[i].1 == seq_get(s, k)->Some_0);
    }
}

/// Look a key up in a plain pair list, the latest binding winning.
pub fn pairs_lookup<'a>(pairs: &'a Vec<(String, String)>, name: &str) -> (r: Option<&'a String>)
    ensures
        match r {
            Some(v) => seq_get(pairs@, name@) matches Some(w) && v@ == w@,
            None => seq_get(pairs@, name@) is None,
        },
{
    let key = name.to_owned();
    let n = pairs.len();
    let mut i: usize = 0;
    let mut found: Option<usize> = None;
    while i < n
        invariant
            n == pairs@.len(),
            i <= n,
            key@ == name@,
            match found {
                Some(j) => j < i && seq_get(pairs@.subrange(0, i as int), name@) == Some(
                    pairs@[j as int].1,
                ),
                None => seq_get(pairs@.subrange(0, i as int), name@) is None,
            },
        decreases n - i,
    {
        proof {
            assert(pairs@.subrange(0, i + 1 as int).drop_last() =~= pairs@.subrange(0, i as int));
        }
        if pairs[i].0 == key {
            found = Some(i);
        }
        i = i + 1;
    }
    proof {
        assert(pairs@.subrange(0, n as int) =~= pairs@);
    }
    match found {
        Some(j) => Some(&pairs[j].1),
        None => None,
    }
}

/// Appending an entry whose name is not yet bound binds exactly that name.
proof fn lemma_seq_get_push_fresh<V>(s: Seq<(String, V)>, e: (String, V))
    requires
        seq_get(s, e.0@) is None,
    ensures
        seq_get(s.push(e), e.0@) == Some(e.1),
        forall|k: Seq<char>| k != e.0@ ==> seq_get(s.push(e), k) == seq_get(s, k),
{
    assert(s.push(e).drop_last() =~= s);
}

/// A name that `seq_get` does not bind matches no entry.
proof fn lemma_seq_get_none_absent<V>(s: Seq<(String, V)>, k: Seq<char>)
    requires
        seq_get(s, k) is None,
    ensures
        forall|j: int| 0 <= j < s.len() ==> s[j].0@ != k,
    decreases s.len(),
{
    if s.len() > 0 {
        lemma_seq_get_none_absent(s.drop_last(), k);
        assert forall|j: int| 0 <= j < s.len() implies s[j].0@ != k by {
            if j < s.len() - 1 {
                assert(s.drop_last()[j] == s[j]);
            }
        }
    }
}

/// An entry found at index `i` under a well-formed entry list is the binding
/// that `seq_get` returns.
proof fn lemma_seq_get_found<V>(s: Seq<(String, V)>, i: int, k: Seq<char>)
    requires
        0 <= i < s.len(),
        s[i].0@ == k,
        forall|a: int, b: int| 0 <= a < b < s.len() ==> s[a].0@ != s[b].0@,
    ensures
        seq_get(s, k) == Some(s[i].1),
    decreases s.len(),
{
    if i == s.len() - 1 {
    } else {
        assert(s.last().0@ != k);
        assert(s.drop_last()[i] == s[i]);
        lemma_seq_get_found(s.drop_last(), i, k);
    }
}

/// A name matching no entry is unbound.
proof fn lemma_seq_get_absent<V>(s: Seq<(String, V)>, k: Seq<char>)
    requires
        forall|j: int| 0 <= j < s.len() ==> s[j].0@ != k,
    ensures
        seq_get(s, k) is None,
    decreases s.len(),
{
    if s.len() > 0 {
        lemma_seq_get_absent(s.drop_last(), k);
    }
}

/// Removing the only entry named `k` unbinds `k` and nothing else.
proof fn lemma_seq_get_remove<V>(s: Seq<(String, V)>, i: int, k: Seq<char>)
    requires
        0 <= i < s.len(),
        s[i].0@ == k,
        forall|a: int, b: int| 0 <= a < b < s.len() ==> s[a].0@ != s[b].0@,
    ensures
        seq_get(s.remove(i), k) is None,
        forall|q: Seq<char>| q != k ==> seq_get(s.remove(i), q) == seq_get(s, q),
        forall|a: int, b: int|
            0 <= a < b < s.remove(i).len() ==> s.remove(i)[a].0@ != s.remove(i)[b].0@,
    decreases s.len(),
{
    let t = s.remove(i);
    assert forall|j: int| 0 <= j < t.len() implies t[j].0@ != k by {
        if j < i {
            assert(t[j] == s[j]);
        } else {
            assert(t[j] == s[j + 1]);
        }
    }
    lemma_seq_get_absent(t, k);
    assert forall|q: Seq<char>| q != k implies seq_get(t, q) == seq_get(s, q) by {
        lemma_seq_get_remove_other(s, i, q);
    }
}

/// Removing entry `i` leaves the binding of any other name unchanged.
proof fn lemma_seq_get_remove_other<V>(s: Seq<(String, V)>, i: int, q: Seq<char>)
    requires
        0 <= i < s.len(),
        s[i].0@ != q,
    ensures
        seq_get(s.remove(i), q) == seq_get(s, q),
    decreases s.len(),
{
    let t = s.remove(i);
    if i == s.len() - 1 {
        assert(t =~= s.drop_last());
    } else {
        if s.last().0@ == q {
            assert(t.last() == s.last());
        } else {
            assert(t.drop_last() =~= s.drop_last().remove(i));
            assert(t.last() == s.last());
            lemma_seq_get_remove_other(s.drop_last(), i, q);
        }
    }
}

} // verus!
