//! A small name-keyed directory, the shape shared by every export table of
//! the layer.
//!
//! A directory keeps its entries in insertion order and resolves a name to
//! the first entry carrying it. Host modules may record colliding names (the
//! backing runtime leaves that case open); the registrar admits only
//! directories whose names are distinct, so a linked instance's lookup agrees
//! with a map from names to entities.

use vstd::prelude::*;

verus! {

/// Resolves `n` to the first entry named `n`, front to back.
pub open spec fn lookup_in<V>(s: Seq<(Seq<char>, V)>, n: Seq<char>) -> Option<V>
    decreases s.len(),
{
    if s.len() == 0 {
        None
    } else if s[0].0 == n {
        Some(s[0].1)
    } else {
        lookup_in(s.drop_first(), n)
    }
}

/// Holds when no two entries share a name.
pub open spec fn names_distinct<V>(s: Seq<(Seq<char>, V)>) -> bool {
    forall|i: int, j: int| 0 <= i < j < s.len() ==> s[i].0 != s[j].0
}

/// Holds when some entry carries the name `n`.
pub open spec fn name_in<V>(s: Seq<(Seq<char>, V)>, n: Seq<char>) -> bool {
    exists|i: int| 0 <= i < s.len() && s[i].0 == n
}

/// The names the entries carry, in order.
pub open spec fn names_of<V>(s: Seq<(Seq<char>, V)>) -> Seq<Seq<char>> {
    s.map_values(|p: (Seq<char>, V)| p.0)
}

/// A lookup resolves to the first entry carrying the name.
pub proof fn lemma_lookup_first_match<V>(s: Seq<(Seq<char>, V)>, n: Seq<char>, i: int)
    requires
        0 <= i < s.len(),
        s[i].0 == n,
        forall|j: int| 0 <= j < i ==> s[j].0 != n,
    ensures
        lookup_in(s, n) == Some(s[i].1),
    decreases s.len(),
{
    if i > 0 {
        lemma_lookup_first_match(s.drop_first(), n, i - 1);
    }
}

/// A lookup fails exactly on the names no entry carries.
pub proof fn lemma_lookup_none_iff_absent<V>(s: Seq<(Seq<char>, V)>, n: Seq<char>)
    ensures
        lookup_in(s, n) is None <==> !name_in(s, n),
    decreases s.len(),
{
    if s.len() > 0 && s[0].0 != n {
        lemma_lookup_none_iff_absent(s.drop_first(), n);
        assert(name_in(s.drop_first(), n) ==> name_in(s, n)) by {
            if name_in(s.drop_first(), n) {
                let i = choose|i: int| 0 <= i < s.drop_first().len() && s.drop_first()[i].0 == n;
                assert(s[i + 1].0 == n);
            }
        }
        assert(name_in(s, n) ==> name_in(s.drop_first(), n)) by {
            if name_in(s, n) {
                let i = choose|i: int| 0 <= i < s.len() && s[i].0 == n;
                assert(s.drop_first()[i - 1].0 == n);
            }
        }
    }
}

/// Every name an entry carries resolves to some entry.
pub proof fn lemma_lookup_present<V>(s: Seq<(Seq<char>, V)>, n: Seq<char>)
    requires
        name_in(s, n),
    ensures
        lookup_in(s, n) is Some,
{
    lemma_lookup_none_iff_absent(s, n);
}

/// Appending an entry under a fresh name makes that name resolve to exactly
/// the appended entity, keeps all names distinct if they were, and leaves the
/// appended entry as the only one carrying the name.
pub proof fn lemma_append_fresh<V>(s: Seq<(Seq<char>, V)>, n: Seq<char>, v: V)
    requires
        !name_in(s, n),
    ensures
        lookup_in(s.push((n, v)), n) == Some(v),
        names_distinct(s) ==> names_distinct(s.push((n, v))),
        forall|j: int| 0 <= j < s.push((n, v)).len() && s.push((n, v))[j].0 == n ==> j == s.len(),
{
    let t = s.push((n, v));
    assert(t[s.len() as int].0 == n);
    assert(forall|j: int| 0 <= j < s.len() ==> t[j] == s[j]);
    lemma_lookup_first_match(t, n, s.len() as int);
}

/// One entry of a directory.
#[derive(Debug)]
pub struct DirEntry<T> {
    pub name: String,
    pub item: T,
}

/// A name-keyed directory of entities, in insertion order.
#[derive(Debug)]
pub struct Dir<T> {
    entries: Vec<DirEntry<T>>,
}

impl<T: View> Dir<T> {
    /// The entries, as pairs of name and entity model.
    pub closed spec fn entry_seq(&self) -> Seq<(Seq<char>, T::V)> {
        self.entries@.map_values(|e: DirEntry<T>| (e.name@, e.item@))
    }

    /// The recorded names, in insertion order.
    pub open spec fn name_seq(&self) -> Seq<Seq<char>> {
        names_of(self.entry_seq())
    }

    /// Creates an empty directory.
    pub fn new() -> (d: Self)
        ensures
            d.entry_seq() == Seq::<(Seq<char>, T::V)>::empty(),
    {
        let d = Dir { entries: Vec::new() };
        assert(d.entry_seq() =~= Seq::<(Seq<char>, T::V)>::empty());
        d
    }

    /// The number of entries.
    pub fn len(&self) -> (n: usize)
        ensures
            n == self.entry_seq().len(),
    {
        self.entries.len()
    }

    /// Records an entity under a name, at the back. Names are not required
    /// to be fresh here: a collision is surfaced at registration time.
    pub fn push_entry(&mut self, name: String, item: T)
        ensures
            final(self).entry_seq() == old(self).entry_seq().push((name@, item@)),
    {
        let ghost before = self.entry_seq();
        let ghost gname = name@;
        let ghost gitem = item@;
        self.entries.push(DirEntry { name, item });
        assert(self.entry_seq() =~= before.push((gname, gitem)));
    }

    /// Resolves a name to the first entity recorded under it.
    pub fn find<'a>(&'a self, name: &str) -> (r: Option<&'a T>)
        ensures
            match r {
                Some(t) => lookup_in(self.entry_seq(), name@) == Some(t@),
                None => lookup_in(self.entry_seq(), name@) is None,
            },
    {
        let key: String = name.to_owned();
        let n = self.entries.len();
        let mut i: usize = 0;
        while i < n
            invariant
                n == self.entry_seq().len(),
                i <= n,
                key@ == name@,
                forall|j: int| 0 <= j < i ==> self.entry_seq()[j].0 != name@,
            decreases n - i,
        {
            if self.entries[i].name == key {
                proof {
                    lemma_lookup_first_match(self.entry_seq(), name@, i as int);
                }
                return Some(&self.entries[i].item);
            }
            i += 1;
        }
        proof {
            lemma_lookup_none_iff_absent(self.entry_seq(), name@);
        }
        None
    }

    /// Lists the recorded names in order, or `None` when there are none —
    /// callers distinguish "nothing recorded" from an empty enumeration.
    pub fn name_list(&self) -> (r: Option<Vec<String>>)
        ensures
            r is None <==> self.entry_seq().len() == 0,
            r matches Some(v) ==> v@.len() == self.entry_seq().len() && (forall|i: int|
                0 <= i < v@.len() ==> v@[i]@ == self.name_seq()[i]),
    {
        let n = self.entries.len();
        if n == 0 {
            return None;
        }
        let mut out: Vec<String> = Vec::new();
        let mut i: usize = 0;
        while i < n
            invariant
                n == self.entry_seq().len(),
                n == self.entries@.len(),
                i <= n,
                out@.len() == i,
                forall|j: int| 0 <= j < i ==> out@[j]@ == self.name_seq()[j],
            decreases n - i,
        {
            out.push(self.entries[i].name.clone());
            i += 1;
        }
        Some(out)
    }

    /// Decides whether all recorded names are distinct.
    pub fn has_distinct_names(&self) -> (b: bool)
        ensures
            b == names_distinct(self.entry_seq()),
    {
        let n = self.entries.len();
        let mut i: usize = 0;
        while i < n
            invariant
                n == self.entry_seq().len(),
                n == self.entries@.len(),
                i <= n,
                forall|p: int, q: int| 0 <= p < q < n && p < i ==> self.entry_seq()[p].0
                    != self.entry_seq()[q].0,
            decreases n - i,
        {
            let mut j: usize = i + 1;
            while j < n
                invariant
                    n == self.entry_seq().len(),
                    n == self.entries@.len(),
                    i < j <= n,
                    i < n,
                    forall|q: int| i < q < j ==> self.entry_seq()[i as int].0
                        != self.entry_seq()[q].0,
                decreases n - j,
            {
                if self.entries[i].name == self.entries[j].name {
                    assert(self.entry_seq()[i as int].0 == self.entry_seq()[j as int].0);
                    return false;
                }
                j += 1;
            }
            i += 1;
        }
        true
    }
}

} // verus!
