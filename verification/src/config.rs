//! The runner's configuration: where the server is, and which image and
//! release each backend uses when a pipeline names none.

use vstd::prelude::*;
use crate::text::str_equal;

verus! {

/// The address of the server that hands out jobs.
#[derive(Debug, Clone, PartialEq, Eq)]
pub struct Server {
    pub host: String,
    pub port: String,
}

/// Default image and release of a backend.
#[derive(Debug, Clone, PartialEq, Eq)]
pub struct Image {
    pub image: Option<String>,
    pub release: Option<String>,
}

/// The per-backend defaults, keyed by backend name ("docker", "lxc"). No
/// key occurs twice.
#[derive(Debug)]
pub struct Defaults {
    entries: Vec<(String, Image)>,
}

/// The map that a list of entries describes; a later entry for a key
/// overrides an earlier one.
pub open spec fn entries_map(e: Seq<(String, Image)>) -> Map<Seq<char>, Image>
    decreases e.len(),
{
    if e.len() == 0 {
        Map::empty()
    } else {
        entries_map(e.drop_last()).insert(e.last().0@, e.last().1)
    }
}

/// No two entries share a key.
pub open spec fn keys_distinct(e: Seq<(String, Image)>) -> bool {
    forall|i: int, j: int| 0 <= i < j < e.len() ==> (#[trigger] e[i]).0@ != (#[trigger] e[j]).0@
}

proof fn lemma_entries_map_lookup(e: Seq<(String, Image)>, i: int)
    requires
        keys_distinct(e),
        0 <= i < e.len(),
    ensures
        entries_map(e).contains_key(e[i].0@),
        entries_map(e)[e[i].0@] == e[i].1,
    decreases e.len(),
{
    if i < e.len() - 1 {
        assert(e.drop_last()[i] == e[i]);
        assert(keys_distinct(e.drop_last()));
        lemma_entries_map_lookup(e.drop_last(), i);
        assert(e[i].0@ != e[e.len() - 1].0@);
    }
}

proof fn lemma_entries_map_domain(e: Seq<(String, Image)>, k: Seq<char>)
    ensures
        entries_map(e).contains_key(k) <==> exists|i: int| 0 <= i < e.len() && (#[trigger] e[i]).0@ == k,
    decreases e.len(),
{
    if e.len() > 0 {
        lemma_entries_map_domain(e.drop_last(), k);
        if entries_map(e).contains_key(k) {
            if k != e.last().0@ {
                let i = choose|i: int| 0 <= i < e.len() - 1 && (#[trigger] e.drop_last()[i]).0@ == k;
                assert(e[i] == e.drop_last()[i]);
            } else {
                assert(e[e.len() - 1].0@ == k);
            }
        }
        if exists|i: int| 0 <= i < e.len() && (#[trigger] e[i]).0@ == k {
            let i = choose|i: int| 0 <= i < e.len() && (#[trigger] e[i]).0@ == k;
            if i < e.len() - 1 {
                assert(e.drop_last()[i] == e[i]);
            }
        }
    }
}

proof fn lemma_entries_map_update(e: Seq<(String, Image)>, i: int, x: (String, Image))
    requires
        keys_distinct(e),
        0 <= i < e.len(),
        e[i].0@ == x.0@,
    ensures
        entries_map(e.update(i, x)) =~= entries_map(e).insert(x.0@, x.1),
        keys_distinct(e.update(i, x)),
    decreases e.len(),
{
    let u = e.update(i, x);
    assert forall|a: int, b: int| 0 <= a < b < u.len() implies (#[trigger] u[a]).0@ != (#[trigger] u[b]).0@ by {
        assert(e[a].0@ != e[b].0@);
    }
    if i == e.len() - 1 {
        assert(u.drop_last() =~= e.drop_last());
    } else {
        assert(u.drop_last() =~= e.drop_last().update(i, x));
        assert(keys_distinct(e.drop_last()));
        assert(e.drop_last()[i] == e[i]);
        lemma_entries_map_update(e.drop_last(), i, x);
        assert(e[i].0@ != e[e.len() - 1].0@);
        assert(u.last() == e.last());
    }
}

impl Defaults {
    #[verifier::type_invariant]
    spec fn inv(self) -> bool {
        keys_distinct(self.entries@)
    }

    /// The backend defaults as a map from backend name to defaults.
    pub closed spec fn spec_map(&self) -> Map<Seq<char>, Image> {
        entries_map(self.entries@)
    }

    /// An empty table.
    pub fn new() -> (d: Defaults)
        ensures
            d@ == Map::<Seq<char>, Image>::empty(),
    {
        Defaults { entries: Vec::new() }
    }

    /// Sets the defaults of backend `key`, replacing any earlier ones.
    pub fn insert(&mut self, key: String, value: Image)
        ensures
            final(self)@ == old(self)@.insert(key@, value),
    {
        proof { use_type_invariant(&*self); }
        let ghost before = self@;
        let mut entries: Vec<(String, Image)> = Vec::new();
        std::mem::swap(&mut entries, &mut self.entries);
        let ghost e = entries@;
        let n = entries.len();
        let mut i: usize = 0;
        let mut found = false;
        while i < n
            invariant_except_break
                !found,
            invariant
                n == entries@.len(),
                entries@ == e,
                entries_map(e) == before,
                keys_distinct(e),
                i <= n,
                forall|j: int| 0 <= j < i ==> (#[trigger] e[j]).0@ != key@,
            ensures
                found ==> i < n && e[i as int].0@ == key@,
                !found ==> i == n,
            decreases n - i,
        {
            if str_equal(entries[i].0.as_str(), key.as_str()) {
                found = true;
                break;
            }
            i = i + 1;
        }
        if found {
            proof { lemma_entries_map_update(e, i as int, (key, value)); }
            entries.set(i, (key, value));
        } else {
            entries.push((key, value));
            proof {
                let p = entries@;
                assert(p.drop_last() =~= e);
                assert forall|a: int, b: int| 0 <= a < b < p.len() implies (#[trigger] p[a]).0@ != (#[trigger] p[b]).0@ by {
                    if b < e.len() {
                        assert(p[a] == e[a] && p[b] == e[b]);
                    }
                }
            }
        }
        self.entries = entries;
    }

    /// The defaults of backend `key`, if it has any.
    pub fn get(&self, key: &str) -> (r: Option<&Image>)
        ensures
            match r {
                Some(v) => self@.contains_key(key@) && *v == self@[key@],
                None => !self@.contains_key(key@),
            },
    {
        proof { use_type_invariant(self); }
        let n = self.entries.len();
        let mut i: usize = 0;
        while i < n
            invariant
                n == self.entries@.len(),
                i <= n,
                keys_distinct(self.entries@),
                forall|j: int| 0 <= j < i ==> (#[trigger] self.entries@[j]).0@ != key@,
            decreases n - i,
        {
            if str_equal(self.entries[i].0.as_str(), key) {
                proof { lemma_entries_map_lookup(self.entries@, i as int); }
                return Some(&self.entries[i].1);
            }
            i = i + 1;
        }
        proof { lemma_entries_map_domain(self.entries@, key@); }
        None
    }

    /// The backends that have defaults, each once.
    pub fn keys(&self) -> (ks: Vec<String>)
        ensures
            ks@.len() == self@.len(),
            forall|k: Seq<char>| self@.contains_key(k) <==> exists|i: int| 0 <= i < ks@.len() && (#[trigger] ks@[i])@ == k,
    {
        proof {
            use_type_invariant(self);
            lemma_entries_map_len(self.entries@);
        }
        let n = self.entries.len();
        let mut ks: Vec<String> = Vec::new();
        let mut i: usize = 0;
        while i < n
            invariant
                n == self.entries@.len(),
                i <= n,
                ks@.len() == i,
                forall|j: int| 0 <= j < i ==> (#[trigger] ks@[j])@ == self.entries@[j].0@,
            decreases n - i,
        {
            ks.push(self.entries[i].0.clone());
            i = i + 1;
        }
        proof {
            assert forall|k: Seq<char>| self@.contains_key(k) <==> exists|i: int| 0 <= i < ks@.len() && (#[trigger] ks@[i])@ == k by {
                lemma_entries_map_domain(self.entries@, k);
                if self@.contains_key(k) {
                    let j = choose|j: int| 0 <= j < self.entries@.len() && (#[trigger] self.entries@[j]).0@ == k;
                    assert(ks@[j]@ == k);
                }
                if exists|i: int| 0 <= i < ks@.len() && (#[trigger] ks@[i])@ == k {
                    let j = choose|j: int| 0 <= j < ks@.len() && (#[trigger] ks@[j])@ == k;
                    assert(self.entries@[j].0@ == k);
                }
            }
        }
        ks
    }

    /// How many backends have defaults.
    pub fn len(&self) -> (n: usize)
        ensures
            n == self@.len(),
    {
        proof {
            use_type_invariant(self);
            lemma_entries_map_len(self.entries@);
        }
        self.entries.len()
    }
}

proof fn lemma_entries_map_len(e: Seq<(String, Image)>)
    requires
        keys_distinct(e),
    ensures
        entries_map(e).dom().finite(),
        entries_map(e).len() == e.len(),
    decreases e.len(),
{
    if e.len() > 0 {
        let t = e.drop_last();
        assert(keys_distinct(t));
        lemma_entries_map_len(t);
        lemma_entries_map_domain(t, e.last().0@);
        assert(!entries_map(t).contains_key(e.last().0@)) by {
            if entries_map(t).contains_key(e.last().0@) {
                let i = choose|i: int| 0 <= i < t.len() && (#[trigger] t[i]).0@ == e.last().0@;
                assert(e[i] == t[i]);
            }
        }
    }
}

impl View for Defaults {
    type V = Map<Seq<char>, Image>;

    open spec fn view(&self) -> Map<Seq<char>, Image> {
        self.spec_map()
    }
}

/// The runner's own settings.
#[derive(Debug)]
pub struct Runner {
    pub defaults: Defaults,
}

/// The whole configuration file.
#[derive(Debug)]
pub struct Config {
    pub server: Server,
    pub runner: Runner,
}

/// Reading a backend's defaults after setting them gives what was set, and
/// setting one backend's defaults leaves every other backend's as it was.
pub proof fn law_get_after_insert(before: Defaults, after: Defaults, key: Seq<char>, value: Image, other: Seq<char>)
    requires
        after@ == before@.insert(key, value),
    ensures
        after@.contains_key(key),
        after@[key] == value,
        other != key ==> (after@.contains_key(other) == before@.contains_key(other)),
        other != key && before@.contains_key(other) ==> after@[other] == before@[other],
{
}

} // verus!
