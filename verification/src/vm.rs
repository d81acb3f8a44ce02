//! The plugin module cache.
//!
//! Compiled plugin modules are cached by their filesystem path for the
//! life of the process; entries are never evicted or replaced. The
//! compiled artifact itself lives outside the verified core (the driver
//! keeps a side table of compiled modules); the cache assigns and
//! remembers each path's identity — the index into that table — so that
//! identical paths always name the identical module.

use vstd::prelude::*;

use crate::text::str_eq;

verus! {

/// Bindings of a cache state: path and module identity, in insertion
/// order.
pub open spec fn cache_view(v: Seq<(String, usize)>) -> Seq<(Seq<char>, usize)> {
    Seq::new(v.len(), |i: int| (v[i].0@, v[i].1))
}

/// First binding of the path, scanning in insertion order.
pub open spec fn spec_cache_lookup(entries: Seq<(Seq<char>, usize)>, path: Seq<char>) -> Option<
    usize,
>
    decreases entries.len(),
{
    if entries.len() == 0 {
        None
    } else if entries[0].0 == path {
        Some(entries[0].1)
    } else {
        spec_cache_lookup(entries.skip(1), path)
    }
}

/// Bindings whose paths differ can be skipped without changing the
/// result of the scan.
proof fn lemma_cache_lookup_skip(entries: Seq<(Seq<char>, usize)>, path: Seq<char>, i: int)
    requires
        0 <= i <= entries.len(),
        forall|j: int| 0 <= j < i ==> #[trigger] entries[j].0 != path,
    ensures
        spec_cache_lookup(entries, path) == spec_cache_lookup(entries.skip(i), path),
    decreases i,
{
    if i > 0 {
        assert forall|j: int| 0 <= j < i - 1 implies #[trigger] entries.skip(1)[j].0 != path by {
            assert(entries.skip(1)[j] == entries[j + 1]);
        }
        lemma_cache_lookup_skip(entries.skip(1), path, i - 1);
        assert(entries.skip(1).skip(i - 1) =~= entries.skip(i));
    } else {
        assert(entries.skip(0) =~= entries);
    }
}

/// A binding appended for a path the scan does not yet know is the one
/// the scan then finds.
proof fn lemma_cache_lookup_append(e: Seq<(Seq<char>, usize)>, path: Seq<char>, id: usize)
    requires
        spec_cache_lookup(e, path) is None,
    ensures
        spec_cache_lookup(e.push((path, id)), path) == Some(id),
    decreases e.len(),
{
    if e.len() == 0 {
        assert(e.push((path, id))[0] == (path, id));
    } else {
        assert(e.push((path, id))[0] == e[0]);
        assert(e.push((path, id)).skip(1) =~= e.skip(1).push((path, id)));
        lemma_cache_lookup_append(e.skip(1), path, id);
    }
}

/// The module cache: a mapping from module path to module identity
/// that only ever grows.
pub struct ModuleCache {
    entries: Vec<(String, usize)>,
}

impl ModuleCache {
    /// The bindings held, in insertion order.
    pub closed spec fn view(&self) -> Seq<(Seq<char>, usize)> {
        cache_view(self.entries@)
    }

    /// An empty cache.
    pub fn new() -> (s: Self)
        ensures
            s@.len() == 0,
    {
        let s = ModuleCache { entries: Vec::new() };
        proof {
            assert(s@ =~= Seq::<(Seq<char>, usize)>::empty());
        }
        s
    }

    /// Consult the cache.
    pub fn lookup(&self, path: &str) -> (r: Option<usize>)
        ensures
            r == spec_cache_lookup(self@, path@),
    {
        let mut i: usize = 0;
        while i < self.entries.len()
            invariant
                0 <= i <= self.entries@.len(),
                forall|j: int| 0 <= j < i ==> #[trigger] cache_view(self.entries@)[j].0 != path@,
            decreases self.entries@.len() - i,
        {
            if str_eq(self.entries[i].0.as_str(), path) {
                proof {
                    lemma_cache_lookup_skip(self@, path@, i as int);
                    assert(self@.skip(i as int)[0] == self@[i as int]);
                }
                return Some(self.entries[i].1);
            }
            proof {
                assert(cache_view(self.entries@)[i as int].0 == self.entries@[i as int].0@);
            }
            i += 1;
        }
        proof {
            lemma_cache_lookup_skip(self@, path@, self.entries@.len() as int);
            assert(self@.skip(self.entries@.len() as int).len() == 0);
        }
        None
    }

    /// The identity of the module at this path: the one already bound,
    /// or a fresh one bound now (the caller compiles the module and
    /// stores it in its side table at this index exactly when
    /// `was_known` comes back false). Every existing binding is kept.
    pub fn get_or_assign(&mut self, path: &String) -> (r: (usize, bool))
        ensures
            spec_cache_lookup(final(self)@, path@) == Some(r.0),
            old(self)@.is_prefix_of(final(self)@),
            r.1 == (spec_cache_lookup(old(self)@, path@) is Some),
            spec_cache_lookup(old(self)@, path@) matches Some(id) ==> r.0 == id && final(self)@
                == old(self)@,
            spec_cache_lookup(old(self)@, path@) is None ==> final(self)@ == old(self)@.push(
                (path@, r.0),
            ) && r.0 == old(self)@.len(),
    {
        match self.lookup(path.as_str()) {
            Some(id) => {
                proof {
                    assert(old(self)@ =~= final(self)@.subrange(0, old(self)@.len() as int));
                }
                (id, true)
            },
            None => {
                let id = self.entries.len();
                let ghost before = self@;
                self.entries.push((path.clone(), id));
                proof {
                    assert(self@ =~= before.push((path@, id)));
                    assert(before =~= self@.subrange(0, before.len() as int));
                    lemma_cache_lookup_append(before, path@, id);
                }
                (id, false)
            },
        }
    }
}

/// Identical paths name the identical module for the life of the
/// process: a binding once made still governs every later lookup,
/// because the cache only appends and the scan takes the first match.
pub proof fn lemma_cache_binding_stable(
    e1: Seq<(Seq<char>, usize)>,
    e2: Seq<(Seq<char>, usize)>,
    path: Seq<char>,
    id: usize,
)
    requires
        e1.is_prefix_of(e2),
        spec_cache_lookup(e1, path) == Some(id),
    ensures
        spec_cache_lookup(e2, path) == Some(id),
    decreases e1.len(),
{
    assert(e1.len() > 0);
    assert(e2[0] == e1[0]);
    if e1[0].0 == path {
    } else {
        assert(e1.skip(1) =~= e2.skip(1).subrange(0, e1.len() - 1));
        lemma_cache_binding_stable(e1.skip(1), e2.skip(1), path, id);
    }
}

} // verus!
