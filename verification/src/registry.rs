//! The watched paths and how deep each is watched.

use vstd::prelude::*;
use vstd::utf8::encode_utf8;
use crate::error::{Error, ErrorKind};
use crate::path::{reported, reports, same_text};

verus! {

/// A watched root: a canonical path, and whether its whole subtree is watched
/// or only the root and what lies directly in it.
#[derive(Clone, Debug, PartialEq, Eq)]
pub struct WatchedPath {
    pub path: String,
    pub recursive: bool,
}

/// The watched roots, each path once.
#[derive(Debug)]
pub struct PathRegistry {
    entries: Vec<WatchedPath>,
}

/// Whether some root of `roots` reports a change at `path`.
pub open spec fn covered(roots: Map<Seq<char>, bool>, path: Seq<char>) -> bool {
    exists|root: Seq<char>| #[trigger]
        roots.contains_key(root) && reported(encode_utf8(root), encode_utf8(path), roots[root])
}

/// Whether no path occurs twice.
spec fn distinct(s: Seq<WatchedPath>) -> bool {
    forall|i: int, j: int| 0 <= i < j < s.len() ==> s[i].path@ != s[j].path@
}

/// The entries as a map from path to depth.
spec fn as_map(s: Seq<WatchedPath>) -> Map<Seq<char>, bool>
    decreases s.len(),
{
    if s.len() == 0 {
        Map::empty()
    } else {
        as_map(s.drop_last()).insert(s.last().path@, s.last().recursive)
    }
}

/// Each entry is in the map with its depth, and the map holds nothing else.
proof fn lemma_as_map(s: Seq<WatchedPath>)
    requires
        distinct(s),
    ensures
        as_map(s).dom().finite(),
        as_map(s).dom().len() == s.len(),
        forall|i: int|
            0 <= i < s.len() ==> as_map(s).contains_key((#[trigger] s[i]).path@) && as_map(
                s,
            )[s[i].path@] == s[i].recursive,
        forall|k: Seq<char>|
            as_map(s).contains_key(k) ==> exists|i: int|
                0 <= i < s.len() && (#[trigger] s[i]).path@ == k,
    decreases s.len(),
{
    if s.len() > 0 {
        let t = s.drop_last();
        lemma_as_map(t);
        assert forall|i: int| 0 <= i < s.len() implies as_map(s).contains_key(
            (#[trigger] s[i]).path@,
        ) && as_map(s)[s[i].path@] == s[i].recursive by {
            if i < s.len() - 1 {
                assert(s[i] == t[i]);
            }
        }
        assert forall|k: Seq<char>| as_map(s).contains_key(k) implies exists|i: int|
            0 <= i < s.len() && (#[trigger] s[i]).path@ == k by {
            if k == s.last().path@ {
                assert(s[s.len() - 1].path@ == k);
            } else {
                let i = choose|i: int| 0 <= i < t.len() && (#[trigger] t[i]).path@ == k;
                assert(s[i].path@ == k);
            }
        }
        if as_map(t).contains_key(s.last().path@) {
            let i = choose|i: int| 0 <= i < t.len() && (#[trigger] t[i]).path@ == s.last().path@;
            assert(s[i].path@ == s[s.len() - 1].path@);
        }
    }
}

impl View for PathRegistry {
    type V = Map<Seq<char>, bool>;

    closed spec fn view(&self) -> Map<Seq<char>, bool> {
        as_map(self.entries@)
    }
}

impl PathRegistry {
    #[verifier::type_invariant]
    spec fn well_formed(self) -> bool {
        distinct(self.entries@)
    }

    /// The registry without any path.
    pub fn new() -> (r: PathRegistry)
        ensures
            r@ == Map::<Seq<char>, bool>::empty(),
    {
        PathRegistry { entries: Vec::new() }
    }

    /// Where `path` stands among the entries, if it does.
    fn position(&self, path: &str) -> (r: Option<usize>)
        ensures
            match r {
                Some(i) => i < self.entries@.len() && self.entries@[i as int].path@ == path@,
                None => forall|j: int|
                    0 <= j < self.entries@.len() ==> (#[trigger] self.entries@[j]).path@ != path@,
            },
    {
        let mut i: usize = 0;
        while i < self.entries.len()
            invariant
                i <= self.entries@.len(),
                forall|j: int| 0 <= j < i ==> (#[trigger] self.entries@[j]).path@ != path@,
            decreases self.entries@.len() - i,
        {
            if same_text(self.entries[i].path.as_str(), path) {
                return Some(i);
            }
            i += 1;
        }
        None
    }

    /// The number of watched paths.
    pub fn count(&self) -> (n: usize)
        ensures
            self@.dom().finite(),
            n == self@.dom().len(),
    {
        proof {
            use_type_invariant(self);
            lemma_as_map(self.entries@);
        }
        self.entries.len()
    }

    pub fn is_empty(&self) -> (r: bool)
        ensures
            r == (self@ == Map::<Seq<char>, bool>::empty()),
    {
        proof {
            use_type_invariant(self);
            lemma_as_map(self.entries@);
            if self.entries@.len() > 0 {
                assert(self@.contains_key(self.entries@[0].path@));
            }
        }
        self.entries.len() == 0
    }

    /// How deep `path` is watched: `None` where it is not watched.
    pub fn get(&self, path: &str) -> (r: Option<bool>)
        ensures
            r == (if self@.contains_key(path@) {
                Some(self@[path@])
            } else {
                None
            }),
    {
        proof {
            use_type_invariant(self);
            lemma_as_map(self.entries@);
        }
        match self.position(path) {
            Some(i) => {
                assert(self@.contains_key(self.entries@[i as int].path@));
                Some(self.entries[i].recursive)
            },
            None => None,
        }
    }

    /// Registers a path. `canonical` is the path in canonical form, or `None`
    /// where nothing exists at `path`: then nothing is stored and the error
    /// names `path`. A path that is registered already keeps one entry, with
    /// the depth given last.
    pub fn add(&mut self, path: &str, canonical: Option<String>, recursive: bool) -> (r: Result<
        (),
        Error,
    >)
        ensures
            match canonical {
                Some(c) => r is Ok && final(self)@ == old(self)@.insert(c@, recursive),
                None => {
                    &&& final(self)@ == old(self)@
                    &&& r matches Err(e)
                    &&& e.kind == ErrorKind::PathNotFound
                    &&& e.paths@.len() == 1
                    &&& e.paths@[0]@ == path@
                },
            },
    {
        match canonical {
            None => Err(Error::path_not_found().add_path(path.to_owned())),
            Some(c) => {
                proof {
                    use_type_invariant(&*self);
                    lemma_as_map(self.entries@);
                }
                let ghost before = self.entries@;
                let found = self.position(c.as_str());
                let mut entries: Vec<WatchedPath> = Vec::new();
                std::mem::swap(&mut self.entries, &mut entries);
                if let Some(i) = found {
                    entries.remove(i);
                }
                let ghost middle = entries@;
                let entry = WatchedPath { path: c, recursive };
                entries.push(entry);
                proof {
                    let after = entries@;
                    assert(after == middle.push(entry));
                    assert forall|a: int, b: int| 0 <= a < b < after.len() implies after[a].path@
                        != after[b].path@ by {
                        if found is Some {
                            let i = found.unwrap() as int;
                            let a0 = if a < i { a } else { a + 1 };
                            assert(after[a] == before[a0]);
                            if b < middle.len() {
                                let b0 = if b < i { b } else { b + 1 };
                                assert(after[b] == before[b0]);
                            } else {
                                assert(after[b].path@ == before[i].path@);
                            }
                        } else {
                            assert(after[a] == before[a]);
                            if b < middle.len() {
                                assert(after[b] == before[b]);
                            }
                        }
                    }
                    lemma_as_map(after);
                    let m = as_map(before).insert(entry.path@, recursive);
                    assert forall|k: Seq<char>| as_map(after).contains_key(k) implies m.contains_key(
                        k,
                    ) && m[k] == as_map(after)[k] by {
                        let a = choose|a: int| 0 <= a < after.len() && (#[trigger] after[a]).path@ == k;
                        if a < middle.len() {
                            let a0 = if found is Some && a >= found.unwrap() as int { a + 1 } else { a };
                            assert(after[a] == before[a0]);
                            assert(as_map(before).contains_key(before[a0].path@));
                        }
                    }
                    assert forall|k: Seq<char>| m.contains_key(k) implies as_map(after).contains_key(
                        k,
                    ) by {
                        if k == entry.path@ {
                            assert(after[after.len() - 1].path@ == k);
                        } else {
                            let a0 = choose|a0: int|
                                0 <= a0 < before.len() && (#[trigger] before[a0]).path@ == k;
                            let a = if found is Some && a0 > found.unwrap() as int { a0 - 1 } else { a0 };
                            assert(after[a] == before[a0]);
                        }
                    }
                    assert(as_map(after) =~= m);
                }
                std::mem::swap(&mut self.entries, &mut entries);
                Ok(())
            },
        }
    }

    /// Forgets a path. The error names the path where it was not registered.
    pub fn remove(&mut self, path: &str) -> (r: Result<(), Error>)
        ensures
            final(self)@ == old(self)@.remove(path@),
            r is Ok <==> old(self)@.contains_key(path@),
            r matches Err(e) ==> e.kind == ErrorKind::WatchNotFound && e.paths@.len() == 1
                && e.paths@[0]@ == path@,
    {
        proof {
            use_type_invariant(&*self);
            lemma_as_map(self.entries@);
        }
        let ghost before = self.entries@;
        match self.position(path) {
            None => {
                assert(!as_map(before).contains_key(path@));
                assert(as_map(before).remove(path@) =~= as_map(before));
                Err(Error::watch_not_found().add_path(path.to_owned()))
            },
            Some(i) => {
                let mut entries: Vec<WatchedPath> = Vec::new();
                std::mem::swap(&mut self.entries, &mut entries);
                entries.remove(i);
                proof {
                    let after = entries@;
                    assert forall|a: int, b: int| 0 <= a < b < after.len() implies after[a].path@
                        != after[b].path@ by {
                        let a0 = if a < i { a } else { a + 1 };
                        let b0 = if b < i { b } else { b + 1 };
                        assert(after[a] == before[a0]);
                        assert(after[b] == before[b0]);
                    }
                    lemma_as_map(after);
                    let m = as_map(before).remove(path@);
                    assert(as_map(before).contains_key(before[i as int].path@));
                    assert forall|k: Seq<char>| as_map(after).contains_key(k) implies m.contains_key(
                        k,
                    ) && m[k] == as_map(after)[k] by {
                        let a = choose|a: int| 0 <= a < after.len() && (#[trigger] after[a]).path@ == k;
                        let a0 = if a < i { a } else { a + 1 };
                        assert(after[a] == before[a0]);
                        assert(as_map(before).contains_key(before[a0].path@));
                    }
                    assert forall|k: Seq<char>| m.contains_key(k) implies as_map(after).contains_key(
                        k,
                    ) by {
                        let a0 = choose|a0: int|
                            0 <= a0 < before.len() && (#[trigger] before[a0]).path@ == k;
                        let a = if a0 > i { a0 - 1 } else { a0 };
                        assert(after[a] == before[a0]);
                    }
                    assert(as_map(after) =~= m);
                }
                std::mem::swap(&mut self.entries, &mut entries);
                Ok(())
            },
        }
    }

    /// Whether some watched root reports a change at `path`.
    pub fn covers(&self, path: &str) -> (r: bool)
        ensures
            r == covered(self@, path@),
    {
        proof {
            use_type_invariant(self);
            lemma_as_map(self.entries@);
        }
        let mut i: usize = 0;
        while i < self.entries.len()
            invariant
                i <= self.entries@.len(),
                distinct(self.entries@),
                forall|j: int|
                    0 <= j < i ==> !reported(
                        encode_utf8((#[trigger] self.entries@[j]).path@),
                        encode_utf8(path@),
                        self.entries@[j].recursive,
                    ),
            decreases self.entries@.len() - i,
        {
            let entry = &self.entries[i];
            if reports(entry.path.as_str(), path, entry.recursive) {
                proof {
                    lemma_as_map(self.entries@);
                    assert(self@.contains_key(self.entries@[i as int].path@));
                }
                return true;
            }
            i += 1;
        }
        proof {
            lemma_as_map(self.entries@);
            if covered(self@, path@) {
                let root = choose|root: Seq<char>| #[trigger]
                    self@.contains_key(root) && reported(
                        encode_utf8(root),
                        encode_utf8(path@),
                        self@[root],
                    );
                let j = choose|j: int|
                    0 <= j < self.entries@.len() && (#[trigger] self.entries@[j]).path@ == root;
                assert(self@[self.entries@[j].path@] == self.entries@[j].recursive);
            }
        }
        false
    }

    /// A copy of the registry, as a stream takes it along.
    pub fn snapshot(&self) -> (r: PathRegistry)
        ensures
            r@ == self@,
    {
        proof {
            use_type_invariant(self);
        }
        let mut entries: Vec<WatchedPath> = Vec::new();
        let mut i: usize = 0;
        while i < self.entries.len()
            invariant
                i <= self.entries@.len(),
                entries@ == self.entries@.subrange(0, i as int),
            decreases self.entries@.len() - i,
        {
            let entry = &self.entries[i];
            entries.push(WatchedPath { path: entry.path.clone(), recursive: entry.recursive });
            assert(entries@ =~= self.entries@.subrange(0, i + 1));
            i += 1;
        }
        assert(entries@ =~= self.entries@);
        PathRegistry { entries }
    }

    /// The watched paths, each once, in no particular order.
    pub fn paths(&self) -> (r: Vec<String>)
        ensures
            r@.len() == self@.dom().len(),
            forall|i: int| 0 <= i < r@.len() ==> self@.contains_key((#[trigger] r@[i])@),
            forall|k: Seq<char>|
                self@.contains_key(k) ==> exists|i: int| 0 <= i < r@.len() && (#[trigger] r@[i])@ == k,
            forall|i: int, j: int| 0 <= i < j < r@.len() ==> r@[i]@ != r@[j]@,
    {
        proof {
            use_type_invariant(self);
            lemma_as_map(self.entries@);
        }
        let mut paths: Vec<String> = Vec::new();
        let mut i: usize = 0;
        while i < self.entries.len()
            invariant
                i <= self.entries@.len(),
                paths@.len() == i,
                forall|j: int| 0 <= j < i ==> (#[trigger] paths@[j]) == self.entries@[j].path,
            decreases self.entries@.len() - i,
        {
            paths.push(self.entries[i].path.clone());
            i += 1;
        }
        proof {
            assert forall|k: Seq<char>| self@.contains_key(k) implies exists|i: int|
                0 <= i < paths@.len() && (#[trigger] paths@[i])@ == k by {
                let j = choose|j: int|
                    0 <= j < self.entries@.len() && (#[trigger] self.entries@[j]).path@ == k;
                assert(paths@[j]@ == k);
            }
            assert forall|i: int| 0 <= i < paths@.len() implies self@.contains_key(
                (#[trigger] paths@[i])@,
            ) by {
                assert(self@.contains_key(self.entries@[i].path@));
            }
            assert forall|i: int, j: int| 0 <= i < j < paths@.len() implies paths@[i]@
                != paths@[j]@ by {
                assert(paths@[i] == self.entries@[i].path);
                assert(paths@[j] == self.entries@[j].path);
            }
        }
        paths
    }
}

} // verus!
