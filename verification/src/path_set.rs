//! Sets of paths.

use vstd::prelude::*;

use crate::text::{same, texts};

verus! {

/// A set of paths.
#[derive(Debug)]
pub struct PathSet {
    paths: Vec<String>,
}

impl View for PathSet {
    type V = Set<Seq<char>>;

    closed spec fn view(&self) -> Set<Seq<char>> {
        texts(self.paths@).to_set()
    }
}

impl PathSet {
    /// No path is listed twice.
    #[verifier::type_invariant]
    pub closed spec fn inv(self) -> bool {
        texts(self.paths@).no_duplicates()
    }

    pub fn new() -> (set: Self)
        ensures
            set@ == Set::<Seq<char>>::empty(),
    {
        let set = PathSet { paths: Vec::new() };
        assert(texts(set.paths@) =~= seq![]);
        assert(set@ =~= Set::empty());
        set
    }

    /// Position of a path in the list.
    fn position(&self, path: &str) -> (at: Option<usize>)
        ensures
            match at {
                Some(i) => i < self.paths@.len() && self.paths@[i as int]@ == path@
                    && self@.contains(path@),
                None => !self@.contains(path@),
            },
    {
        let ghost views = texts(self.paths@);
        let mut i: usize = 0;
        while i < self.paths.len()
            invariant
                i <= self.paths@.len(),
                views == texts(self.paths@),
                forall|j: int| 0 <= j < i ==> #[trigger] views[j] != path@,
            decreases self.paths@.len() - i,
        {
            assert(views[i as int] == self.paths@[i as int]@);
            if same(self.paths[i].as_str(), path) {
                return Some(i);
            }
            i = i + 1;
        }
        None
    }

    pub fn contains(&self, path: &str) -> (found: bool)
        ensures
            found == self@.contains(path@),
    {
        self.position(path).is_some()
    }

    /// Adds a path. Returns whether it was absent.
    pub fn insert(&mut self, path: &str) -> (added: bool)
        ensures
            added == !old(self)@.contains(path@),
            final(self)@ == old(self)@.insert(path@),
    {
        if self.contains(path) {
            assert(self@.insert(path@) =~= self@);
            return false;
        }
        proof {
            use_type_invariant(&*self);
        }
        let ghost before = texts(self.paths@);
        let mut paths = Vec::new();
        core::mem::swap(&mut paths, &mut self.paths);
        paths.push(path.to_owned());
        let ghost now = texts(paths@);
        assert(now =~= before.push(path@));
        proof {
            assert forall|i: int, j: int|
                0 <= i < now.len() && 0 <= j < now.len() && i != j implies now[i] != now[j] by {
                if i == before.len() && before[j] == path@ {
                    assert(before.to_set().contains(path@));
                }
                if j == before.len() && before[i] == path@ {
                    assert(before.to_set().contains(path@));
                }
            }
            assert(now.to_set() =~= before.to_set().insert(path@)) by {
                assert(now[before.len() as int] == path@);
                assert forall|p: Seq<char>| now.contains(p) == (before.contains(p) || p
                    == path@) by {
                    if before.contains(p) {
                        let i = choose|i: int| 0 <= i < before.len() && before[i] == p;
                        assert(now[i] == p);
                    }
                    if now.contains(p) {
                        let i = choose|i: int| 0 <= i < now.len() && now[i] == p;
                        if i < before.len() {
                            assert(before[i] == p);
                        }
                    }
                }
            }
        }
        *self = PathSet { paths };
        true
    }

    /// Removes a path. Returns whether it was present.
    pub fn remove(&mut self, path: &str) -> (removed: bool)
        ensures
            removed == old(self)@.contains(path@),
            final(self)@ == old(self)@.remove(path@),
    {
        match self.position(path) {
            Some(at) => {
                proof {
                    use_type_invariant(&*self);
                }
                let ghost before = texts(self.paths@);
                let mut paths = Vec::new();
                core::mem::swap(&mut paths, &mut self.paths);
                let _ = paths.remove(at);
                let ghost now = texts(paths@);
                assert(now =~= before.remove(at as int));
                proof {
                    assert(before[at as int] == path@);
                    assert forall|i: int, j: int|
                        0 <= i < now.len() && 0 <= j < now.len() && i != j implies now[i]
                        != now[j] by {
                        let a = if i < at { i } else { i + 1 };
                        let b = if j < at { j } else { j + 1 };
                        assert(now[i] == before[a] && now[j] == before[b]);
                    }
                    assert(now.to_set() =~= before.to_set().remove(path@)) by {
                        assert forall|p: Seq<char>| now.contains(p) == (before.contains(p) && p
                            != path@) by {
                            if before.contains(p) && p != path@ {
                                let i = choose|i: int| 0 <= i < before.len() && before[i] == p;
                                let a = if i < at { i } else { i - 1 };
                                assert(now[a] == p);
                            }
                            if now.contains(p) {
                                let i = choose|i: int| 0 <= i < now.len() && now[i] == p;
                                let a = if i < at { i } else { i + 1 };
                                assert(before[a] == p);
                                assert(a != at);
                            }
                        }
                    }
                }
                *self = PathSet { paths };
                true
            },
            None => {
                assert(self@.remove(path@) =~= self@);
                false
            },
        }
    }
}

} // verus!
