//! A set of HTTP headers: at most one value for each name.

use vstd::prelude::*;
use crate::text::same_text;

verus! {

/// HTTP headers, each name with its one value.
///
/// The names held are pairwise different: inserting under a name that is
/// already there replaces its value.
#[derive(Debug)]
pub struct Headers {
    entries: Vec<(String, String)>,
}

impl View for Headers {
    type V = Map<Seq<char>, Seq<char>>;

    /// The headers as a map from name to value.
    closed spec fn view(&self) -> Map<Seq<char>, Seq<char>> {
        Map::new(
            |name: Seq<char>| self.position(name) is Some,
            |name: Seq<char>| self.entries@[self.position(name).unwrap()].1@,
        )
    }
}

impl Headers {
    #[verifier::type_invariant]
    spec fn distinct(self) -> bool {
        forall|i: int, j: int|
            0 <= i < j < self.entries@.len() ==> self.entries@[i].0@ != self.entries@[j].0@
    }

    spec fn position(&self, name: Seq<char>) -> Option<int> {
        if exists|i: int| 0 <= i < self.entries@.len() && self.entries@[i].0@ == name {
            Some(choose|i: int| 0 <= i < self.entries@.len() && self.entries@[i].0@ == name)
        } else {
            None
        }
    }

    /// The pairs held, in the order in which their names first came in.
    pub closed spec fn pairs(&self) -> Seq<(Seq<char>, Seq<char>)> {
        Seq::new(self.entries@.len(), |i: int| (self.entries@[i].0@, self.entries@[i].1@))
    }

    proof fn lemma_pairs(&self)
        requires
            self.distinct(),
        ensures
            forall|i: int|
                0 <= i < self.pairs().len() ==> #[trigger] self@.contains_pair(
                    self.pairs()[i].0,
                    self.pairs()[i].1,
                ),
            forall|name: Seq<char>|
                self@.contains_key(name) ==> exists|i: int|
                    0 <= i < self.pairs().len() && #[trigger] self.pairs()[i].0 == name,
            forall|i: int, j: int|
                0 <= i < j < self.pairs().len() ==> self.pairs()[i].0 != self.pairs()[j].0,
    {
        assert forall|i: int| 0 <= i < self.pairs().len() implies #[trigger] self@.contains_pair(
            self.pairs()[i].0,
            self.pairs()[i].1,
        ) by {
            let name = self.entries@[i].0@;
            assert(self.position(name) is Some);
            let p = self.position(name).unwrap();
            assert(p == i) by {
                if p < i {
                    assert(self.entries@[p].0@ != self.entries@[i].0@);
                } else if i < p {
                    assert(self.entries@[i].0@ != self.entries@[p].0@);
                }
            }
        }
        assert forall|name: Seq<char>| self@.contains_key(name) implies exists|i: int|
            0 <= i < self.pairs().len() && #[trigger] self.pairs()[i].0 == name by {
            let p = self.position(name).unwrap();
            assert(self.pairs()[p].0 == name);
        }
    }

    /// No headers.
    pub fn new() -> (r: Headers)
        ensures
            r@ == Map::<Seq<char>, Seq<char>>::empty(),
            r.pairs().len() == 0,
    {
        let r = Headers { entries: Vec::new() };
        assert(r@ =~= Map::<Seq<char>, Seq<char>>::empty());
        r
    }

    /// How many headers there are.
    pub fn len(&self) -> (n: usize)
        ensures
            n == self.pairs().len(),
    {
        self.entries.len()
    }

    /// The name of the header at `index`.
    pub fn name_at(&self, index: usize) -> (name: &str)
        requires
            index < self.pairs().len(),
        ensures
            name@ == self.pairs()[index as int].0,
            self@.contains_key(name@),
    {
        proof {
            use_type_invariant(self);
            self.lemma_pairs();
            assert(self@.contains_pair(self.pairs()[index as int].0, self.pairs()[index as int].1));
        }
        self.entries[index].0.as_str()
    }

    /// The value of the header at `index`.
    pub fn value_at(&self, index: usize) -> (value: &str)
        requires
            index < self.pairs().len(),
        ensures
            value@ == self.pairs()[index as int].1,
            self@.contains_pair(self.pairs()[index as int].0, value@),
    {
        proof {
            use_type_invariant(self);
            self.lemma_pairs();
        }
        self.entries[index].1.as_str()
    }

    fn find(&self, name: &str) -> (r: Option<usize>)
        ensures
            match r {
                Some(i) => i < self.entries@.len() && self.entries@[i as int].0@ == name@
                    && self.position(name@) == Some(i as int),
                None => self.position(name@) is None,
            },
    {
        proof {
            use_type_invariant(self);
        }
        let mut i: usize = 0;
        while i < self.entries.len()
            invariant
                i <= self.entries@.len(),
                self.distinct(),
                forall|k: int| 0 <= k < i ==> self.entries@[k].0@ != name@,
            decreases self.entries@.len() - i,
        {
            if same_text(self.entries[i].0.as_str(), name) {
                proof {
                    let p = self.position(name@).unwrap();
                    if p < i {
                        assert(self.entries@[p].0@ != self.entries@[i as int].0@);
                    } else if i < p {
                        assert(self.entries@[i as int].0@ != self.entries@[p].0@);
                    }
                }
                return Some(i);
            }
            i += 1;
        }
        None
    }

    /// Whether there is a header of this name.
    pub fn contains_key(&self, name: &str) -> (r: bool)
        ensures
            r == self@.contains_key(name@),
    {
        self.find(name).is_some()
    }

    /// The value of the header of this name, if there is one.
    pub fn get(&self, name: &str) -> (r: Option<&str>)
        ensures
            match r {
                Some(value) => self@.contains_key(name@) && self@[name@] == value@,
                None => !self@.contains_key(name@),
            },
    {
        match self.find(name) {
            Some(i) => Some(self.entries[i].1.as_str()),
            None => None,
        }
    }

    /// Sets the header `name` to `value`, whether or not it was there before.
    pub fn insert(&mut self, name: &str, value: &str)
        ensures
            final(self)@ == old(self)@.insert(name@, value@),
    {
        proof {
            use_type_invariant(&*self);
        }
        let found = self.find(name);
        let ghost before = *self;
        match found {
            Some(i) => {
                let mut entries: Vec<(String, String)> = Vec::new();
                core::mem::swap(&mut entries, &mut self.entries);
                entries.set(i, (name.to_owned(), value.to_owned()));
                self.entries = entries;
                proof {
                    assert forall|k: Seq<char>| self.position(k) is Some <==> before.position(
                        k,
                    ) is Some by {
                        if before.position(k) is Some {
                            let p = before.position(k).unwrap();
                            assert(self.entries@[p].0@ == k);
                        }
                        if self.position(k) is Some {
                            let p = self.position(k).unwrap();
                            assert(before.entries@[p].0@ == k);
                        }
                    }
                    assert forall|k: Seq<char>| self.position(k) is Some implies self.position(k)
                        == before.position(k) by {
                        let p = self.position(k).unwrap();
                        let q = before.position(k).unwrap();
                        assert(before.entries@[p].0@ == k);
                        if p < q {
                            assert(before.entries@[p].0@ != before.entries@[q].0@);
                        } else if q < p {
                            assert(before.entries@[q].0@ != before.entries@[p].0@);
                        }
                    }
                    assert(self@ =~= before@.insert(name@, value@));
                }
            },
            None => {
                let mut entries: Vec<(String, String)> = Vec::new();
                core::mem::swap(&mut entries, &mut self.entries);
                entries.push((name.to_owned(), value.to_owned()));
                self.entries = entries;
                proof {
                    let last = before.entries@.len() as int;
                    assert(self.entries@[last].0@ == name@);
                    assert forall|k: Seq<char>| self.position(k) is Some <==> (k == name@
                        || before.position(k) is Some) by {
                        if before.position(k) is Some {
                            let p = before.position(k).unwrap();
                            assert(self.entries@[p].0@ == k);
                        }
                        if self.position(k) is Some {
                            let p = self.position(k).unwrap();
                            if p < last {
                                assert(before.entries@[p].0@ == k);
                            }
                        }
                    }
                    assert forall|k: Seq<char>|
                        self.position(k) is Some && k != name@ implies self.position(k)
                        == before.position(k) by {
                        let p = self.position(k).unwrap();
                        let q = before.position(k).unwrap();
                        assert(self.entries@[q].0@ == k);
                        if p < q {
                            assert(self.entries@[p].0@ != self.entries@[q].0@);
                        } else if q < p {
                            assert(self.entries@[q].0@ != self.entries@[p].0@);
                        }
                    }
                    assert(self.position(name@) == Some(last)) by {
                        let p = self.position(name@).unwrap();
                        if p < last {
                            assert(before.entries@[p].0@ == name@);
                        }
                    }
                    assert(self@ =~= before@.insert(name@, value@));
                }
            },
        }
    }

    /// Sets every header of `other`, over whatever was there under its name.
    pub fn extend(&mut self, other: &Headers)
        ensures
            final(self)@ == old(self)@.union_prefer_right(other@),
    {
        proof {
            use_type_invariant(other);
            other.lemma_pairs();
        }
        let mut i: usize = 0;
        while i < other.entries.len()
            invariant
                i <= other.entries@.len(),
                other.distinct(),
                forall|k: Seq<char>|
                    self@.contains_key(k) <==> (old(self)@.contains_key(k) || exists|j: int|
                        0 <= j < i && other.entries@[j].0@ == k),
                forall|k: Seq<char>, j: int|
                    0 <= j < i && other.entries@[j].0@ == k ==> self@[k] == other.entries@[j].1@,
                forall|k: Seq<char>|
                    self@.contains_key(k) && !(exists|j: int|
                        0 <= j < i && other.entries@[j].0@ == k) ==> self@[k] == old(self)@[k],
            decreases other.entries@.len() - i,
        {
            let ghost prev = self@;
            self.insert(other.entries[i].0.as_str(), other.entries[i].1.as_str());
            proof {
                let name = other.entries@[i as int].0@;
                assert(self@ == prev.insert(name, other.entries@[i as int].1@));
                assert forall|k: Seq<char>, j: int|
                    0 <= j < i + 1 && other.entries@[j].0@ == k implies self@[k]
                    == other.entries@[j].1@ by {
                    if j < i && k == name {
                        assert(other.entries@[j].0@ != other.entries@[i as int].0@);
                    }
                }
            }
            i += 1;
        }
        proof {
            let merged = old(self)@.union_prefer_right(other@);
            assert forall|k: Seq<char>| other@.contains_key(k) <==> exists|j: int|
                0 <= j < other.entries@.len() && other.entries@[j].0@ == k by {
                if other@.contains_key(k) {
                    let p = other.position(k).unwrap();
                    assert(other.entries@[p].0@ == k);
                }
            }
            assert forall|k: Seq<char>| self@.contains_key(k) implies self@[k] == merged[k] by {
                if other@.contains_key(k) {
                    let p = other.position(k).unwrap();
                    assert(other.entries@[p].0@ == k);
                    assert(self@[k] == other.entries@[p].1@);
                }
            }
            assert(self@ =~= merged);
        }
    }
}

impl Clone for Headers {
    /// A copy of these headers.
    fn clone(&self) -> (r: Headers)
        ensures
            r@ == self@,
    {
        let mut r = Headers::new();
        r.extend(self);
        assert(r@ =~= self@);
        r
    }
}

} // verus!
