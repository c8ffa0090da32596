//! A small map from strings to strings, kept as a list of distinct keys.
use vstd::prelude::*;
use crate::text::{chars_of, vec_eq};

verus! {

/// A map from strings to strings; no key occurs twice.
#[derive(Debug, Clone)]
pub struct StringMap {
    pub entries: Vec<(String, String)>,
}

impl StringMap {
    /// The entries as pairs of character sequences.
    pub open spec fn pairs(&self) -> Seq<(Seq<char>, Seq<char>)> {
        self.entries@.map_values(|e: (String, String)| (e.0@, e.1@))
    }

    /// No key occurs twice.
    pub open spec fn wf(&self) -> bool {
        forall|i: int, j: int| 0 <= i < j < self.pairs().len() ==> self.pairs()[i].0 != self.pairs()[j].0
    }

    /// The map that the entries stand for.
    pub open spec fn view(&self) -> Map<Seq<char>, Seq<char>> {
        Map::new(
            |k: Seq<char>| exists|i: int| 0 <= i < self.pairs().len() && self.pairs()[i].0 == k,
            |k: Seq<char>| self.pairs()[choose|i: int| 0 <= i < self.pairs().len() && self.pairs()[i].0 == k].1,
        )
    }

    /// The empty map.
    pub fn new() -> (r: Self)
        ensures
            r.wf(),
            r.view() == Map::<Seq<char>, Seq<char>>::empty(),
    {
        let r = StringMap { entries: Vec::new() };
        assert(r.view() =~= Map::<Seq<char>, Seq<char>>::empty());
        r
    }

    /// The position of `key`, if present.
    fn find(&self, key: &str) -> (r: Option<usize>)
        ensures
            match r {
                Some(i) => i < self.pairs().len() && self.pairs()[i as int].0 == key@,
                None => forall|i: int| 0 <= i < self.pairs().len() ==> self.pairs()[i].0 != key@,
            },
    {
        let kc = chars_of(key);
        let mut i: usize = 0;
        while i < self.entries.len()
            invariant
                i <= self.entries.len(),
                kc@ == key@,
                forall|k: int| 0 <= k < i ==> self.pairs()[k].0 != key@,
            decreases self.entries.len() - i,
        {
            let ec = chars_of(self.entries[i].0.as_str());
            assert(self.pairs()[i as int].0 == self.entries@[i as int].0@);
            if vec_eq(&ec, &kc) {
                return Some(i);
            }
            i = i + 1;
        }
        None
    }

    /// The value stored under `key`.
    pub fn get(&self, key: &str) -> (r: Option<&String>)
        requires
            self.wf(),
        ensures
            match r {
                Some(v) => self.view().contains_key(key@) && self.view()[key@] == v@,
                None => !self.view().contains_key(key@),
            },
    {
        match self.find(key) {
            Some(i) => {
                proof {
                    let j = choose|j: int| 0 <= j < self.pairs().len() && self.pairs()[j].0 == key@;
                    if j != i as int {
                        if j < i {
                        } else {
                        }
                    }
                    assert(j == i as int);
                }
                Some(&self.entries[i].1)
            },
            None => None,
        }
    }

    /// Stores `value` under `key`, replacing any earlier value.
    pub fn insert(&mut self, key: String, value: String)
        requires
            old(self).wf(),
        ensures
            final(self).wf(),
            final(self).view() == old(self).view().insert(key@, value@),
    {
        let ghost old_pairs = self.pairs();
        match self.find(key.as_str()) {
            Some(i) => {
                self.entries.set(i, (key, value));
                proof {
                    let np = self.pairs();
                    assert(np =~= old_pairs.update(i as int, (key@, value@)));
                    assert forall|a: int, b: int| 0 <= a < b < np.len() implies np[a].0 != np[b].0 by {
                        assert(old_pairs[a].0 != old_pairs[b].0);
                    }
                    assert forall|k: Seq<char>| #[trigger] self.view().contains_key(k) <==> old(self).view().insert(key@, value@).contains_key(k) by {
                        if self.view().contains_key(k) {
                            let j = choose|j: int| 0 <= j < np.len() && np[j].0 == k;
                            if j != i {
                                assert(old_pairs[j].0 == k);
                            }
                        }
                        if old(self).view().contains_key(k) {
                            let j = choose|j: int| 0 <= j < old_pairs.len() && old_pairs[j].0 == k;
                            if j != i {
                                assert(np[j].0 == k);
                            } else {
                                assert(np[j].0 == k);
                            }
                        }
                        if k == key@ {
                            assert(np[i as int].0 == k);
                        }
                    }
                    assert forall|k: Seq<char>| #[trigger] self.view().contains_key(k) implies self.view()[k] == old(self).view().insert(key@, value@)[k] by {
                        let j = choose|j: int| 0 <= j < np.len() && np[j].0 == k;
                        if k == key@ {
                            assert(np[i as int].0 == k);
                            assert(j == i);
                        } else {
                            let j2 = choose|j2: int| 0 <= j2 < old_pairs.len() && old_pairs[j2].0 == k;
                            assert(np[j2].0 == k);
                            assert(j == j2);
                        }
                    }
                    assert(self.view() =~= old(self).view().insert(key@, value@));
                }
            },
            None => {
                self.entries.push((key, value));
                proof {
                    let np = self.pairs();
                    assert(np =~= old_pairs.push((key@, value@)));
                    assert forall|a: int, b: int| 0 <= a < b < np.len() implies np[a].0 != np[b].0 by {
                        if b < old_pairs.len() {
                            assert(old_pairs[a].0 != old_pairs[b].0);
                        }
                    }
                    let n = old_pairs.len() as int;
                    assert forall|k: Seq<char>| #[trigger] self.view().contains_key(k) <==> old(self).view().insert(key@, value@).contains_key(k) by {
                        if self.view().contains_key(k) {
                            let j = choose|j: int| 0 <= j < np.len() && np[j].0 == k;
                            if j < n {
                                assert(old_pairs[j].0 == k);
                            }
                        }
                        if old(self).view().contains_key(k) {
                            let j = choose|j: int| 0 <= j < old_pairs.len() && old_pairs[j].0 == k;
                            assert(np[j].0 == k);
                        }
                        if k == key@ {
                            assert(np[n].0 == k);
                        }
                    }
                    assert forall|k: Seq<char>| #[trigger] self.view().contains_key(k) implies self.view()[k] == old(self).view().insert(key@, value@)[k] by {
                        let j = choose|j: int| 0 <= j < np.len() && np[j].0 == k;
                        if k == key@ {
                            assert(np[n].0 == k);
                            assert(j == n);
                        } else {
                            let j2 = choose|j2: int| 0 <= j2 < old_pairs.len() && old_pairs[j2].0 == k;
                            assert(np[j2].0 == k);
                            assert(j == j2);
                        }
                    }
                    assert(self.view() =~= old(self).view().insert(key@, value@));
                }
            },
        }
    }
}

} // verus!
