//! Maps from text to text: metadata, form parameters and headers.
use crate::text::same;
use vstd::prelude::*;

verus! {

/// The keys and values of a sequence of entries.
pub open spec fn pairs(entries: Seq<(String, String)>) -> Seq<(Seq<char>, Seq<char>)> {
    entries.map_values(|e: (String, String)| (e.0@, e.1@))
}

/// Whether no key occurs twice.
pub open spec fn distinct_keys(p: Seq<(Seq<char>, Seq<char>)>) -> bool {
    forall|i: int, j: int| 0 <= i < j < p.len() ==> (#[trigger] p[i]).0 != (#[trigger] p[j]).0
}

/// The map that the pairs make up.
pub open spec fn map_of(p: Seq<(Seq<char>, Seq<char>)>) -> Map<Seq<char>, Seq<char>>
    decreases p.len(),
{
    if p.len() == 0 {
        Map::empty()
    } else {
        map_of(p.drop_last()).insert(p.last().0, p.last().1)
    }
}

/// The keys of the map are those of the pairs, and each has the value that stands with it.
pub proof fn lemma_map_of(p: Seq<(Seq<char>, Seq<char>)>)
    requires
        distinct_keys(p),
    ensures
        forall|i: int|
            0 <= i < p.len() ==> map_of(p).dom().contains((#[trigger] p[i]).0) && map_of(p)[p[i].0] == p[i].1,
        forall|k: Seq<char>| #[trigger]
            map_of(p).dom().contains(k) ==> exists|i: int| 0 <= i < p.len() && (#[trigger] p[i]).0 == k,
        map_of(p).dom().finite(),
        map_of(p).dom().len() == p.len(),
    decreases p.len(),
{
    if p.len() > 0 {
        let q = p.drop_last();
        assert(distinct_keys(q)) by {
            assert forall|i: int, j: int| 0 <= i < j < q.len() implies (#[trigger] q[i]).0 != (#[trigger] q[j]).0 by {
                assert(p[i].0 != p[j].0);
            }
        }
        lemma_map_of(q);
        let last = p.last();
        assert(!map_of(q).dom().contains(last.0)) by {
            if map_of(q).dom().contains(last.0) {
                let i = choose|i: int| 0 <= i < q.len() && (#[trigger] q[i]).0 == last.0;
                assert(p[i].0 != p[p.len() - 1].0);
            }
        }
        assert forall|i: int| 0 <= i < p.len() implies map_of(p).dom().contains((#[trigger] p[i]).0) && map_of(p)[p[i].0]
            == p[i].1 by {
            if i < q.len() {
                assert(q[i] == p[i]);
                assert(p[i].0 != p[p.len() - 1].0);
            }
        }
        assert forall|k: Seq<char>| #[trigger] map_of(p).dom().contains(k) implies exists|i: int|
            0 <= i < p.len() && (#[trigger] p[i]).0 == k by {
            if k == last.0 {
                assert(p[p.len() - 1].0 == k);
            } else {
                let i = choose|i: int| 0 <= i < q.len() && (#[trigger] q[i]).0 == k;
                assert(p[i].0 == k);
            }
        }
        assert(map_of(p).dom() =~= map_of(q).dom().insert(last.0));
    } else {
        assert(map_of(p).dom() =~= Set::<Seq<char>>::empty());
    }
}

/// A map from text to text.
#[derive(Debug)]
pub struct StringMap {
    entries: Vec<(String, String)>,
}

impl View for StringMap {
    type V = Map<Seq<char>, Seq<char>>;

    closed spec fn view(&self) -> Map<Seq<char>, Seq<char>> {
        map_of(pairs(self.entries@))
    }
}

impl Default for StringMap {
    fn default() -> (r: Self)
        ensures
            r@ == Map::<Seq<char>, Seq<char>>::empty(),
    {
        StringMap::new()
    }
}

impl Clone for StringMap {
    fn clone(&self) -> (r: Self)
        ensures
            r@ == self@,
            r.listed() == self.listed(),
    {
        let mut entries: Vec<(String, String)> = Vec::new();
        let mut i: usize = 0;
        while i < self.entries.len()
            invariant
                i <= self.entries.len(),
                pairs(entries@) == pairs(self.entries@).take(i as int),
            decreases self.entries.len() - i,
        {
            let ghost before = pairs(entries@);
            entries.push((self.entries[i].0.clone(), self.entries[i].1.clone()));
            proof {
                assert(pairs(entries@) =~= before.push(pairs(self.entries@)[i as int]));
                assert(pairs(self.entries@).take(i as int + 1) =~= before.push(pairs(self.entries@)[i as int]));
            }
            i += 1;
        }
        proof {
            use_type_invariant(self);
            assert(pairs(self.entries@).take(self.entries@.len() as int) =~= pairs(self.entries@));
        }
        StringMap { entries }
    }
}

impl StringMap {
    #[verifier::type_invariant]
    spec fn well_formed(self) -> bool {
        distinct_keys(pairs(self.entries@))
    }

    /// An empty map.
    pub fn new() -> (r: Self)
        ensures
            r@ == Map::<Seq<char>, Seq<char>>::empty(),
    {
        let entries: Vec<(String, String)> = Vec::new();
        proof {
            assert(pairs(entries@) =~= Seq::<(Seq<char>, Seq<char>)>::empty());
        }
        StringMap { entries }
    }

    /// The keys and values, in the order in which the keys were first put in.
    pub closed spec fn listed(&self) -> Seq<(Seq<char>, Seq<char>)> {
        pairs(self.entries@)
    }

    /// The entries, each key once.
    pub fn entries(&self) -> (r: &Vec<(String, String)>)
        ensures
            pairs(r@) == self.listed(),
            distinct_keys(self.listed()),
            map_of(self.listed()) == self@,
    {
        proof {
            use_type_invariant(self);
        }
        &self.entries
    }

    /// The position of the entry for `key`, or the number of entries where there is none.
    fn position(&self, key: &str) -> (r: usize)
        ensures
            r <= self.entries.len(),
            r < self.entries.len() ==> self.entries@[r as int].0@ == key@ && self@.dom().contains(key@) && self@[key@]
                == self.entries@[r as int].1@,
            r == self.entries.len() ==> !self@.dom().contains(key@),
    {
        proof {
            use_type_invariant(self);
            lemma_map_of(pairs(self.entries@));
        }
        let ghost p = pairs(self.entries@);
        let mut i: usize = 0;
        while i < self.entries.len()
            invariant
                i <= self.entries.len(),
                p == pairs(self.entries@),
                self@ == map_of(p),
                forall|j: int| 0 <= j < p.len() ==> map_of(p).dom().contains((#[trigger] p[j]).0) && map_of(p)[p[j].0]
                    == p[j].1,
                forall|j: int| 0 <= j < i ==> (#[trigger] p[j]).0 != key@,
            decreases self.entries.len() - i,
        {
            proof {
                assert(p[i as int] == (self.entries@[i as int].0@, self.entries@[i as int].1@));
            }
            if same(&self.entries[i].0, key) {
                return i;
            }
            i += 1;
        }
        i
    }

    /// The value under `key`.
    pub fn get(&self, key: &str) -> (r: Option<&String>)
        ensures
            match r {
                Some(v) => self@.dom().contains(key@) && self@[key@] == v@,
                None => !self@.dom().contains(key@),
            },
    {
        let i: usize = self.position(key);
        if i < self.entries.len() {
            Some(&self.entries[i].1)
        } else {
            None
        }
    }

    /// Puts `value` under `key`, in place of what was there.
    pub fn insert(&mut self, key: String, value: String)
        ensures
            final(self)@ == old(self)@.insert(key@, value@),
    {
        proof {
            use_type_invariant(&*self);
            lemma_map_of(pairs(self.entries@));
        }
        let i: usize = self.position(&key);
        let ghost p = pairs(self.entries@);
        let mut entries: Vec<(String, String)> = Vec::new();
        std::mem::swap(&mut entries, &mut self.entries);
        if i < entries.len() {
            entries.set(i, (key, value));
            proof {
                let q = pairs(entries@);
                assert(q =~= p.update(i as int, (key@, value@)));
                assert(p[i as int].0 == key@);
                assert forall|a: int, b: int| 0 <= a < b < q.len() implies (#[trigger] q[a]).0 != (#[trigger] q[b]).0 by {
                    assert(p[a].0 != p[b].0);
                }
                lemma_map_of(q);
                assert(map_of(q) =~= map_of(p).insert(key@, value@)) by {
                    assert forall|k: Seq<char>| map_of(q).dom().contains(k) == map_of(p).insert(
                        key@,
                        value@,
                    ).dom().contains(k) by {
                        if map_of(q).dom().contains(k) {
                            let a = choose|a: int| 0 <= a < q.len() && (#[trigger] q[a]).0 == k;
                            assert(p[a].0 == k);
                        }
                        if map_of(p).dom().contains(k) {
                            let a = choose|a: int| 0 <= a < p.len() && (#[trigger] p[a]).0 == k;
                            assert(q[a].0 == k);
                        }
                        assert(q[i as int].0 == key@);
                    }
                    assert forall|k: Seq<char>| map_of(q).dom().contains(k) implies map_of(q)[k] == map_of(p).insert(
                        key@,
                        value@,
                    )[k] by {
                        let a = choose|a: int| 0 <= a < q.len() && (#[trigger] q[a]).0 == k;
                        assert(p[a].0 == k);
                        assert(q[i as int] == (key@, value@));
                        if a != i {
                            assert(q[a] == p[a]);
                        }
                    }
                }
            }
        } else {
            entries.push((key, value));
            proof {
                let q = pairs(entries@);
                assert(q =~= p.push((key@, value@)));
                assert(q.drop_last() =~= p);
                assert forall|a: int, b: int| 0 <= a < b < q.len() implies (#[trigger] q[a]).0 != (#[trigger] q[b]).0 by {
                    assert(q[a] == p[a]);
                    assert(map_of(p).dom().contains(p[a].0));
                    if b < p.len() {
                        assert(q[b] == p[b]);
                        assert(p[a].0 != p[b].0);
                    }
                }
            }
        }
        self.entries = entries;
    }

    /// The number of keys.
    pub fn len(&self) -> (r: usize)
        ensures
            r == self@.dom().len(),
            self@.dom().finite(),
    {
        proof {
            use_type_invariant(self);
            lemma_map_of(pairs(self.entries@));
        }
        self.entries.len()
    }

    /// Whether there is no key.
    pub fn is_empty(&self) -> (r: bool)
        ensures
            r == (self@ == Map::<Seq<char>, Seq<char>>::empty()),
    {
        proof {
            use_type_invariant(self);
            lemma_map_of(pairs(self.entries@));
            if self.entries@.len() == 0 {
                assert(pairs(self.entries@) =~= Seq::<(Seq<char>, Seq<char>)>::empty());
            } else {
                assert(self@.dom().contains(pairs(self.entries@)[0].0));
            }
        }
        self.entries.len() == 0
    }
}

} // verus!
