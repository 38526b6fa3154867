//! The memoising key-to-text store shared by the providers.
use vstd::prelude::*;

verus! {

/// `r` is what reading `key` from a cache holding `c` gives.
pub open spec fn read_back(r: Option<String>, c: Map<Seq<char>, Seq<char>>, key: Seq<char>) -> bool {
    match r {
        Some(v) => c.contains_key(key) && v@ == c[key],
        None => !c.contains_key(key),
    }
}

/// A key-to-text map with last-write-wins updates and no eviction.
#[derive(Clone)]
pub struct DocCache {
    entries: Vec<(String, String)>,
    model: Ghost<Map<Seq<char>, Seq<char>>>,
}

impl View for DocCache {
    type V = Map<Seq<char>, Seq<char>>;

    closed spec fn view(&self) -> Map<Seq<char>, Seq<char>> {
        self.model@
    }
}

impl DocCache {
    /// The stored pairs match the model one for one, and no key is stored twice.
    pub closed spec fn wf(&self) -> bool {
        &&& forall|i: int, j: int|
            0 <= i < j < self.entries@.len() ==> self.entries@[i].0@ != self.entries@[j].0@
        &&& forall|i: int|
            0 <= i < self.entries@.len() ==> #[trigger] self.model@.contains_key(
                self.entries@[i].0@,
            ) && self.model@[self.entries@[i].0@] == self.entries@[i].1@
        &&& forall|k: Seq<char>|
            #[trigger] self.model@.contains_key(k) ==> exists|i: int|
                0 <= i < self.entries@.len() && self.entries@[i].0@ == k
    }

    /// An empty cache.
    pub fn new() -> (r: DocCache)
        ensures
            r.wf(),
            r@ == Map::<Seq<char>, Seq<char>>::empty(),
    {
        DocCache { entries: Vec::new(), model: Ghost(Map::empty()) }
    }

    /// The text stored under `key`, if any.
    pub fn get(&self, key: &str) -> (r: Option<String>)
        requires
            self.wf(),
        ensures
            read_back(r, self@, key@),
    {
        let wanted = String::from_str(key);
        let mut i: usize = 0;
        while i < self.entries.len()
            invariant
                self.wf(),
                wanted@ == key@,
                i <= self.entries@.len(),
                forall|j: int| 0 <= j < i ==> self.entries@[j].0@ != key@,
            decreases self.entries@.len() - i,
        {
            if self.entries[i].0 == wanted {
                assert(self.model@.contains_key(self.entries@[i as int].0@));
                return Some(self.entries[i].1.clone());
            }
            i = i + 1;
        }
        None
    }

    /// Stores `value` under `key`, replacing what was there.
    pub fn set(&mut self, key: String, value: String)
        requires
            old(self).wf(),
        ensures
            final(self).wf(),
            final(self)@ == old(self)@.insert(key@, value@),
    {
        let ghost k = key@;
        let ghost v = value@;
        let mut i: usize = 0;
        while i < self.entries.len()
            invariant
                self.wf(),
                self == old(self),
                key@ == k,
                value@ == v,
                i <= self.entries@.len(),
                forall|j: int| 0 <= j < i ==> self.entries@[j].0@ != k,
            decreases self.entries@.len() - i,
        {
            if self.entries[i].0 == key {
                self.entries.set(i, (key, value));
                self.model = Ghost(self.model@.insert(k, v));
                assert forall|k2: Seq<char>| #[trigger] self.model@.contains_key(k2) implies exists|
                    j: int,
                | 0 <= j < self.entries@.len() && self.entries@[j].0@ == k2 by {
                    if k2 != k {
                        let j = choose|j: int|
                            0 <= j < old(self).entries@.len() && old(self).entries@[j].0@ == k2;
                        assert(self.entries@[j].0@ == k2);
                    } else {
                        assert(self.entries@[i as int].0@ == k2);
                    }
                }
                return;
            }
            i = i + 1;
        }
        self.entries.push((key, value));
        self.model = Ghost(self.model@.insert(k, v));
        assert forall|k2: Seq<char>| #[trigger] self.model@.contains_key(k2) implies exists|j: int|
            0 <= j < self.entries@.len() && self.entries@[j].0@ == k2 by {
            if k2 != k {
                let j = choose|j: int|
                    0 <= j < old(self).entries@.len() && old(self).entries@[j].0@ == k2;
                assert(self.entries@[j].0@ == k2);
            } else {
                assert(self.entries@[old(self).entries@.len() as int].0@ == k2);
            }
        }
    }
}

/// Reading a key never written gives nothing; reading after a write gives what was
/// written; a second write to the same key replaces the first.
pub proof fn lemma_last_write_wins(c: Map<Seq<char>, Seq<char>>, k: Seq<char>, v1: Seq<char>, v2: Seq<char>)
    ensures
        Map::<Seq<char>, Seq<char>>::empty().contains_key(k) == false,
        c.insert(k, v1).contains_key(k) && c.insert(k, v1)[k] == v1,
        c.insert(k, v1).insert(k, v2)[k] == v2,
        c.insert(k, v1).insert(k, v2) == c.insert(k, v2),
{
    assert(c.insert(k, v1).insert(k, v2) =~= c.insert(k, v2));
}

/// Writes to two different keys, in either order, leave both visible and give the
/// same cache: interleaving them loses neither.
pub proof fn lemma_disjoint_writes_commute(
    c: Map<Seq<char>, Seq<char>>,
    k1: Seq<char>,
    v1: Seq<char>,
    k2: Seq<char>,
    v2: Seq<char>,
)
    requires
        k1 != k2,
    ensures
        c.insert(k1, v1).insert(k2, v2) == c.insert(k2, v2).insert(k1, v1),
        c.insert(k1, v1).insert(k2, v2)[k1] == v1,
        c.insert(k1, v1).insert(k2, v2)[k2] == v2,
{
    assert(c.insert(k1, v1).insert(k2, v2) =~= c.insert(k2, v2).insert(k1, v1));
}

} // verus!
