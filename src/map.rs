//! An insertion-ordered dictionary: entries stay in the order they were
//! inserted, and a hash index finds the latest entry of a key in O(1).
use std::collections::HashMap;
use std::hash::Hash;
use vstd::prelude::*;
use vstd::pervasive::strictly_cloned;
use vstd::std_specs::hash::obeys_key_model;

verus! {

broadcast use vstd::std_specs::hash::group_hash_axioms;

/// Cloning a key gives that very key back.
pub open spec fn clones_exactly<K: Clone>() -> bool {
    forall|a: K, b: K| #[trigger] strictly_cloned(a, b) ==> a == b
}

/// Keys of type `usize` are cloned exactly.
pub proof fn lemma_usize_clones_exactly()
    ensures
        clones_exactly::<usize>(),
{
}

#[derive(Clone, Debug)]
pub struct OrderedHashMap<K, V> where K: Hash + Eq + Clone {
    pub vals: Vec<V>,
    pub keys: Vec<K>,
    pub map: HashMap<K, usize>,
}

impl<K, V> OrderedHashMap<K, V> where K: Hash + Eq + Clone {
    /// One key per value; the index holds exactly the keys of the entries,
    /// each at the position of its last entry.
    pub open spec fn wf(&self) -> bool {
        &&& self.keys@.len() == self.vals@.len()
        &&& forall|k: K| #[trigger]
            self.map@.contains_key(k) ==> {
                let i = self.map@[k] as int;
                &&& i < self.keys@.len()
                &&& self.keys@[i] == k
                &&& forall|j: int| i < j < self.keys@.len() ==> self.keys@[j] != k
            }
        &&& forall|j: int| 0 <= j < self.keys@.len() ==> self.map@.contains_key(#[trigger] self.keys@[j])
    }

    /// What `get` finds: each indexed key with the value of its latest entry.
    pub open spec fn view(&self) -> Map<K, V> {
        Map::new(|k: K| self.map@.contains_key(k), |k: K| self.vals@[self.map@[k] as int])
    }

    pub fn new() -> (r: OrderedHashMap<K, V>)
        ensures
            r.wf(),
            r.vals@ == Seq::<V>::empty(),
            r.keys@ == Seq::<K>::empty(),
            r.map@ == Map::<K, usize>::empty(),
    {
        OrderedHashMap { vals: Vec::new(), keys: Vec::new(), map: HashMap::new() }
    }

    /// Appends the entry and makes it the one that `k` finds; returns its position.
    pub fn insert(&mut self, k: K, v: V) -> (r: usize)
        requires
            obeys_key_model::<K>(),
            clones_exactly::<K>(),
            old(self).wf(),
        ensures
            final(self).wf(),
            r == old(self).vals@.len(),
            final(self).vals@ == old(self).vals@.push(v),
            final(self).keys@ == old(self).keys@.push(k),
            final(self).map@ == old(self).map@.insert(k, r),
            final(self)@ == old(self)@.insert(k, v),
    {
        let ghost old_keys = self.keys@;
        let kc = k.clone();
        assert(strictly_cloned(k, kc));
        self.keys.push(kc);
        self.vals.push(v);
        let i = self.vals.len() - 1;
        self.map.insert(k, i);
        assert(self.keys@ =~= old_keys.push(k));
        assert(self@ =~= old(self)@.insert(k, v));
        i
    }

    /// The value of the latest entry of `k`, if there is one.
    pub fn get(&self, k: &K) -> (r: Option<&V>)
        requires
            obeys_key_model::<K>(),
            self.wf(),
        ensures
            match r {
                Some(v) => self@.contains_key(*k) && *v == self@[*k],
                None => !self@.contains_key(*k),
            },
    {
        match self.map.get(k) {
            None => None,
            Some(v) => Some(&self.vals[*v]),
        }
    }
}

} // verus!
