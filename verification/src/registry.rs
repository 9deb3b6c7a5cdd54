//! The mutexes that an environment has opened, by name.

use vstd::prelude::*;

verus! {

/// Maps each opened mutex name to the address of the mutex in shared memory.
pub struct MutexRegistry {
    entries: Vec<(String, usize)>,
    map: Ghost<Map<Seq<char>, usize>>,
}

impl View for MutexRegistry {
    type V = Map<Seq<char>, usize>;

    closed spec fn view(&self) -> Map<Seq<char>, usize> {
        self.map@
    }
}

impl MutexRegistry {
    /// The entries agree with the map: each name occurs once, and the map
    /// holds exactly the entries.
    pub closed spec fn wf(&self) -> bool {
        &&& forall|i: int|
            0 <= i < self.entries@.len() ==> #[trigger] self.map@.contains_key(
                self.entries@[i].0@,
            ) && self.map@[self.entries@[i].0@] == self.entries@[i].1
        &&& forall|i: int, j: int|
            0 <= i < self.entries@.len() && 0 <= j < self.entries@.len() && i != j
                ==> #[trigger] self.entries@[i].0@ != #[trigger] self.entries@[j].0@
        &&& forall|k: Seq<char>|
            #[trigger] self.map@.contains_key(k) ==> exists|i: int|
                0 <= i < self.entries@.len() && #[trigger] self.entries@[i].0@ == k
    }

    /// A registry with no mutex.
    pub fn new() -> (r: Self)
        ensures
            r.wf(),
            r@ == Map::<Seq<char>, usize>::empty(),
    {
        MutexRegistry { entries: Vec::new(), map: Ghost(Map::empty()) }
    }

    fn position(&self, name: &String) -> (r: Option<usize>)
        requires
            self.wf(),
        ensures
            match r {
                Some(i) => i < self.entries@.len() && self.entries@[i as int].0@ == name@,
                None => !self@.contains_key(name@),
            },
    {
        let n = self.entries.len();
        let mut i: usize = 0;
        while i < n
            invariant
                self.wf(),
                n == self.entries@.len(),
                i <= n,
                forall|j: int| 0 <= j < i ==> #[trigger] self.entries@[j].0@ != name@,
            decreases n - i,
        {
            if self.entries[i].0 == *name {
                return Some(i);
            }
            i = i + 1;
        }
        proof {
            if self@.contains_key(name@) {
                let k = choose|k: int|
                    0 <= k < self.entries@.len() && #[trigger] self.entries@[k].0@ == name@;
                assert(self.entries@[k].0@ != name@);
            }
        }
        None
    }

    /// The address of the mutex opened under `name`, if one was.
    pub fn get(&self, name: &str) -> (r: Option<usize>)
        requires
            self.wf(),
        ensures
            r == (if self@.contains_key(name@) {
                Some(self@[name@])
            } else {
                None::<usize>
            }),
    {
        let key = String::from_str(name);
        match self.position(&key) {
            Some(i) => Some(self.entries[i].1),
            None => None,
        }
    }

    /// Records that the mutex opened under `name` lies at `handle`.
    pub fn insert(&mut self, name: &str, handle: usize)
        requires
            old(self).wf(),
        ensures
            final(self).wf(),
            final(self)@ == old(self)@.insert(name@, handle),
    {
        let key = String::from_str(name);
        match self.position(&key) {
            Some(i) => {
                self.entries.set(i, (key, handle));
            },
            None => {
                self.entries.push((key, handle));
            },
        }
        proof {
            self.map@ = self.map@.insert(name@, handle);
        }
        assert forall|k: Seq<char>| #[trigger] self.map@.contains_key(k) implies exists|i: int|
            0 <= i < self.entries@.len() && #[trigger] self.entries@[i].0@ == k by {
            if k == name@ {
                let n = self.entries@.len();
                if old(self).map@.contains_key(k) {
                    let j = choose|j: int|
                        0 <= j < old(self).entries@.len() && #[trigger] old(self).entries@[j].0@
                            == k;
                    assert(self.entries@[j].0@ == k);
                } else {
                    assert(self.entries@[n - 1].0@ == k);
                }
            } else {
                let j = choose|j: int|
                    0 <= j < old(self).entries@.len() && #[trigger] old(self).entries@[j].0@ == k;
                assert(self.entries@[j].0@ == k);
            }
        }
    }
}

} // verus!
