//! One slot per signing identity.
//!
//! Runs that share a secret key must share one signer, whose sequence number
//! has to stay in step with the service. The registry hands out one slot per
//! distinct key; the caller keeps the signer of each slot behind a lock.

use vstd::prelude::*;

verus! {

/// Whether two byte strings are equal.
pub fn bytes_equal(a: &Vec<u8>, b: &Vec<u8>) -> (r: bool)
    ensures
        r == (a@ == b@),
{
    if a.len() != b.len() {
        return false;
    }
    let mut i: usize = 0;
    while i < a.len()
        invariant
            a@.len() == b@.len(),
            i <= a@.len(),
            forall|j: int| 0 <= j < i ==> a@[j] == b@[j],
        decreases a@.len() - i,
    {
        if a[i] != b[i] {
            return false;
        }
        i += 1;
    }
    assert(a@ =~= b@);
    true
}

pub struct IdentityRegistry {
    keys: Vec<Vec<u8>>,
}

impl IdentityRegistry {
    /// The key of each slot, in order of registration.
    pub closed spec fn keys(&self) -> Seq<Seq<u8>> {
        self.keys@.map_values(|k: Vec<u8>| k@)
    }

    pub open spec fn wf(&self) -> bool {
        self.keys().no_duplicates()
    }

    pub fn new() -> (r: IdentityRegistry)
        ensures
            r.wf(),
            r.keys() == Seq::<Seq<u8>>::empty(),
    {
        let r = IdentityRegistry { keys: Vec::new() };
        assert(r.keys() =~= Seq::<Seq<u8>>::empty());
        r
    }

    /// The slot of `key`, if it is registered.
    pub fn lookup(&self, key: &Vec<u8>) -> (r: Option<usize>)
        requires
            self.wf(),
        ensures
            match r {
                Some(i) => i < self.keys().len() && self.keys()[i as int] == key@,
                None => !self.keys().contains(key@),
            },
    {
        let mut i: usize = 0;
        while i < self.keys.len()
            invariant
                i <= self.keys@.len(),
                forall|j: int| 0 <= j < i ==> self.keys()[j] != key@,
            decreases self.keys@.len() - i,
        {
            if bytes_equal(&self.keys[i], key) {
                return Some(i);
            }
            i += 1;
        }
        None
    }

    /// The slot of `key`, registering it first if it is new. The flag tells
    /// whether it was new.
    pub fn lookup_or_register(&mut self, key: Vec<u8>) -> (r: (usize, bool))
        requires
            old(self).wf(),
        ensures
            final(self).wf(),
            r.0 < final(self).keys().len(),
            final(self).keys()[r.0 as int] == key@,
            r.1 == !old(self).keys().contains(key@),
            r.1 ==> final(self).keys() == old(self).keys().push(key@),
            !r.1 ==> final(self).keys() == old(self).keys(),
    {
        match self.lookup(&key) {
            Some(i) => (i, false),
            None => {
                let ghost before = self.keys();
                let ghost k = key@;
                self.keys.push(key);
                assert(self.keys() =~= before.push(k));
                (self.keys.len() - 1, true)
            },
        }
    }
}

} // verus!
