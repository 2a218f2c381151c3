//! The bootstrap untyped pool.
//!
//! The bootstrap collaborator hands the process its initial memory grant
//! as a set of untyped regions.  The allocator is an explicitly passed
//! context object over that pool: callers draw regions of a requested
//! size from it, each at most once.

use vstd::prelude::*;

verus! {

use crate::cap::Cap;
use crate::cap::Untyped;

/// A pool entry holds a region of the requested size.
pub open spec fn has_size(o: Option<Cap<Untyped>>, size_bits: u8) -> bool {
    match o {
        Some(u) => u.cap_data.size_bits == size_bits,
        None => false,
    }
}

/// The pool of initial untyped regions.  A drawn region leaves a hole,
/// so it can never be handed out twice.
#[derive(Debug)]
pub struct Allocator {
    pub untypeds: Vec<Option<Cap<Untyped>>>,
}

impl Allocator {
    /// Wrap the initial memory grant.
    pub fn bootstrap(grant: Vec<Cap<Untyped>>) -> (a: Allocator)
        ensures
            a.untypeds@.len() == grant@.len(),
            forall|j: int|
                0 <= j < grant@.len() ==> #[trigger] a.untypeds@[j] == Some(grant@[j]),
    {
        let mut grant = grant;
        let mut pool: Vec<Option<Cap<Untyped>>> = Vec::new();
        let ghost items = grant@;
        let n = grant.len();
        let mut i: usize = 0;
        while i < n
            invariant
                i <= n,
                n == items.len(),
                grant@ == items.skip(i as int),
                pool@.len() == i,
                forall|j: int| 0 <= j < i ==> #[trigger] pool@[j] == Some(items[j]),
            decreases n - i,
        {
            proof {
                assert(grant@[0] == items[i as int]);
                assert(grant@.drop_first() =~= items.skip(i as int + 1));
            }
            let ut = grant.remove(0);
            pool.push(Some(ut));
            i += 1;
        }
        Allocator { untypeds: pool }
    }

    /// Draw a region of exactly `size_bits` from the pool: the pool entry
    /// it came from becomes a hole.  `None` exactly when no entry of that
    /// size is left; the pool is then unchanged.
    pub fn get_untyped(&mut self, size_bits: u8) -> (r: Option<Cap<Untyped>>)
        ensures
            final(self).untypeds@.len() == old(self).untypeds@.len(),
            r matches Some(_) <==> (exists|j: int|
                0 <= j < old(self).untypeds@.len() && has_size(
                    #[trigger] old(self).untypeds@[j],
                    size_bits,
                )),
            match r {
                Some(ut) => {
                    &&& ut.cap_data.size_bits == size_bits
                    &&& (exists|j: int|
                        0 <= j < old(self).untypeds@.len() && old(self).untypeds@[j] == Some(ut)
                            && final(self).untypeds@ == old(self).untypeds@.update(j, None))
                },
                None => final(self).untypeds@ == old(self).untypeds@,
            },
    {
        let n = self.untypeds.len();
        let mut i: usize = 0;
        while i < n
            invariant
                i <= n,
                n == self.untypeds@.len(),
                *self == *old(self),
                forall|j: int| 0 <= j < i ==> !has_size(#[trigger] self.untypeds@[j], size_bits),
            decreases n - i,
        {
            let hit = match &self.untypeds[i] {
                Some(u) => u.cap_data.size_bits == size_bits,
                None => false,
            };
            if hit {
                let mut taken: Option<Cap<Untyped>> = None;
                core::mem::swap(&mut taken, &mut self.untypeds[i]);
                proof {
                    assert(self.untypeds@ =~= old(self).untypeds@.update(i as int, None));
                }
                return taken;
            }
            i += 1;
        }
        None
    }
}

} // verus!
