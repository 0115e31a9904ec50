//! The request-scoped allocation model.
//!
//! The extension routes general-purpose allocation through the host's
//! per-request memory arena; that arena's lifetime is bound to one host
//! request, so this path is unsuitable for memory that must outlive a
//! request, and its primary use is diagnostic: tracing leaks within a
//! request boundary. [`RequestArena`] is the bookkeeping of that arena:
//! which blocks are live, under unique identifiers, so a leak is exactly a
//! nonzero live count at request end.

use vstd::prelude::*;

verus! {

/// Marker for the allocator that delegates to the host's request-scoped
/// memory-management entry points (the delegation itself lives with the
/// embedding; the bookkeeping model is [`RequestArena`]).
#[derive(Debug, Default)]
pub struct PhpAllocator {}

impl PhpAllocator {
    /// Creates a new host-arena allocator marker.
    pub fn new() -> (r: Self)
        ensures
            r == (PhpAllocator {  }),
    {
        PhpAllocator {  }
    }
}

/// One live allocation of the request arena.
#[derive(Debug, Clone, Copy, PartialEq, Eq, Structural)]
pub struct AllocRecord {
    pub id: u64,
    pub size: u64,
}

/// Bookkeeping of one request's arena: the live blocks, each under an
/// identifier never handed out twice within the request.
#[derive(Debug)]
pub struct RequestArena {
    pub live: Vec<AllocRecord>,
    pub next_id: u64,
}

impl RequestArena {
    /// Identifiers are unique and below the next one to be handed out.
    pub open spec fn wf(self) -> bool {
        &&& forall|i: int|
            0 <= i < self.live@.len() ==> (#[trigger] self.live@[i]).id < self.next_id
        &&& forall|i: int, j: int|
            #![trigger self.live@[i], self.live@[j]]
            0 <= i < j < self.live@.len() ==> self.live@[i].id != self.live@[j].id
    }

    /// Opens the arena of a fresh request: nothing live.
    pub fn new() -> (r: Self)
        ensures
            r.live@.len() == 0,
            r.next_id == 0,
            r.wf(),
    {
        RequestArena { live: Vec::new(), next_id: 0 }
    }

    /// Records one allocation and returns its identifier; `None` once the
    /// identifier space of the request is exhausted.
    pub fn allocate(&mut self, size: u64) -> (r: Option<u64>)
        requires
            old(self).wf(),
        ensures
            final(self).wf(),
            old(self).next_id == u64::MAX ==> r is None && *final(self) == *old(self),
            old(self).next_id < u64::MAX ==> (r == Some(old(self).next_id) && final(self).live@ == old(
                self,
            ).live@.push(AllocRecord { id: old(self).next_id, size }) && final(self).next_id == old(
                self,
            ).next_id + 1),
    {
        if self.next_id == u64::MAX {
            return None;
        }
        let id = self.next_id;
        self.live.push(AllocRecord { id, size });
        self.next_id = self.next_id + 1;
        Some(id)
    }

    /// Releases the block with the given identifier. Returns whether it was
    /// live; a stale or foreign identifier leaves the arena unchanged.
    pub fn deallocate(&mut self, id: u64) -> (r: bool)
        requires
            old(self).wf(),
        ensures
            final(self).wf(),
            final(self).next_id == old(self).next_id,
            r == (exists|i: int| 0 <= i < old(self).live@.len() && (#[trigger] old(
                self,
            ).live@[i]).id == id),
            r ==> (exists|i: int|
                0 <= i < old(self).live@.len() && (#[trigger] old(self).live@[i]).id == id
                    && final(self).live@ == old(self).live@.remove(i)),
            !r ==> *final(self) == *old(self),
    {
        let mut i: usize = 0;
        while i < self.live.len()
            invariant
                i <= self.live@.len(),
                *self == *old(self),
                old(self).wf(),
                forall|j: int| 0 <= j < i ==> (#[trigger] self.live@[j]).id != id,
            decreases self.live@.len() - i,
        {
            if self.live[i].id == id {
                proof {
                    assert((i as int) < old(self).live@.len() && (#[trigger] old(
                        self,
                    ).live@[i as int]).id == id);
                }
                self.live.remove(i);
                proof {
                    let s0 = old(self).live@;
                    let s1 = self.live@;
                    assert(s1 == s0.remove(i as int));
                    assert forall|k: int| 0 <= k < s1.len() implies (#[trigger] s1[k]).id
                        < self.next_id by {
                        if k < i as int {
                            assert(s1[k] == s0[k]);
                        } else {
                            assert(s1[k] == s0[k + 1]);
                        }
                    }
                    assert forall|x: int, y: int|
                        #![trigger s1[x], s1[y]]
                        0 <= x < y < s1.len() implies s1[x].id != s1[y].id by {
                        let ox: int = if x < i as int {
                            x
                        } else {
                            x + 1
                        };
                        let oy: int = if y < i as int {
                            y
                        } else {
                            y + 1
                        };
                        assert(s1[x] == s0[ox]);
                        assert(s1[y] == s0[oy]);
                    }
                }
                return true;
            }
            i = i + 1;
        }
        false
    }

    /// How many blocks are still live: the request's leak count when read
    /// at request end.
    pub fn live_count(&self) -> (n: usize)
        ensures
            n == self.live@.len(),
    {
        self.live.len()
    }
}

} // verus!
