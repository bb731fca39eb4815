//! A bounded, insertion-ordered set of recently reported block hashes.
use std::collections::VecDeque;
use vstd::prelude::*;

use crate::block::{copy_hash, hashes_equal, BlockHash};

verus! {

/// How many reported hashes the import watcher remembers.
pub const MAX_BLOCKS_TO_TRACK: usize = 100;

/// Whether no hash occurs twice in `s`.
pub open spec fn distinct(s: Seq<Seq<u8>>) -> bool {
    forall|i: int, j: int| 0 <= i < j < s.len() ==> s[i] != s[j]
}

/// The remembered hashes after `h` is offered to a cache of `capacity` holding `s`:
/// unchanged when `h` is there, else `h` appended and, past the capacity, the oldest
/// hash dropped.
pub open spec fn after_insert(s: Seq<Seq<u8>>, h: Seq<u8>, capacity: nat) -> Seq<Seq<u8>> {
    if s.contains(h) {
        s
    } else if s.len() + 1 > capacity {
        s.push(h).drop_first()
    } else {
        s.push(h)
    }
}

/// Offering a hash already remembered changes nothing. Offering a new one to a full
/// cache forgets exactly the oldest hash and keeps the size at the capacity; below
/// the capacity it is only appended. Either way no hash is remembered twice.
pub proof fn lemma_insert_bounded(s: Seq<Seq<u8>>, h: Seq<u8>, capacity: nat)
    requires
        capacity > 0,
        s.len() <= capacity,
        distinct(s),
    ensures
        s.contains(h) ==> after_insert(s, h, capacity) == s,
        !s.contains(h) && s.len() == capacity ==> after_insert(s, h, capacity) == s.drop_first().push(h),
        !s.contains(h) && s.len() < capacity ==> after_insert(s, h, capacity) == s.push(h),
        after_insert(s, h, capacity).len() <= capacity,
        after_insert(s, h, capacity).contains(h),
        distinct(after_insert(s, h, capacity)),
{
    if !s.contains(h) {
        let t = s.push(h);
        assert(t[t.len() - 1] == h);
        if s.len() == capacity {
            assert(t.drop_first() =~= s.drop_first().push(h));
            assert(t.drop_first()[t.drop_first().len() - 1] == h);
        }
    }
}

/// The hashes of the last blocks reported, oldest first, at most `capacity` of them.
pub struct RecentBlocks {
    hashes: VecDeque<BlockHash>,
    capacity: usize,
}

impl View for RecentBlocks {
    type V = Seq<Seq<u8>>;

    closed spec fn view(&self) -> Seq<Seq<u8>> {
        self.hashes@.map_values(|h: BlockHash| h@)
    }
}

impl RecentBlocks {
    /// The number of hashes kept at most.
    pub closed spec fn spec_capacity(&self) -> nat {
        self.capacity as nat
    }

    /// At least one hash is kept, never more than the capacity, and none twice.
    pub open spec fn wf(&self) -> bool {
        &&& self.spec_capacity() > 0
        &&& self@.len() <= self.spec_capacity()
        &&& distinct(self@)
    }

    /// An empty cache that keeps the `capacity` hashes seen last.
    pub fn new(capacity: usize) -> (r: RecentBlocks)
        requires
            capacity > 0,
        ensures
            r.wf(),
            r@ == Seq::<Seq<u8>>::empty(),
            r.spec_capacity() == capacity,
    {
        let r = RecentBlocks { hashes: VecDeque::new(), capacity };
        assert(r@ =~= Seq::<Seq<u8>>::empty());
        r
    }

    pub fn capacity(&self) -> (r: usize)
        ensures
            r == self.spec_capacity(),
    {
        self.capacity
    }

    pub fn len(&self) -> (r: usize)
        ensures
            r == self@.len(),
    {
        self.hashes.len()
    }

    /// Whether `h` is among the remembered hashes.
    pub fn contains(&self, h: &[u8]) -> (r: bool)
        ensures
            r == self@.contains(h@),
    {
        let mut i: usize = 0;
        while i < self.hashes.len()
            invariant
                0 <= i <= self@.len(),
                self@.len() == self.hashes@.len(),
                forall|k: int| 0 <= k < i ==> self@[k] != h@,
            decreases self@.len() - i,
        {
            if hashes_equal(self.hashes[i].as_slice(), h) {
                assert(self@[i as int] == h@);
                return true;
            }
            i += 1;
        }
        false
    }

    /// Offers `h`: a hash already remembered leaves the cache as it is and gives
    /// `false`; a new one is remembered, the oldest is forgotten once more than the
    /// capacity would be kept, and `true` comes back.
    pub fn insert(&mut self, h: &[u8]) -> (r: bool)
        requires
            old(self).wf(),
        ensures
            final(self).wf(),
            final(self).spec_capacity() == old(self).spec_capacity(),
            r == !old(self)@.contains(h@),
            final(self)@ == after_insert(old(self)@, h@, old(self).spec_capacity()),
    {
        if self.contains(h) {
            return false;
        }
        let ghost before = self@;
        self.hashes.push_back(copy_hash(h));
        assert(self@ =~= before.push(h@));
        if self.hashes.len() > self.capacity {
            let _ = self.hashes.pop_front();
            assert(self@ =~= before.push(h@).drop_first());
        }
        assert(distinct(self@)) by {
            assert(distinct(before.push(h@)));
        }
        true
    }
}

} // verus!
