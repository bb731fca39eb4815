//! Block identifiers as the reporting logic sees them.
use vstd::prelude::*;

verus! {

/// A block hash, as its raw bytes.
pub type BlockHash = Vec<u8>;

/// A block as a number and a hash, in the mathematical model.
pub ghost struct BlockRef {
    pub number: u64,
    pub hash: Seq<u8>,
}

/// A block as a number and a hash: the best block, an ancestor, a reported block.
#[derive(Debug)]
pub struct BlockPointer {
    pub number: u64,
    pub hash: BlockHash,
}

impl View for BlockPointer {
    type V = BlockRef;

    open spec fn view(&self) -> BlockRef {
        BlockRef { number: self.number, hash: self.hash@ }
    }
}

impl Clone for BlockPointer {
    fn clone(&self) -> (r: BlockPointer)
        ensures
            r@ == self@,
    {
        BlockPointer { number: self.number, hash: copy_hash(&self.hash) }
    }
}

impl BlockPointer {
    pub fn new(number: u64, hash: BlockHash) -> (r: BlockPointer)
        ensures
            r@ == (BlockRef { number, hash: hash@ }),
    {
        BlockPointer { number, hash }
    }
}

/// An import notification, in the mathematical model.
pub ghost struct NotificationView {
    pub number: u64,
    pub hash: Seq<u8>,
    pub parent_hash: Seq<u8>,
    pub is_new_best: bool,
}

impl NotificationView {
    /// The block that the notification announces.
    pub open spec fn block(self) -> BlockRef {
        BlockRef { number: self.number, hash: self.hash }
    }
}

/// The announcement that a block was imported, and whether it became the new best block.
#[derive(Debug)]
pub struct ImportNotification {
    pub number: u64,
    pub hash: BlockHash,
    pub parent_hash: BlockHash,
    pub is_new_best: bool,
}

impl View for ImportNotification {
    type V = NotificationView;

    open spec fn view(&self) -> NotificationView {
        NotificationView {
            number: self.number,
            hash: self.hash@,
            parent_hash: self.parent_hash@,
            is_new_best: self.is_new_best,
        }
    }
}

impl ImportNotification {
    pub fn new(number: u64, hash: BlockHash, parent_hash: BlockHash, is_new_best: bool) -> (r:
        ImportNotification)
        ensures
            r@ == (NotificationView {
                number,
                hash: hash@,
                parent_hash: parent_hash@,
                is_new_best,
            }),
    {
        ImportNotification { number, hash, parent_hash, is_new_best }
    }

    /// The block that the notification announces.
    pub fn block(&self) -> (r: BlockPointer)
        ensures
            r@ == self@.block(),
    {
        BlockPointer { number: self.number, hash: copy_hash(&self.hash) }
    }
}

/// Whether two hashes hold the same bytes.
pub fn hashes_equal(a: &[u8], b: &[u8]) -> (r: bool)
    ensures
        r == (a@ == b@),
{
    if a.len() != b.len() {
        return false;
    }
    let mut i: usize = 0;
    while i < a.len()
        invariant
            a@.len() == b@.len(),
            0 <= i <= a@.len(),
            a@.subrange(0, i as int) == b@.subrange(0, i as int),
        decreases a@.len() - i,
    {
        if a[i] != b[i] {
            assert(a@[i as int] != b@[i as int]);
            return false;
        }
        assert(a@.subrange(0, i + 1) == a@.subrange(0, i as int).push(a@[i as int]));
        assert(b@.subrange(0, i + 1) == b@.subrange(0, i as int).push(b@[i as int]));
        i += 1;
    }
    assert(a@ == a@.subrange(0, a@.len() as int));
    assert(b@ == b@.subrange(0, b@.len() as int));
    true
}

/// A copy of a hash, byte for byte.
pub fn copy_hash(h: &[u8]) -> (r: BlockHash)
    ensures
        r@ == h@,
{
    let mut r: BlockHash = Vec::new();
    let mut i: usize = 0;
    while i < h.len()
        invariant
            0 <= i <= h@.len(),
            r@ == h@.subrange(0, i as int),
        decreases h@.len() - i,
    {
        r.push(h[i]);
        assert(h@.subrange(0, i + 1) == h@.subrange(0, i as int).push(h@[i as int]));
        i += 1;
    }
    assert(h@ == h@.subrange(0, h@.len() as int));
    r
}

} // verus!
