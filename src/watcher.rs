//! The block-import watcher: tracks the best block, detects reorganizations and
//! decides which imports to report.
//!
//! Each notification is handled in two steps. `ancestor_query` says whether the
//! notification diverges from the best block, and if so which two blocks' lowest
//! common ancestor the host must look up. `on_import` then takes the notification
//! with the outcome of that lookup, updates the state and says what to report.
use vstd::prelude::*;

use crate::block::{copy_hash, hashes_equal, BlockHash, BlockPointer, BlockRef, ImportNotification, NotificationView};
use crate::recent::{after_insert, RecentBlocks, MAX_BLOCKS_TO_TRACK};

verus! {

/// The lookup of the lowest common ancestor of the old best block and a new one.
#[derive(Debug)]
pub struct AncestorQuery {
    pub old_best: BlockHash,
    pub new_best: BlockHash,
}

/// What the lowest-common-ancestor lookup gave.
#[derive(Debug)]
pub enum AncestorOutcome {
    Found(BlockPointer),
    Failed,
}

impl View for AncestorOutcome {
    type V = Option<BlockRef>;

    open spec fn view(&self) -> Option<BlockRef> {
        match self {
            AncestorOutcome::Found(p) => Some(p@),
            AncestorOutcome::Failed => None,
        }
    }
}

/// A reorganization, in the mathematical model.
pub ghost struct ReorgView {
    pub old_best: BlockRef,
    pub new_best: BlockRef,
    pub ancestor: BlockRef,
}

/// A change of best block to one that does not descend from the old best block.
#[derive(Debug)]
pub struct Reorg {
    pub old_best: BlockPointer,
    pub new_best: BlockPointer,
    pub ancestor: BlockPointer,
}

impl View for Reorg {
    type V = ReorgView;

    open spec fn view(&self) -> ReorgView {
        ReorgView { old_best: self.old_best@, new_best: self.new_best@, ancestor: self.ancestor@ }
    }
}

/// What one notification makes the watcher report: a reorganization, an import, both or neither.
#[derive(Debug)]
pub struct ImportReports {
    pub reorg: Option<Reorg>,
    pub imported: Option<BlockPointer>,
}

/// The watcher's state, in the mathematical model.
pub ghost struct WatcherView {
    pub best: Option<BlockRef>,
    pub recent: Seq<Seq<u8>>,
    pub capacity: nat,
}

/// Whether `n` claims the best place with a parent other than the current best
/// block, so that the lowest common ancestor of the two must be looked up.
pub open spec fn diverges(best: Option<BlockRef>, n: NotificationView) -> bool {
    match best {
        Some(b) => n.is_new_best && n.parent_hash != b.hash,
        None => false,
    }
}

/// The best block after `n`.
pub open spec fn next_best(best: Option<BlockRef>, n: NotificationView) -> Option<BlockRef> {
    if n.is_new_best {
        Some(n.block())
    } else {
        best
    }
}

/// The reorganization that `n` reveals, given what the ancestor lookup gave: one
/// exactly when `n` diverges and the lookup found an ancestor other than the best block.
pub open spec fn reorg_of(
    best: Option<BlockRef>,
    n: NotificationView,
    ancestor: Option<BlockRef>,
) -> Option<ReorgView> {
    if diverges(best, n) && ancestor is Some && ancestor->Some_0.hash != best->Some_0.hash {
        Some(ReorgView { old_best: best->Some_0, new_best: n.block(), ancestor: ancestor->Some_0 })
    } else {
        None
    }
}

/// The import report for `n`: one exactly when its hash has not been reported recently.
pub open spec fn imported_of(recent: Seq<Seq<u8>>, n: NotificationView) -> Option<BlockRef> {
    if recent.contains(n.hash) {
        None
    } else {
        Some(n.block())
    }
}

/// The watcher's state after `n`.
pub open spec fn next_state(s: WatcherView, n: NotificationView) -> WatcherView {
    WatcherView {
        best: next_best(s.best, n),
        recent: after_insert(s.recent, n.hash, s.capacity),
        capacity: s.capacity,
    }
}

/// The watcher's state after the notifications `ns`, in order, from `s`.
pub open spec fn state_after(s: WatcherView, ns: Seq<NotificationView>) -> WatcherView
    decreases ns.len(),
{
    if ns.len() == 0 {
        s
    } else {
        next_state(state_after(s, ns.drop_last()), ns.last())
    }
}

/// Whether each notification of `ns` names the one before it as its parent, and the
/// first names `best`, if there is one.
pub open spec fn chained(best: Option<BlockRef>, ns: Seq<NotificationView>) -> bool {
    &&& forall|i: int| 0 < i < ns.len() ==> #[trigger] ns[i].parent_hash == ns[i - 1].hash
    &&& ns.len() > 0 && best is Some ==> ns[0].parent_hash == best->Some_0.hash
}

/// After a run of notifications that each claim the best place, the best block is the
/// one that the last of them announced.
pub proof fn lemma_best_is_last_new_best(s: WatcherView, ns: Seq<NotificationView>)
    requires
        ns.len() > 0,
        forall|i: int| 0 <= i < ns.len() ==> #[trigger] ns[i].is_new_best,
    ensures
        state_after(s, ns).best == Some(ns.last().block()),
{
}

/// Along a chain of notifications that each claim the best place and extend the one
/// before, no notification diverges: no ancestor lookup is made and no
/// reorganization is reported, whatever a lookup would give.
pub proof fn lemma_chain_never_diverges(s: WatcherView, ns: Seq<NotificationView>)
    requires
        forall|i: int| 0 <= i < ns.len() ==> #[trigger] ns[i].is_new_best,
        chained(s.best, ns),
    ensures
        forall|i: int| 0 <= i < ns.len() ==> !diverges(#[trigger] state_after(s, ns.take(i)).best, ns[i]),
        forall|i: int, a: Option<BlockRef>|
            0 <= i < ns.len() ==> #[trigger] reorg_of(state_after(s, ns.take(i)).best, ns[i], a) is None,
{
    assert forall|i: int| 0 <= i < ns.len() implies !diverges(#[trigger] state_after(s, ns.take(i)).best, ns[i]) by {
        if i == 0 {
            assert(ns.take(0) =~= Seq::<NotificationView>::empty());
        } else {
            let pre = ns.take(i);
            assert(pre.last() == ns[i - 1]);
            lemma_best_is_last_new_best(s, pre);
        }
    }
}

/// A reorganization is reported exactly when there is a best block, the notification
/// claims the best place with another parent, and the lookup found an ancestor other
/// than the best block; it names the old best block, the new one and that ancestor.
pub proof fn lemma_reorg_exactly_when(best: Option<BlockRef>, n: NotificationView, ancestor: Option<BlockRef>)
    ensures
        reorg_of(best, n, ancestor) is Some <==> {
            &&& best is Some
            &&& n.is_new_best
            &&& n.parent_hash != best->Some_0.hash
            &&& ancestor is Some
            &&& ancestor->Some_0.hash != best->Some_0.hash
        },
        reorg_of(best, n, ancestor) is Some ==> reorg_of(best, n, ancestor) == Some(ReorgView {
            old_best: best->Some_0,
            new_best: n.block(),
            ancestor: ancestor->Some_0,
        }),
{
}

/// The block-import watcher's state: the best block known and the hashes reported last.
pub struct BlockImportWatcher {
    best: Option<BlockPointer>,
    recent: RecentBlocks,
}

impl View for BlockImportWatcher {
    type V = WatcherView;

    closed spec fn view(&self) -> WatcherView {
        WatcherView {
            best: match self.best {
                Some(b) => Some(b@),
                None => None,
            },
            recent: self.recent@,
            capacity: self.recent.spec_capacity(),
        }
    }
}

impl BlockImportWatcher {
    pub closed spec fn wf(&self) -> bool {
        self.recent.wf()
    }

    /// A watcher whose best block is `best`, if any, that has reported nothing yet and
    /// remembers the last `MAX_BLOCKS_TO_TRACK` reported hashes.
    pub fn new(best: Option<BlockPointer>) -> (r: BlockImportWatcher)
        ensures
            r.wf(),
            r@.best == match best {
                Some(b) => Some(b@),
                None => None::<BlockRef>,
            },
            r@.recent == Seq::<Seq<u8>>::empty(),
            r@.capacity == MAX_BLOCKS_TO_TRACK,
    {
        BlockImportWatcher { best, recent: RecentBlocks::new(MAX_BLOCKS_TO_TRACK) }
    }

    /// The best block known.
    pub fn best(&self) -> (r: Option<BlockPointer>)
        ensures
            match r {
                Some(b) => self@.best == Some(b@),
                None => self@.best is None,
            },
    {
        match &self.best {
            Some(b) => Some(b.clone()),
            None => None,
        }
    }

    /// The ancestor lookup that `n` calls for: one exactly when `n` diverges from the
    /// best block, of the best block and `n`'s block.
    pub fn ancestor_query(&self, n: &ImportNotification) -> (r: Option<AncestorQuery>)
        ensures
            r is Some <==> diverges(self@.best, n@),
            r matches Some(q) ==> q.old_best@ == self@.best->Some_0.hash && q.new_best@ == n@.hash,
    {
        match &self.best {
            Some(b) => {
                if n.is_new_best && !hashes_equal(n.parent_hash.as_slice(), b.hash.as_slice()) {
                    Some(AncestorQuery { old_best: copy_hash(&b.hash), new_best: copy_hash(&n.hash) })
                } else {
                    None
                }
            },
            None => None,
        }
    }

    /// Handles `n`, with the outcome of the ancestor lookup when `n` diverges: reports
    /// a reorganization when the ancestor found is not the old best block, moves the
    /// best block to `n`'s when `n` is the new best, and reports the import when `n`'s
    /// hash was not reported recently.
    pub fn on_import(&mut self, n: &ImportNotification, ancestor: Option<AncestorOutcome>) -> (r:
        ImportReports)
        requires
            old(self).wf(),
            ancestor is Some <==> diverges(old(self)@.best, n@),
        ensures
            final(self).wf(),
            final(self)@ == next_state(old(self)@, n@),
            match r.reorg {
                Some(g) => reorg_of(old(self)@.best, n@, ancestor->Some_0@) == Some(g@),
                None => reorg_of(old(self)@.best, n@, ancestor->Some_0@) is None,
            },
            match r.imported {
                Some(b) => imported_of(old(self)@.recent, n@) == Some(b@),
                None => imported_of(old(self)@.recent, n@) is None,
            },
    {
        let reorg = match (&self.best, ancestor) {
            (Some(b), Some(AncestorOutcome::Found(a))) => {
                if hashes_equal(a.hash.as_slice(), b.hash.as_slice()) {
                    None
                } else {
                    Some(Reorg { old_best: b.clone(), new_best: n.block(), ancestor: a })
                }
            },
            _ => None,
        };
        if n.is_new_best {
            self.best = Some(n.block());
        }
        let imported = if self.recent.insert(n.hash.as_slice()) {
            Some(n.block())
        } else {
            None
        };
        ImportReports { reorg, imported }
    }
}

} // verus!
