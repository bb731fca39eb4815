use informant::block::{BlockPointer, ImportNotification};
use informant::watcher::{AncestorOutcome, BlockImportWatcher, ImportReports};

fn h(x: u8) -> Vec<u8> {
    vec![x; 32]
}

fn notification(number: u64, hash: u8, parent: u8, is_new_best: bool) -> ImportNotification {
    ImportNotification::new(number, h(hash), h(parent), is_new_best)
}

/// Runs one notification through the watcher, resolving ancestors with `resolve`.
fn feed(
    w: &mut BlockImportWatcher,
    n: &ImportNotification,
    resolve: &mut dyn FnMut(&[u8], &[u8]) -> AncestorOutcome,
    lookups: &mut usize,
) -> ImportReports {
    let outcome = w.ancestor_query(n).map(|q| {
        *lookups += 1;
        resolve(&q.old_best, &q.new_best)
    });
    w.on_import(n, outcome)
}

fn best_of(w: &BlockImportWatcher) -> (u64, Vec<u8>) {
    let b = w.best().expect("a best block");
    (b.number, b.hash)
}

#[test]
fn linear_chain_from_no_state() {
    let mut w = BlockImportWatcher::new(None);
    let mut lookups = 0;
    let mut resolve = |_: &[u8], _: &[u8]| -> AncestorOutcome { panic!("no lookup expected") };
    let a = notification(1, 0xA, 0x0, true);
    let b = notification(2, 0xB, 0xA, true);
    let ra = feed(&mut w, &a, &mut resolve, &mut lookups);
    let rb = feed(&mut w, &b, &mut resolve, &mut lookups);
    assert!(ra.reorg.is_none() && rb.reorg.is_none());
    let ia = ra.imported.expect("A reported");
    let ib = rb.imported.expect("B reported");
    assert_eq!((ia.number, ia.hash), (1, h(0xA)));
    assert_eq!((ib.number, ib.hash), (2, h(0xB)));
    assert_eq!(best_of(&w), (2, h(0xB)));
    assert_eq!(lookups, 0);
}

#[test]
fn sibling_at_same_height_is_a_reorg() {
    let mut w = BlockImportWatcher::new(Some(BlockPointer::new(2, h(0xB))));
    let mut lookups = 0;
    let mut resolve = |old: &[u8], new: &[u8]| {
        assert_eq!(old, &h(0xB)[..]);
        assert_eq!(new, &h(0xC)[..]);
        AncestorOutcome::Found(BlockPointer::new(1, h(0xA)))
    };
    let c = notification(2, 0xC, 0xA, true);
    let r = feed(&mut w, &c, &mut resolve, &mut lookups);
    let g = r.reorg.expect("a reorganization");
    assert_eq!((g.old_best.number, g.old_best.hash), (2, h(0xB)));
    assert_eq!((g.new_best.number, g.new_best.hash), (2, h(0xC)));
    assert_eq!((g.ancestor.number, g.ancestor.hash), (1, h(0xA)));
    let i = r.imported.expect("C reported");
    assert_eq!((i.number, i.hash), (2, h(0xC)));
    assert_eq!(best_of(&w), (2, h(0xC)));
    assert_eq!(lookups, 1);
}

#[test]
fn duplicate_delivery_reported_once() {
    let mut w = BlockImportWatcher::new(Some(BlockPointer::new(0, h(0x0))));
    let mut lookups = 0;
    let mut resolve = |_: &[u8], _: &[u8]| AncestorOutcome::Found(BlockPointer::new(1, h(0xA)));
    let a = notification(1, 0xA, 0x0, true);
    let first = feed(&mut w, &a, &mut resolve, &mut lookups);
    assert!(first.imported.is_some());
    assert_eq!(best_of(&w), (1, h(0xA)));
    // the second delivery diverges from A (its parent is not A) but A is its own ancestor
    let second = feed(&mut w, &a, &mut resolve, &mut lookups);
    assert!(second.imported.is_none());
    assert!(second.reorg.is_none());
    assert_eq!(best_of(&w), (1, h(0xA)));
    assert_eq!(lookups, 1);
}

#[test]
fn failed_ancestor_lookup_is_absorbed() {
    let mut w = BlockImportWatcher::new(Some(BlockPointer::new(2, h(0xB))));
    let mut lookups = 0;
    let mut resolve = |_: &[u8], _: &[u8]| AncestorOutcome::Failed;
    let c = notification(2, 0xC, 0xA, true);
    let r = feed(&mut w, &c, &mut resolve, &mut lookups);
    assert!(r.reorg.is_none());
    let i = r.imported.expect("C reported");
    assert_eq!((i.number, i.hash), (2, h(0xC)));
    assert_eq!(best_of(&w), (2, h(0xC)));
    assert_eq!(lookups, 1);
}

#[test]
fn ancestor_equal_to_best_is_no_reorg() {
    let mut w = BlockImportWatcher::new(Some(BlockPointer::new(1, h(0xA))));
    let mut lookups = 0;
    // C descends from A through a block that was never announced
    let mut resolve = |_: &[u8], _: &[u8]| AncestorOutcome::Found(BlockPointer::new(1, h(0xA)));
    let c = notification(3, 0xC, 0xB, true);
    let r = feed(&mut w, &c, &mut resolve, &mut lookups);
    assert!(r.reorg.is_none());
    assert!(r.imported.is_some());
    assert_eq!(best_of(&w), (3, h(0xC)));
    assert_eq!(lookups, 1);
}

#[test]
fn non_best_import_keeps_best_and_is_reported() {
    let mut w = BlockImportWatcher::new(Some(BlockPointer::new(2, h(0xB))));
    let mut lookups = 0;
    let mut resolve = |_: &[u8], _: &[u8]| -> AncestorOutcome { panic!("no lookup expected") };
    let c = notification(2, 0xC, 0xA, false);
    let r = feed(&mut w, &c, &mut resolve, &mut lookups);
    assert!(r.reorg.is_none());
    let i = r.imported.expect("C reported");
    assert_eq!((i.number, i.hash), (2, h(0xC)));
    assert_eq!(best_of(&w), (2, h(0xB)));
    assert_eq!(lookups, 0);
}

#[test]
fn best_follows_last_new_best_along_a_chain() {
    let mut w = BlockImportWatcher::new(Some(BlockPointer::new(0, h(0))));
    let mut lookups = 0;
    let mut resolve = |_: &[u8], _: &[u8]| -> AncestorOutcome { panic!("no lookup expected") };
    for k in 1..=150u8 {
        let r = feed(&mut w, &notification(k as u64, k, k - 1, true), &mut resolve, &mut lookups);
        assert!(r.reorg.is_none());
        assert!(r.imported.is_some());
        assert_eq!(best_of(&w), (k as u64, h(k)));
    }
    assert_eq!(lookups, 0);
}

#[test]
fn old_hash_is_reported_again_after_eviction() {
    let mut w = BlockImportWatcher::new(None);
    let mut lookups = 0;
    let mut resolve = |_: &[u8], _: &[u8]| AncestorOutcome::Failed;
    for k in 1..=101u8 {
        let r = feed(&mut w, &notification(k as u64, k, k - 1, false), &mut resolve, &mut lookups);
        assert!(r.imported.is_some());
    }
    // hash 1 was the oldest of 101 and has been forgotten, hash 2 has not
    assert!(feed(&mut w, &notification(1, 1, 0, false), &mut resolve, &mut lookups).imported.is_some());
    assert!(feed(&mut w, &notification(3, 3, 2, false), &mut resolve, &mut lookups).imported.is_none());
    assert!(w.best().is_none());
    assert_eq!(lookups, 0);
}
