//! Tests for the native handle ledger and its retain/release discipline.

use auto::handle::{HandleLedger, ReleaseKind};

#[test]
fn handle_clone_release_balanced() {
    // One acquisition plus three retains take exactly four releases, and
    // every release dispatches the family's own primitive.
    let mut ledger = HandleLedger::new();
    ledger.track(7, ReleaseKind::CoreFoundation);
    ledger.retain(7);
    ledger.retain(7);
    ledger.retain(7);
    assert_eq!(ledger.retain_count(7), 4);
    for remaining in (0..4u64).rev() {
        assert!(ledger.is_live(7));
        assert_eq!(ledger.release(7), ReleaseKind::CoreFoundation);
        if remaining > 0 {
            assert_eq!(ledger.retain_count(7), remaining);
        }
    }
    assert!(!ledger.is_live(7));
    assert_eq!(ledger.live_handles(), 0);
}

#[test]
fn duplicate_outlives_original() {
    // A duplicate taken before the original reference is given back keeps
    // the handle live, so posting through the duplicate stays sound.
    let mut ledger = HandleLedger::new();
    ledger.track(42, ReleaseKind::Cocoa);
    ledger.retain(42); // the duplicate
    assert_eq!(ledger.release(42), ReleaseKind::Cocoa); // drop the original
    assert!(ledger.is_live(42));
    assert_eq!(ledger.retain_count(42), 1);
    assert_eq!(ledger.release(42), ReleaseKind::Cocoa); // drop the duplicate
    assert!(!ledger.is_live(42));
}

#[test]
fn release_dispatches_per_family() {
    let mut ledger = HandleLedger::new();
    ledger.track(1, ReleaseKind::CoreFoundation);
    ledger.track(2, ReleaseKind::Cocoa);
    assert_eq!(ledger.live_handles(), 2);
    assert_eq!(ledger.release(2), ReleaseKind::Cocoa);
    assert_eq!(ledger.release(1), ReleaseKind::CoreFoundation);
    assert_eq!(ledger.live_handles(), 0);
}

#[test]
fn track_starts_with_one_reference() {
    let mut ledger = HandleLedger::new();
    ledger.track(9, ReleaseKind::Cocoa);
    assert_eq!(ledger.retain_count(9), 1);
    ledger.retain(9);
    assert_eq!(ledger.retain_count(9), 2);
    assert!(ledger.is_live(9));
    assert!(!ledger.is_live(10));
}
