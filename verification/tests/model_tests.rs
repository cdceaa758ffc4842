//! Tests of the registry and store machinery that both variants share.

use output_tracker::inner_subject::BasicSubject;
use output_tracker::inner_tracker::{BasicTracker, Tracker};

#[test]
fn a_new_store_is_empty_and_records_in_order() {
    let mut store: BasicTracker<i64> = BasicTracker::new();
    assert!(store.output().is_empty());

    store.track(1);
    store.track(2);
    store.track(3);
    assert_eq!(store.output(), &[1, 2, 3]);
    assert_eq!(store.snapshot(), vec![1, 2, 3]);
}

#[test]
fn clearing_a_store_empties_it_and_leaves_it_usable() {
    let mut store: BasicTracker<String> = BasicTracker::new();
    store.track("before".to_string());
    store.clear();
    assert!(store.output().is_empty());

    store.track("after".to_string());
    assert_eq!(store.output(), &["after".to_string()]);
}

#[test]
fn a_registry_broadcast_reaches_every_store_in_registration_order() {
    let mut registry: BasicSubject<i64, BasicTracker<i64>> = BasicSubject::new();
    let _first = registry.add_tracker(BasicTracker::new());
    let _second = registry.add_tracker(BasicTracker::new());

    registry.emit(10);
    registry.emit(20);

    let view = registry.trackers();
    assert_eq!(view.len(), 2);
    assert_eq!(view.get(0).output(), &[10, 20]);
    assert_eq!(view.get(1).output(), &[10, 20]);
}

#[test]
fn a_registry_issues_distinct_handles() {
    let mut registry: BasicSubject<i64, BasicTracker<i64>> = BasicSubject::new();
    let first = registry.add_tracker(BasicTracker::new());
    let second = registry.add_tracker(BasicTracker::new());
    let third = registry.add_tracker(BasicTracker::new());

    assert_ne!(first, second);
    assert_ne!(first, third);
    assert_ne!(second, third);
}

#[test]
fn removing_a_registration_affects_only_that_registration() {
    let mut registry: BasicSubject<i64, BasicTracker<i64>> = BasicSubject::new();
    let _first = registry.add_tracker(BasicTracker::new());
    let second = registry.add_tracker(BasicTracker::new());

    registry.emit(1);
    registry.remove_tracker(second);
    registry.emit(2);

    let view = registry.trackers();
    assert_eq!(view.len(), 1);
    assert_eq!(view.get(0).output(), &[1, 2]);
}

#[test]
fn removing_an_absent_handle_is_a_no_op() {
    let mut registry: BasicSubject<i64, BasicTracker<i64>> = BasicSubject::new();
    let handle = registry.add_tracker(BasicTracker::new());
    registry.remove_tracker(handle);
    registry.remove_tracker(handle);
    assert_eq!(registry.trackers().len(), 0);
    assert!(registry.has_capacity());
}
