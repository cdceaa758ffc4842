use output_tracker::non_threadsafe::{Error, OutputSubject};

#[test]
fn an_output_tracker_can_be_created_from_a_default_subject() {
    let subject = OutputSubject::<String>::default();
    let tracker = subject
        .create_tracker()
        .unwrap_or_else(|err| panic!("could not create output tracker: {err:?}"));

    let output = tracker
        .output()
        .unwrap_or_else(|err| panic!("failed to read tracker output: {err:?}"));
    assert!(output.is_empty());
}

#[test]
fn a_new_output_tracker_has_no_items_recorded() {
    let subject = OutputSubject::<String>::new();
    let tracker = subject
        .create_tracker()
        .unwrap_or_else(|err| panic!("could not create output tracker: {err:?}"));

    let output = tracker
        .output()
        .unwrap_or_else(|err| panic!("failed to read tracker output: {err:?}"));
    assert!(output.is_empty());
}

#[test]
fn an_output_tracker_records_items_in_emission_order() {
    let items: Vec<i64> = (0..100).map(|i| i * 7 - 50).collect();
    let subject = OutputSubject::<i64>::new();
    let tracker = subject
        .create_tracker()
        .unwrap_or_else(|err| panic!("could not create output tracker: {err:?}"));

    for item in &items {
        subject
            .emit(*item)
            .unwrap_or_else(|err| panic!("could not emit item {item}: {err:?}"));
    }

    let output = tracker
        .output()
        .unwrap_or_else(|err| panic!("failed to read tracker output: {err:?}"));
    assert_eq!(output, items);
}

#[test]
fn the_output_of_a_tracker_can_be_read_several_times() {
    let subject = OutputSubject::<i64>::new();
    let tracker = subject
        .create_tracker()
        .unwrap_or_else(|err| panic!("could not create output tracker: {err:?}"));

    for item in [4, 8, 15] {
        subject
            .emit(item)
            .unwrap_or_else(|err| panic!("could not emit item {item}: {err:?}"));
    }

    let first = tracker
        .output()
        .unwrap_or_else(|err| panic!("failed to read tracker output: {err:?}"));
    let second = tracker
        .output()
        .unwrap_or_else(|err| panic!("failed to read tracker output: {err:?}"));
    let third = tracker
        .output()
        .unwrap_or_else(|err| panic!("failed to read tracker output: {err:?}"));
    assert_eq!(first, vec![4, 8, 15]);
    assert_eq!(second, first);
    assert_eq!(third, first);
}

#[test]
fn several_output_tracker_for_the_same_subject_track_same_items_independently() {
    let subject = OutputSubject::<i64>::new();
    let first = subject
        .create_tracker()
        .unwrap_or_else(|err| panic!("could not create output tracker: {err:?}"));
    let second = subject
        .create_tracker()
        .unwrap_or_else(|err| panic!("could not create output tracker: {err:?}"));

    for item in [1, 2, 3] {
        subject
            .emit(item)
            .unwrap_or_else(|err| panic!("could not emit item {item}: {err:?}"));
    }

    let first_output = first
        .output()
        .unwrap_or_else(|err| panic!("failed to read tracker output: {err:?}"));
    let second_output = second
        .output()
        .unwrap_or_else(|err| panic!("failed to read tracker output: {err:?}"));
    assert_eq!(first_output, vec![1, 2, 3]);
    assert_eq!(second_output, vec![1, 2, 3]);
}

#[test]
fn after_an_output_tracker_is_stopped_it_no_longer_tracks_items() {
    let subject = OutputSubject::<String>::new();
    let tracker = subject
        .create_tracker()
        .unwrap_or_else(|err| panic!("could not create output tracker: {err:?}"));

    subject
        .emit("a".to_string())
        .unwrap_or_else(|err| panic!("could not emit item: {err:?}"));
    subject
        .emit("b".to_string())
        .unwrap_or_else(|err| panic!("could not emit item: {err:?}"));

    let output = tracker
        .output()
        .unwrap_or_else(|err| panic!("failed to read tracker output: {err:?}"));
    assert_eq!(output, vec!["a".to_string(), "b".to_string()]);

    tracker
        .stop()
        .unwrap_or_else(|err| panic!("failed to stop output tracker: {err:?}"));
    subject
        .emit("c".to_string())
        .unwrap_or_else(|err| panic!("could not emit item: {err:?}"));

    let output = tracker
        .output()
        .unwrap_or_else(|err| panic!("failed to read tracker output: {err:?}"));
    assert_eq!(output, vec!["a".to_string(), "b".to_string()]);
}

#[test]
fn stopping_an_output_tracker_several_times_does_not_give_error_or_panic() {
    let subject = OutputSubject::<i64>::new();
    let tracker = subject
        .create_tracker()
        .unwrap_or_else(|err| panic!("could not create output tracker: {err:?}"));

    subject
        .emit(11)
        .unwrap_or_else(|err| panic!("could not emit item: {err:?}"));

    assert!(tracker.stop().is_ok());
    assert!(tracker.stop().is_ok());
    assert!(tracker.stop().is_ok());
}

#[test]
fn stopping_one_tracker_does_not_affect_the_others() {
    let subject = OutputSubject::<i64>::new();
    let first = subject
        .create_tracker()
        .unwrap_or_else(|err| panic!("could not create output tracker: {err:?}"));
    let second = subject
        .create_tracker()
        .unwrap_or_else(|err| panic!("could not create output tracker: {err:?}"));
    let third = subject
        .create_tracker()
        .unwrap_or_else(|err| panic!("could not create output tracker: {err:?}"));

    subject
        .emit(1)
        .unwrap_or_else(|err| panic!("could not emit item: {err:?}"));
    second
        .stop()
        .unwrap_or_else(|err| panic!("failed to stop output tracker: {err:?}"));
    subject
        .emit(2)
        .unwrap_or_else(|err| panic!("could not emit item: {err:?}"));

    let first_output = first
        .output()
        .unwrap_or_else(|err| panic!("failed to read tracker output: {err:?}"));
    let second_output = second
        .output()
        .unwrap_or_else(|err| panic!("failed to read tracker output: {err:?}"));
    let third_output = third
        .output()
        .unwrap_or_else(|err| panic!("failed to read tracker output: {err:?}"));
    assert_eq!(first_output, vec![1, 2]);
    assert_eq!(second_output, vec![1]);
    assert_eq!(third_output, vec![1, 2]);
}

#[test]
fn after_clearing_an_output_tracker_it_outputs_only_items_emitted_after_clearing() {
    let subject = OutputSubject::<i64>::new();
    let tracker = subject
        .create_tracker()
        .unwrap_or_else(|err| panic!("could not create output tracker: {err:?}"));
    let witness = subject
        .create_tracker()
        .unwrap_or_else(|err| panic!("could not create output tracker: {err:?}"));

    subject
        .emit(1)
        .unwrap_or_else(|err| panic!("could not emit item: {err:?}"));
    subject
        .emit(2)
        .unwrap_or_else(|err| panic!("could not emit item: {err:?}"));

    tracker
        .clear()
        .unwrap_or_else(|err| panic!("failed to clear output tracker: {err:?}"));

    let cleared = tracker
        .output()
        .unwrap_or_else(|err| panic!("failed to read tracker output: {err:?}"));
    assert!(cleared.is_empty());

    subject
        .emit(3)
        .unwrap_or_else(|err| panic!("could not emit item: {err:?}"));

    let output = tracker
        .output()
        .unwrap_or_else(|err| panic!("failed to read tracker output: {err:?}"));
    let witness_output = witness
        .output()
        .unwrap_or_else(|err| panic!("failed to read tracker output: {err:?}"));
    assert_eq!(output, vec![3]);
    assert_eq!(witness_output, vec![1, 2, 3]);
}

#[test]
fn a_tracker_created_after_some_emissions_sees_only_later_items() {
    let subject = OutputSubject::<i64>::new();
    subject
        .emit(1)
        .unwrap_or_else(|err| panic!("could not emit item: {err:?}"));

    let tracker = subject
        .create_tracker()
        .unwrap_or_else(|err| panic!("could not create output tracker: {err:?}"));
    subject
        .emit(2)
        .unwrap_or_else(|err| panic!("could not emit item: {err:?}"));

    let output = tracker
        .output()
        .unwrap_or_else(|err| panic!("failed to read tracker output: {err:?}"));
    assert_eq!(output, vec![2]);
}

#[test]
fn a_tracker_outlives_the_subject_it_was_created_from() {
    let subject = OutputSubject::<i64>::new();
    let tracker = subject
        .create_tracker()
        .unwrap_or_else(|err| panic!("could not create output tracker: {err:?}"));
    subject
        .emit(21)
        .unwrap_or_else(|err| panic!("could not emit item: {err:?}"));
    drop(subject);

    let output = tracker
        .output()
        .unwrap_or_else(|err| panic!("failed to read tracker output: {err:?}"));
    assert_eq!(output, vec![21]);
    assert!(tracker.stop().is_ok());
    assert!(tracker.clear().is_ok());
}

#[test]
fn a_cloned_subject_emits_to_the_trackers_of_the_original() {
    let subject = OutputSubject::<i64>::new();
    let tracker = subject
        .create_tracker()
        .unwrap_or_else(|err| panic!("could not create output tracker: {err:?}"));

    let cloned_subject = subject.clone();
    cloned_subject
        .emit(33)
        .unwrap_or_else(|err| panic!("could not emit item: {err:?}"));

    let output = tracker
        .output()
        .unwrap_or_else(|err| panic!("failed to read tracker output: {err:?}"));
    assert_eq!(output, vec![33]);
}

#[test]
fn emitting_without_any_tracker_succeeds() {
    let subject = OutputSubject::<i64>::new();
    let result: Result<(), Error> = subject.emit(1);
    assert!(result.is_ok());
}
