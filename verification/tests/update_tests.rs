use flash::update::{update_outcome, UpdateBatch, UpdateStatus};

#[test]
fn absent_package_is_a_reported_outcome() {
    assert_eq!(update_outcome(false, true), UpdateStatus::NotInstalled);
    assert_eq!(update_outcome(false, false), UpdateStatus::NotInstalled);
}

#[test]
fn pull_result_decides_the_status() {
    assert_eq!(update_outcome(true, true), UpdateStatus::Updated);
    assert_eq!(update_outcome(true, false), UpdateStatus::PullFailed);
}

#[test]
fn one_failed_pull_does_not_stop_the_batch() {
    let names = vec!["a".to_string(), "b".to_string(), "c".to_string()];
    let mut batch = UpdateBatch::new(names);

    assert_eq!(batch.next_name(), Some(&"a".to_string()));
    batch.record(true);
    assert_eq!(batch.next_name(), Some(&"b".to_string()));
    batch.record(false);
    assert_eq!(batch.next_name(), Some(&"c".to_string()));
    batch.record(true);

    assert!(batch.is_finished());
    assert_eq!(batch.next_name(), None);
    assert_eq!(
        batch.statuses(),
        &vec![UpdateStatus::Updated, UpdateStatus::PullFailed, UpdateStatus::Updated]
    );
}

#[test]
fn an_empty_batch_is_finished_at_once() {
    let batch = UpdateBatch::new(Vec::new());
    assert!(batch.is_finished());
    assert_eq!(batch.next_name(), None);
}
