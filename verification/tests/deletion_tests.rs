use decargot::deletion::DeletionRun;
use decargot::sizes::sum_sizes;

#[test]
fn sum_of_sizes_is_exact() {
    assert_eq!(sum_sizes(&vec![]), 0);
    assert_eq!(sum_sizes(&vec![1, 2, 3]), 6);
    assert_eq!(sum_sizes(&vec![100, 300]), 400);
}

#[test]
fn sum_of_sizes_saturates() {
    assert_eq!(sum_sizes(&vec![u64::MAX, 5]), u64::MAX);
    assert_eq!(sum_sizes(&vec![u64::MAX / 2, u64::MAX / 2, 3]), u64::MAX);
}

#[test]
fn two_target_run_reports_full_total() {
    // Targets of 100 and 300 bytes: the final report is all 400 of 400.
    let sizes = vec![100, 300];
    let (mut run, initial) = DeletionRun::new(&sizes);
    assert_eq!(initial.bytes_deleted, 0);
    assert_eq!(initial.bytes_total, 400);
    let p1 = run.complete_target(100);
    assert_eq!((p1.bytes_deleted, p1.bytes_total), (100, 400));
    let p2 = run.complete_target(300);
    assert_eq!((p2.bytes_deleted, p2.bytes_total), (400, 400));
    let done = run.finish();
    assert_eq!((done.bytes_deleted, done.bytes_total), (400, 400));
    let percent = done.bytes_deleted as f64 / done.bytes_total as f64 * 100.0;
    assert_eq!(percent, 100.0);
}

#[test]
fn progress_is_monotone_and_ends_at_total() {
    let sizes = vec![5, 0, 12, 7];
    let (mut run, initial) = DeletionRun::new(&sizes);
    let mut last = initial.bytes_deleted;
    for s in &sizes {
        let p = run.complete_target(*s);
        assert!(p.bytes_deleted >= last);
        assert!(p.bytes_deleted <= p.bytes_total);
        last = p.bytes_deleted;
    }
    let done = run.finish();
    assert_eq!(done.bytes_deleted, done.bytes_total);
    assert_eq!(done.bytes_total, 24);
}

#[test]
fn drifted_measurements_are_capped_at_the_planned_total() {
    // The file system changed between planning and deletion: a target
    // measured larger at deletion time. The report is capped at the
    // planned total, so the rendered percent never passes 100 and the
    // final report never regresses below an earlier one.
    let (mut run, _) = DeletionRun::new(&vec![100, 300]);
    let p1 = run.complete_target(90);
    assert_eq!((p1.bytes_deleted, p1.bytes_total), (90, 400));
    let p2 = run.complete_target(330);
    assert_eq!((p2.bytes_deleted, p2.bytes_total), (400, 400));
    let percent = p2.bytes_deleted as f64 / p2.bytes_total as f64 * 100.0;
    assert!((0.0..=100.0).contains(&percent));
    let done = run.finish();
    assert_eq!((done.bytes_deleted, done.bytes_total), (400, 400));
    assert!(done.bytes_deleted >= p2.bytes_deleted);
}

#[test]
fn empty_target_list_reports_zero_total() {
    let (run, initial) = DeletionRun::new(&vec![]);
    assert_eq!(initial.bytes_deleted, 0);
    assert_eq!(initial.bytes_total, 0);
    let done = run.finish();
    assert_eq!((done.bytes_deleted, done.bytes_total), (0, 0));
}
