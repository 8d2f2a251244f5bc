use pbrt::progress::ProgressEstimator;
use pbrt::progress::ProgressUpdate;

#[test]
fn progress_reports_only_changes() {
    let mut estimator = ProgressEstimator::new(10, 2);
    // Every column is still waiting or held by a thread: nothing is done.
    assert_eq!(estimator.observe(8), ProgressUpdate::Unchanged);
    assert_eq!(
        estimator.observe(5),
        ProgressUpdate::Report { finished_job: 3, remaining_job: 7 }
    );
    // The same count as at the last report: nothing new.
    assert_eq!(estimator.observe(5), ProgressUpdate::Unchanged);
    assert_eq!(
        estimator.observe(1),
        ProgressUpdate::Report { finished_job: 7, remaining_job: 3 }
    );
    assert_eq!(estimator.observe(0), ProgressUpdate::Finished);
}

#[test]
fn progress_finishes_on_empty_list() {
    let mut estimator = ProgressEstimator::new(4, 16);
    assert_eq!(estimator.observe(0), ProgressUpdate::Finished);
}

#[test]
fn progress_first_report_counts_every_column() {
    let mut estimator = ProgressEstimator::new(100, 4);
    match estimator.observe(50) {
        ProgressUpdate::Report { finished_job, remaining_job } => {
            assert_eq!(finished_job, 46);
            assert_eq!(remaining_job, 54);
            assert_eq!(finished_job + remaining_job, 100);
        }
        other => panic!("unexpected {:?}", other),
    }
}
