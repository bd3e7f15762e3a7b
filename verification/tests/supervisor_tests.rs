use artifact_builder::supervisor::SubmitOutcome;
use artifact_builder::supervisor::Supervisor;

#[test]
fn empty_submission_creates_and_cancels_nothing() {
    let mut s = Supervisor::new();
    assert_eq!(s.submit(0), SubmitOutcome::NotConfigured);
    assert_eq!(s.current, None);
    // Also while a job is running: an empty submission leaves it alone.
    assert_eq!(s.submit(3), SubmitOutcome::Spawned { job: 0, cancel: None });
    assert_eq!(s.submit(0), SubmitOutcome::NotConfigured);
    assert_eq!(s.current, Some(0));
}

#[test]
fn first_job_displaces_nothing() {
    let mut s = Supervisor::new();
    assert_eq!(s.submit(2), SubmitOutcome::Spawned { job: 0, cancel: None });
    assert_eq!(s.current, Some(0));
}

#[test]
fn newer_job_cancels_the_older_and_takes_the_slot() {
    let mut s = Supervisor::new();
    let first = s.submit(2);
    assert_eq!(first, SubmitOutcome::Spawned { job: 0, cancel: None });
    let second = s.submit(1);
    assert_eq!(second, SubmitOutcome::Spawned { job: 1, cancel: Some(0) });
    assert_eq!(s.current, Some(1));
    let third = s.submit(5);
    assert_eq!(third, SubmitOutcome::Spawned { job: 2, cancel: Some(1) });
    assert_eq!(s.current, Some(2));
}
