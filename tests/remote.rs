use migrator::error::MigratorError;
use migrator::models::{JobState, JobStatus, ProgressInfo};
use migrator::remote::{
    is_success, job_outcome, status_outcome, status_unreachable, submit_outcome,
    submit_unreachable, undecodable_response, undecodable_status, PollStep, PollTracker,
};

fn snapshot(status: &str, progress: Option<(usize, usize)>) -> JobStatus {
    JobStatus {
        job_id: "job-1".to_string(),
        status: status.to_string(),
        created_at: None,
        started_at: None,
        completed_at: None,
        progress: progress.map(|(done, total)| ProgressInfo {
            current_database: None,
            databases_completed: done,
            databases_total: total,
        }),
        error: None,
    }
}

fn migration_message(e: MigratorError) -> String {
    match e {
        MigratorError::Migration(m) => m,
        other => panic!("expected a migration error, got {:?}", other),
    }
}

fn validation_message(e: MigratorError) -> String {
    match e {
        MigratorError::Validation(m) => m,
        other => panic!("expected a validation error, got {:?}", other),
    }
}

#[test]
fn submit_overloaded_names_code_body_and_fallback() {
    let e = submit_outcome(503, "overloaded".to_string()).unwrap_err();
    let m = migration_message(e);
    assert!(m.contains("503"));
    assert!(m.contains("overloaded"));
    assert!(m.contains("--local"));
    assert_eq!(
        m,
        "Job submission failed with status 503: overloaded. If the remote service is unavailable, you can use --local to run replication on your machine instead"
    );
}

#[test]
fn submit_success_hands_back_body() {
    let body = "{\"job_id\":\"j\",\"status\":\"provisioning\"}".to_string();
    assert_eq!(submit_outcome(201, body.clone()).unwrap(), body);
}

#[test]
fn status_failure_names_code_and_body() {
    let m = migration_message(status_outcome(404, "no such job".to_string()).unwrap_err());
    assert_eq!(
        m,
        "Failed to get job status 404: no such job. The remote service may be experiencing issues"
    );
    assert_eq!(status_outcome(200, "x".to_string()).unwrap(), "x");
}

#[test]
fn success_codes_are_the_two_hundreds() {
    assert!(!is_success(199));
    assert!(is_success(200));
    assert!(is_success(299));
    assert!(!is_success(300));
    assert!(!is_success(503));
}

#[test]
fn transport_and_decode_failures_are_classified() {
    match submit_unreachable("timed out") {
        MigratorError::Connection(m) => {
            assert!(m.contains("--local"));
            assert!(m.ends_with(": timed out"));
        }
        other => panic!("unexpected {:?}", other),
    }
    match status_unreachable("refused") {
        MigratorError::Connection(m) => assert!(m.ends_with("may be unavailable: refused")),
        other => panic!("unexpected {:?}", other),
    }
    assert_eq!(
        validation_message(undecodable_response("eof")),
        "Failed to parse job response: eof"
    );
    assert_eq!(
        validation_message(undecodable_status("eof")),
        "Failed to parse job status: eof"
    );
}

#[test]
fn sync_job_runs_to_completion_with_every_tick_forwarded() {
    let snapshots = vec![
        snapshot("provisioning", None),
        snapshot("running", Some((0, 3))),
        snapshot("running", Some((1, 3))),
        snapshot("running", Some((2, 3))),
        snapshot("completed", Some((3, 3))),
    ];
    let mut tracker = PollTracker::new();
    let mut forwarded: Vec<(String, Option<usize>)> = Vec::new();
    let mut last = None;
    for s in snapshots {
        let step = tracker.observe(&s).unwrap();
        forwarded.push((s.status.clone(), s.progress.as_ref().map(|p| p.databases_completed)));
        if step == PollStep::Finished {
            last = Some(s);
            break;
        }
    }
    assert!(tracker.finished());
    let expected: Vec<(String, Option<usize>)> = vec![
        ("provisioning".to_string(), None),
        ("running".to_string(), Some(0)),
        ("running".to_string(), Some(1)),
        ("running".to_string(), Some(2)),
        ("completed".to_string(), Some(3)),
    ];
    assert_eq!(forwarded, expected);
    let done = job_outcome(last.unwrap()).unwrap();
    assert_eq!(done.status, "completed");
}

#[test]
fn progress_regression_is_rejected_and_not_forwarded() {
    let mut tracker = PollTracker::new();
    assert_eq!(
        tracker.observe(&snapshot("running", Some((2, 5)))).unwrap(),
        PollStep::Continue
    );
    let m = validation_message(tracker.observe(&snapshot("running", Some((1, 5)))).unwrap_err());
    assert_eq!(m, "Progress went back from 2 to 1 databases completed");
    assert!(!tracker.finished());
    assert_eq!(
        tracker.observe(&snapshot("running", Some((2, 5)))).unwrap(),
        PollStep::Continue
    );
}

#[test]
fn progress_beyond_total_is_rejected() {
    let mut tracker = PollTracker::new();
    let m = validation_message(tracker.observe(&snapshot("running", Some((6, 5)))).unwrap_err());
    assert_eq!(m, "Progress reports 6 of 5 databases completed");
}

#[test]
fn polling_stops_at_first_terminal_and_rejects_what_follows() {
    let mut tracker = PollTracker::new();
    assert_eq!(tracker.observe(&snapshot("running", None)).unwrap(), PollStep::Continue);
    assert_eq!(tracker.observe(&snapshot("failed", None)).unwrap(), PollStep::Finished);
    let m = validation_message(tracker.observe(&snapshot("running", None)).unwrap_err());
    assert_eq!(m, "Job job-1 reported a status after it had already finished");
    assert!(tracker.observe(&snapshot("completed", None)).is_err());
}

#[test]
fn unknown_status_is_rejected() {
    let mut tracker = PollTracker::new();
    let m = validation_message(tracker.observe(&snapshot("paused", None)).unwrap_err());
    assert_eq!(m, "Unrecognized job status: paused");
    assert!(!tracker.finished());
}

#[test]
fn statuses_parse_to_states() {
    assert_eq!(JobState::parse(&"provisioning".to_string()).unwrap(), JobState::Provisioning);
    assert_eq!(JobState::parse(&"running".to_string()).unwrap(), JobState::Running);
    assert_eq!(JobState::parse(&"completed".to_string()).unwrap(), JobState::Completed);
    assert_eq!(JobState::parse(&"failed".to_string()).unwrap(), JobState::Failed);
    assert!(JobState::parse(&"Completed".to_string()).is_err());
    assert!(JobState::Completed.is_terminal());
    assert!(JobState::Failed.is_terminal());
    assert!(!JobState::Running.is_terminal());
    assert!(!JobState::Provisioning.is_terminal());
}

#[test]
fn failed_job_becomes_migration_error() {
    let mut s = snapshot("failed", None);
    s.error = Some("disk full".to_string());
    assert_eq!(
        migration_message(job_outcome(s).unwrap_err()),
        "Remote job failed: disk full"
    );
    assert_eq!(
        migration_message(job_outcome(snapshot("failed", None)).unwrap_err()),
        "Remote job failed: no error message was reported"
    );
    assert_eq!(
        validation_message(job_outcome(snapshot("running", None)).unwrap_err()),
        "Job job-1 has not reached a terminal status"
    );
    assert!(matches!(
        job_outcome(snapshot("weird", None)),
        Err(MigratorError::Validation(_))
    ));
}

fn with_database(mut s: JobStatus, db: &str) -> JobStatus {
    if let Some(p) = s.progress.as_mut() {
        p.current_database = Some(db.to_string());
    }
    s
}

#[test]
fn current_database_outside_running_is_rejected() {
    let stray = "Progress names a current database although the job is not running or all databases are done";
    let mut tracker = PollTracker::new();
    let done = with_database(snapshot("completed", Some((3, 3))), "orders");
    assert_eq!(validation_message(tracker.observe(&done).unwrap_err()), stray);
    assert!(!tracker.finished());
    let full = with_database(snapshot("running", Some((3, 3))), "orders");
    assert_eq!(validation_message(tracker.observe(&full).unwrap_err()), stray);
    let early = with_database(snapshot("provisioning", Some((0, 3))), "orders");
    assert_eq!(validation_message(tracker.observe(&early).unwrap_err()), stray);
    let busy = with_database(snapshot("running", Some((1, 3))), "orders");
    assert_eq!(tracker.observe(&busy).unwrap(), PollStep::Continue);
    assert_eq!(
        tracker.observe(&snapshot("completed", Some((3, 3)))).unwrap(),
        PollStep::Finished
    );
}
