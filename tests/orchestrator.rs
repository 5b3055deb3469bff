use migrator::models::{FilterSpec, JobSpec, JobStatus, ProgressInfo};
use migrator::orchestrator::{
    cleanup_after, first_local_step, next_local_step, progress_tick, Artifact, LocalStep,
    MigrationCommand,
};

#[test]
fn job_spec_carries_the_command_name() {
    let filter = FilterSpec {
        include_databases: Some(vec!["app".to_string()]),
        exclude_tables: None,
    };
    let spec = JobSpec::new(
        "1.0".to_string(),
        MigrationCommand::Sync,
        "postgres://src".to_string(),
        "postgres://dst".to_string(),
        Some(filter),
    );
    assert_eq!(spec.command, "sync");
    assert_eq!(spec.version, "1.0");
    assert_eq!(spec.source_url, "postgres://src");
    assert_eq!(spec.target_url, "postgres://dst");
    assert_eq!(
        spec.filter.unwrap().include_databases,
        Some(vec!["app".to_string()])
    );
    assert!(spec.options.is_empty());
    assert_eq!(MigrationCommand::Init.as_str(), "init");
}

#[test]
fn progress_tick_copies_the_report() {
    let mut s = JobStatus {
        job_id: "j".to_string(),
        status: "running".to_string(),
        created_at: None,
        started_at: None,
        completed_at: None,
        progress: Some(ProgressInfo {
            current_database: Some("orders".to_string()),
            databases_completed: 2,
            databases_total: 5,
        }),
        error: None,
    };
    assert_eq!(progress_tick(&s), Some((Some("orders".to_string()), 2, 5)));
    s.progress = None;
    assert_eq!(progress_tick(&s), None);
}

#[test]
fn local_steps_run_in_order() {
    let mut steps = vec![first_local_step()];
    while let Some(n) = next_local_step(*steps.last().unwrap()) {
        steps.push(n);
    }
    assert_eq!(
        steps,
        vec![
            LocalStep::CreatePublication,
            LocalStep::CreateSubscription,
            LocalStep::WaitForSync
        ]
    );
}

#[test]
fn cleanup_drops_what_was_created_latest_first() {
    assert!(cleanup_after(LocalStep::CreatePublication).is_empty());
    assert_eq!(
        cleanup_after(LocalStep::CreateSubscription),
        vec![Artifact::Publication]
    );
    assert_eq!(
        cleanup_after(LocalStep::WaitForSync),
        vec![Artifact::Subscription, Artifact::Publication]
    );
}
