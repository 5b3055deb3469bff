//! The wire model of a remote migration job: what is submitted, what comes
//! back at submission, and the snapshots returned while the job runs.
use std::collections::HashMap;
use vstd::prelude::*;
use vstd::string::StringExecFns;

use crate::error::MigratorError;

verus! {

/// Declares `serde_json::Value`, a JSON value as the job service exchanges
/// it, so that the options bag can hold such values. Nothing inside one is
/// read here.
#[verifier::external_type_specification]
#[verifier::external_body]
pub struct ExJsonValue(serde_json::Value);

/// The migration that a remote job is asked to perform.
#[derive(Clone, Debug)]
pub struct JobSpec {
    /// Schema version tag of the request.
    pub version: String,
    /// `init` for a first full copy, `sync` for ongoing replication.
    pub command: String,
    /// Connection locator of the source database.
    pub source_url: String,
    /// Connection locator of the target database.
    pub target_url: String,
    /// Which databases and tables take part, if restricted.
    pub filter: Option<FilterSpec>,
    /// Further settings, by name, each an arbitrary JSON value.
    pub options: HashMap<String, serde_json::Value>,
}

/// Restricts a migration to some databases, or leaves out some tables.
#[derive(Clone, Debug)]
pub struct FilterSpec {
    pub include_databases: Option<Vec<String>>,
    pub exclude_tables: Option<Vec<String>>,
}

/// What the service answers once, when a job is submitted.
#[derive(Clone, Debug)]
pub struct JobResponse {
    pub job_id: String,
    pub status: String,
}

/// A point-in-time snapshot of a job.
#[derive(Clone, Debug)]
pub struct JobStatus {
    pub job_id: String,
    /// One of `provisioning`, `running`, `completed`, `failed`.
    pub status: String,
    pub created_at: Option<String>,
    pub started_at: Option<String>,
    pub completed_at: Option<String>,
    pub progress: Option<ProgressInfo>,
    pub error: Option<String>,
}

/// How far a job has got through its databases.
#[derive(Clone, Debug)]
pub struct ProgressInfo {
    pub current_database: Option<String>,
    pub databases_completed: usize,
    pub databases_total: usize,
}

/// The status of a job, parsed from its wire form.
#[derive(PartialEq, Eq, Structural, Clone, Copy, Debug)]
pub enum JobState {
    Provisioning,
    Running,
    Completed,
    Failed,
}

/// The state that a wire status names, if it names one.
pub open spec fn state_named(s: Seq<char>) -> Option<JobState> {
    if s == "provisioning"@ {
        Some(JobState::Provisioning)
    } else if s == "running"@ {
        Some(JobState::Running)
    } else if s == "completed"@ {
        Some(JobState::Completed)
    } else if s == "failed"@ {
        Some(JobState::Failed)
    } else {
        None
    }
}

/// The message of the error for a status that names no state.
pub open spec fn unknown_status_message(s: Seq<char>) -> Seq<char> {
    "Unrecognized job status: "@ + s
}

impl JobState {
    /// After a terminal state no further transition occurs.
    pub open spec fn terminal(self) -> bool {
        self == JobState::Completed || self == JobState::Failed
    }

    /// Whether no further transition follows this state.
    pub fn is_terminal(&self) -> (r: bool)
        ensures
            r == self.terminal(),
    {
        match self {
            JobState::Completed | JobState::Failed => true,
            _ => false,
        }
    }

    /// Reads a wire status; an unrecognized one is a `Validation` error.
    pub fn parse(s: &String) -> (r: Result<JobState, MigratorError>)
        ensures
            state_named(s@) matches Some(st) ==> r == Ok::<JobState, MigratorError>(st),
            state_named(s@) is None ==> (r matches Err(MigratorError::Validation(m))
                && m@ == unknown_status_message(s@)),
    {
        if *s == String::from_str("provisioning") {
            Ok(JobState::Provisioning)
        } else if *s == String::from_str("running") {
            Ok(JobState::Running)
        } else if *s == String::from_str("completed") {
            Ok(JobState::Completed)
        } else if *s == String::from_str("failed") {
            Ok(JobState::Failed)
        } else {
            let mut m = String::from_str("Unrecognized job status: ");
            m.append(s.as_str());
            Err(MigratorError::Validation(m))
        }
    }
}

} // verus!
