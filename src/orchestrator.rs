//! The single entry point's decisions, shared by both paths: how a remote job
//! is described, what a progress report carries, and what the local path must
//! undo when one of its steps fails.
use std::collections::HashMap;
use vstd::prelude::*;
use vstd::string::StringExecFns;

use crate::models::{FilterSpec, JobSpec, JobStatus};

verus! {

/// How a migration runs; chosen once, before either path begins.
#[derive(PartialEq, Eq, Structural, Clone, Copy, Debug)]
pub enum ExecutionMode {
    /// Replication driven directly against the two databases.
    Local,
    /// A job handed to the remote execution service.
    Remote,
}

/// What a migration is asked to do.
#[derive(PartialEq, Eq, Structural, Clone, Copy, Debug)]
pub enum MigrationCommand {
    /// A first full copy.
    Init,
    /// Ongoing replication.
    Sync,
}

impl MigrationCommand {
    /// The command's name on the wire.
    pub open spec fn wire(self) -> Seq<char> {
        match self {
            MigrationCommand::Init => "init"@,
            MigrationCommand::Sync => "sync"@,
        }
    }

    /// The command's name on the wire.
    pub fn as_str(&self) -> (r: &'static str)
        ensures
            r@ == self.wire(),
    {
        match self {
            MigrationCommand::Init => "init",
            MigrationCommand::Sync => "sync",
        }
    }
}

impl JobSpec {
    /// Describes a migration to the remote service, with no extra options.
    pub fn new(
        version: String,
        command: MigrationCommand,
        source_url: String,
        target_url: String,
        filter: Option<FilterSpec>,
    ) -> (r: JobSpec)
        ensures
            r.version == version,
            r.command@ == command.wire(),
            r.source_url == source_url,
            r.target_url == target_url,
            r.filter == filter,
            r.options@ == Map::<String, serde_json::Value>::empty(),
    {
        JobSpec {
            version,
            command: String::from_str(command.as_str()),
            source_url,
            target_url,
            filter,
            options: HashMap::new(),
        }
    }
}

/// A progress report in the shape shared by both paths: the database being
/// migrated, how many are done, how many there are.
pub type ProgressTick = (Option<String>, usize, usize);

/// The progress report that a snapshot carries, if any.
pub open spec fn tick_of(status: JobStatus) -> Option<ProgressTick> {
    match status.progress {
        Some(p) => Some((p.current_database, p.databases_completed, p.databases_total)),
        None => None,
    }
}

/// Takes the progress report out of a snapshot, to be forwarded to the
/// progress callback.
pub fn progress_tick(status: &JobStatus) -> (r: Option<ProgressTick>)
    ensures
        r == tick_of(*status),
{
    match &status.progress {
        Some(p) => {
            let db = match &p.current_database {
                Some(d) => Some(d.clone()),
                None => None,
            };
            Some((db, p.databases_completed, p.databases_total))
        },
        None => None,
    }
}

/// The steps of the local path, in the order they run.
#[derive(PartialEq, Eq, Structural, Clone, Copy, Debug)]
pub enum LocalStep {
    CreatePublication,
    CreateSubscription,
    WaitForSync,
}

/// A replication object that the local path creates.
#[derive(PartialEq, Eq, Structural, Clone, Copy, Debug)]
pub enum Artifact {
    /// The publication on the source.
    Publication,
    /// The subscription on the target.
    Subscription,
}

/// The position of a step on the local path.
pub open spec fn step_rank(s: LocalStep) -> nat {
    match s {
        LocalStep::CreatePublication => 0,
        LocalStep::CreateSubscription => 1,
        LocalStep::WaitForSync => 2,
    }
}

/// The object that a step creates, if it creates one.
pub open spec fn created_by(s: LocalStep) -> Option<Artifact> {
    match s {
        LocalStep::CreatePublication => Some(Artifact::Publication),
        LocalStep::CreateSubscription => Some(Artifact::Subscription),
        LocalStep::WaitForSync => None,
    }
}

/// What is dropped after `failed` fails: every object created before it,
/// the latest first.
pub open spec fn cleanup_of(failed: LocalStep) -> Seq<Artifact> {
    match failed {
        LocalStep::CreatePublication => seq![],
        LocalStep::CreateSubscription => seq![Artifact::Publication],
        LocalStep::WaitForSync => seq![Artifact::Subscription, Artifact::Publication],
    }
}

/// The step that runs first on the local path.
pub fn first_local_step() -> (r: LocalStep)
    ensures
        step_rank(r) == 0,
{
    LocalStep::CreatePublication
}

/// The step after `s`, or `None` when `s` completes the local path.
pub fn next_local_step(s: LocalStep) -> (r: Option<LocalStep>)
    ensures
        r matches Some(n) ==> step_rank(n) == step_rank(s) + 1,
        r is None <==> s == LocalStep::WaitForSync,
{
    match s {
        LocalStep::CreatePublication => Some(LocalStep::CreateSubscription),
        LocalStep::CreateSubscription => Some(LocalStep::WaitForSync),
        LocalStep::WaitForSync => None,
    }
}

/// The objects to drop, in order, after the local path fails at `failed`.
pub fn cleanup_after(failed: LocalStep) -> (r: Vec<Artifact>)
    ensures
        r@ == cleanup_of(failed),
{
    match failed {
        LocalStep::CreatePublication => Vec::new(),
        LocalStep::CreateSubscription => vec![Artifact::Publication],
        LocalStep::WaitForSync => vec![Artifact::Subscription, Artifact::Publication],
    }
}

/// A failed local migration leaves nothing behind: the cleanup after a step
/// drops exactly the objects that the steps before it created, each once,
/// in the reverse of the order they were made.
pub proof fn lemma_cleanup_drops_exactly_what_was_created(failed: LocalStep)
    ensures
        forall|s: LocalStep, a: Artifact|
            step_rank(s) < step_rank(failed) && created_by(s) == Some(a) ==> cleanup_of(
                failed,
            ).contains(a),
        forall|i: int|
            0 <= i < cleanup_of(failed).len() ==> exists|s: LocalStep|
                step_rank(s) < step_rank(failed) && created_by(s) == Some(
                    #[trigger] cleanup_of(failed)[i],
                ),
        forall|i: int, j: int|
            0 <= i < j < cleanup_of(failed).len() ==> cleanup_of(failed)[i] != cleanup_of(
                failed,
            )[j],
{
    assert forall|i: int|
        0 <= i < cleanup_of(failed).len() implies exists|s: LocalStep|
            step_rank(s) < step_rank(failed) && created_by(s) == Some(
                #[trigger] cleanup_of(failed)[i],
            ) by {
        if cleanup_of(failed)[i] == Artifact::Publication {
            assert(created_by(LocalStep::CreatePublication) == Some(cleanup_of(failed)[i]));
        } else {
            assert(created_by(LocalStep::CreateSubscription) == Some(cleanup_of(failed)[i]));
        }
    }
    assert forall|s: LocalStep, a: Artifact|
        step_rank(s) < step_rank(failed) && created_by(s) == Some(a) implies cleanup_of(
            failed,
        ).contains(a) by {
        if a == Artifact::Publication {
            assert(cleanup_of(failed)[cleanup_of(failed).len() - 1] == a);
        } else {
            assert(cleanup_of(failed)[0] == a);
        }
    }
}

} // verus!
