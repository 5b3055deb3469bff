//! The decisions of the remote path: how each answer of the job service is
//! classified, when polling stops, and how a finished job becomes a result.
//! The requests themselves, and the pauses between polls, are made by the
//! caller.
use vstd::prelude::*;
use vstd::string::StringExecFns;

use crate::error::MigratorError;
use crate::models::{state_named, unknown_status_message, JobState, JobStatus, ProgressInfo};
use crate::text::{decimal, decimal_of};

verus! {

/// Seconds to pause between two polls of a job's status.
pub const POLL_INTERVAL_SECS: u64 = 5;

/// Seconds after which a single request to the job service is abandoned.
pub const REQUEST_TIMEOUT_SECS: u64 = 30;

/// Whether an HTTP status code reports success.
pub open spec fn success_code(code: u16) -> bool {
    200 <= code < 300
}

/// The message when the service refuses a submission.
pub open spec fn submit_refused_message(code: u16, body: Seq<char>) -> Seq<char> {
    "Job submission failed with status "@ + decimal_of(code as nat) + ": "@ + body
        + ". If the remote service is unavailable, you can use --local to run replication on your machine instead"@
}

/// The message when the service answers a status request with a failure.
pub open spec fn status_refused_message(code: u16, body: Seq<char>) -> Seq<char> {
    "Failed to get job status "@ + decimal_of(code as nat) + ": "@ + body
        + ". The remote service may be experiencing issues"@
}

/// Whether an HTTP status code reports success.
pub fn is_success(code: u16) -> (r: bool)
    ensures
        r == success_code(code),
{
    200 <= code && code < 300
}

/// Classifies the answer to a submission: on success the body is handed back
/// to be decoded, otherwise a `Migration` error carries the status code, the
/// body verbatim and the local fallback.
pub fn submit_outcome(code: u16, body: String) -> (r: Result<String, MigratorError>)
    ensures
        success_code(code) ==> r == Ok::<String, MigratorError>(body),
        !success_code(code) ==> (r matches Err(MigratorError::Migration(m))
            && m@ == submit_refused_message(code, body@)),
{
    if is_success(code) {
        Ok(body)
    } else {
        let mut m = String::from_str("Job submission failed with status ");
        m.append(decimal(code as u64).as_str());
        m.append(": ");
        m.append(body.as_str());
        m.append(
            ". If the remote service is unavailable, you can use --local to run replication on your machine instead",
        );
        Err(MigratorError::Migration(m))
    }
}

/// Classifies the answer to a status request: on success the body is handed
/// back to be decoded, otherwise a `Migration` error carries the status code
/// and the body verbatim.
pub fn status_outcome(code: u16, body: String) -> (r: Result<String, MigratorError>)
    ensures
        success_code(code) ==> r == Ok::<String, MigratorError>(body),
        !success_code(code) ==> (r matches Err(MigratorError::Migration(m))
            && m@ == status_refused_message(code, body@)),
{
    if is_success(code) {
        Ok(body)
    } else {
        let mut m = String::from_str("Failed to get job status ");
        m.append(decimal(code as u64).as_str());
        m.append(": ");
        m.append(body.as_str());
        m.append(". The remote service may be experiencing issues");
        Err(MigratorError::Migration(m))
    }
}

/// The error when a submission could not be sent at all.
pub fn submit_unreachable(detail: &str) -> (r: MigratorError)
    ensures
        r matches MigratorError::Connection(m) && m@ ==
            "Failed to submit job to remote service. If the service is unavailable, you can use --local to run replication on your machine instead: "@
            + detail@,
{
    let mut m = String::from_str(
        "Failed to submit job to remote service. If the service is unavailable, you can use --local to run replication on your machine instead: ",
    );
    m.append(detail);
    MigratorError::Connection(m)
}

/// The error when a status request could not be sent at all.
pub fn status_unreachable(detail: &str) -> (r: MigratorError)
    ensures
        r matches MigratorError::Connection(m) && m@
            == "Failed to get job status from remote service. The remote service may be unavailable: "@
            + detail@,
{
    let mut m = String::from_str(
        "Failed to get job status from remote service. The remote service may be unavailable: ",
    );
    m.append(detail);
    MigratorError::Connection(m)
}

/// The error when a successful submission answer does not decode.
pub fn undecodable_response(detail: &str) -> (r: MigratorError)
    ensures
        r matches MigratorError::Validation(m) && m@ == "Failed to parse job response: "@ + detail@,
{
    let mut m = String::from_str("Failed to parse job response: ");
    m.append(detail);
    MigratorError::Validation(m)
}

/// The error when a successful status answer does not decode.
pub fn undecodable_status(detail: &str) -> (r: MigratorError)
    ensures
        r matches MigratorError::Validation(m) && m@ == "Failed to parse job status: "@ + detail@,
{
    let mut m = String::from_str("Failed to parse job status: ");
    m.append(detail);
    MigratorError::Validation(m)
}

/// What the poller does after a snapshot was accepted.
#[derive(PartialEq, Eq, Structural, Clone, Copy, Debug)]
pub enum PollStep {
    /// The job is still under way: pause, then poll again.
    Continue,
    /// The job reached a terminal status: stop polling.
    Finished,
}

/// Whether a report names a current database only where one can be under
/// way: while the job is running and fewer databases are done than there are.
pub open spec fn current_database_fits(st: JobState, p: ProgressInfo) -> bool {
    p.current_database is Some ==> st == JobState::Running && p.databases_completed
        < p.databases_total
}

/// Whether a progress report, in a snapshot of state `st`, fits the reports
/// accepted before it: completed never exceeds total, a current database is
/// named only while one can be under way, and completed never goes back.
pub open spec fn progress_fits(st: JobState, last: Option<nat>, p: Option<ProgressInfo>) -> bool {
    match p {
        None => true,
        Some(p) => p.databases_completed <= p.databases_total && current_database_fits(st, p)
            && match last {
            None => true,
            Some(l) => l <= p.databases_completed,
        },
    }
}

/// The message for a report that names a current database where none can be
/// under way.
pub open spec fn stray_database_message() -> Seq<char> {
    "Progress names a current database although the job is not running or all databases are done"@
}

/// The message for a snapshot that arrives after a terminal one.
pub open spec fn after_terminal_message(job_id: Seq<char>) -> Seq<char> {
    "Job "@ + job_id + " reported a status after it had already finished"@
}

/// The message for a report of more databases completed than there are.
pub open spec fn overfull_message(done: nat, total: nat) -> Seq<char> {
    "Progress reports "@ + decimal_of(done) + " of "@ + decimal_of(total) + " databases completed"@
}

/// The message for a report of fewer databases completed than before.
pub open spec fn regression_message(before: nat, now: nat) -> Seq<char> {
    "Progress went back from "@ + decimal_of(before) + " to "@ + decimal_of(now)
        + " databases completed"@
}

/// Follows the snapshots of one job while it is polled, and decides after
/// each whether to poll again. Snapshots that break the protocol (an unknown
/// status, progress that goes back, anything after a terminal status) are
/// rejected, so that they are never passed on.
pub struct PollTracker {
    last_completed: Option<usize>,
    finished: bool,
    accepted: Ghost<Seq<JobState>>,
    progress: Ghost<Seq<nat>>,
}

impl PollTracker {
    /// The states of the snapshots accepted so far, in order.
    pub closed spec fn history(&self) -> Seq<JobState> {
        self.accepted@
    }

    /// The databases-completed count of the latest accepted progress report.
    pub closed spec fn last_completed(&self) -> Option<nat> {
        match self.last_completed {
            Some(c) => Some(c as nat),
            None => None,
        }
    }

    /// The databases-completed counts of the accepted progress reports, in
    /// order.
    pub closed spec fn progress_history(&self) -> Seq<nat> {
        self.progress@
    }

    /// Whether a terminal snapshot has been accepted.
    pub closed spec fn is_finished(&self) -> bool {
        self.finished
    }

    /// Polling stops exactly at the first terminal state.
    pub closed spec fn wf(&self) -> bool {
        let h = self.accepted@;
        &&& self.finished == (h.len() > 0 && h.last().terminal())
        &&& forall|i: int| 0 <= i < h.len() - 1 ==> !(#[trigger] h[i]).terminal()
        &&& self.last_completed() == if self.progress@.len() == 0 {
            None
        } else {
            Some(self.progress@.last())
        }
        &&& forall|i: int, j: int|
            0 <= i <= j < self.progress@.len() ==> #[trigger] self.progress@[i] <= #[trigger] self.progress@[j]
    }

    /// A tracker for a job of which nothing has been seen yet.
    pub fn new() -> (r: PollTracker)
        ensures
            r.wf(),
            r.history() == Seq::<JobState>::empty(),
            r.progress_history() == Seq::<nat>::empty(),
            r.last_completed() is None,
            !r.is_finished(),
    {
        PollTracker {
            last_completed: None,
            finished: false,
            accepted: Ghost(Seq::empty()),
            progress: Ghost(Seq::empty()),
        }
    }

    /// Whether a terminal snapshot has been accepted.
    pub fn finished(&self) -> (r: bool)
        ensures
            r == self.is_finished(),
    {
        self.finished
    }

    /// Judges the next snapshot. An accepted snapshot is to be passed on to
    /// the progress callback; `Finished` comes exactly when its status is
    /// terminal. A rejected one leaves the tracker as it was.
    pub fn observe(&mut self, status: &JobStatus) -> (r: Result<PollStep, MigratorError>)
        requires
            old(self).wf(),
        ensures
            final(self).wf(),
            state_named(status.status@) is None ==> (r matches Err(MigratorError::Validation(m))
                && m@ == unknown_status_message(status.status@)),
            state_named(status.status@) is Some && old(self).is_finished() ==> (r matches Err(
                MigratorError::Validation(m),
            ) && m@ == after_terminal_message(status.job_id@)),
            match state_named(status.status@) {
                Some(st) => !old(self).is_finished() && !progress_fits(
                    st,
                    old(self).last_completed(),
                    status.progress,
                ) ==> (r matches Err(MigratorError::Validation(m)) && match status.progress {
                    Some(p) => if p.databases_completed > p.databases_total {
                        m@ == overfull_message(
                            p.databases_completed as nat,
                            p.databases_total as nat,
                        )
                    } else if !current_database_fits(st, p) {
                        m@ == stray_database_message()
                    } else {
                        m@ == regression_message(
                            old(self).last_completed()->0,
                            p.databases_completed as nat,
                        )
                    },
                    None => false,
                }),
                None => true,
            },
            r is Err ==> *final(self) == *old(self),
            match state_named(status.status@) {
                Some(st) => !old(self).is_finished() && progress_fits(
                    st,
                    old(self).last_completed(),
                    status.progress,
                ) ==> {
                    &&& r == Ok::<PollStep, MigratorError>(
                        if st.terminal() {
                            PollStep::Finished
                        } else {
                            PollStep::Continue
                        },
                    )
                    &&& final(self).history() == old(self).history().push(st)
                    &&& final(self).is_finished() == st.terminal()
                    &&& final(self).last_completed() == match status.progress {
                        Some(p) => Some(p.databases_completed as nat),
                        None => old(self).last_completed(),
                    }
                    &&& final(self).progress_history() == match status.progress {
                        Some(p) => old(self).progress_history().push(p.databases_completed as nat),
                        None => old(self).progress_history(),
                    }
                },
                None => true,
            },
    {
        let st = match JobState::parse(&status.status) {
            Ok(st) => st,
            Err(e) => {
                return Err(e);
            },
        };
        if self.finished {
            let mut m = String::from_str("Job ");
            m.append(status.job_id.as_str());
            m.append(" reported a status after it had already finished");
            return Err(MigratorError::Validation(m));
        }
        match &status.progress {
            Some(p) => {
                if p.databases_completed > p.databases_total {
                    let mut m = String::from_str("Progress reports ");
                    m.append(decimal(p.databases_completed as u64).as_str());
                    m.append(" of ");
                    m.append(decimal(p.databases_total as u64).as_str());
                    m.append(" databases completed");
                    return Err(MigratorError::Validation(m));
                }
                if p.current_database.is_some() && !(st == JobState::Running
                    && p.databases_completed < p.databases_total) {
                    return Err(
                        MigratorError::Validation(
                            String::from_str(
                                "Progress names a current database although the job is not running or all databases are done",
                            ),
                        ),
                    );
                }
                match self.last_completed {
                    Some(l) => {
                        if p.databases_completed < l {
                            let mut m = String::from_str("Progress went back from ");
                            m.append(decimal(l as u64).as_str());
                            m.append(" to ");
                            m.append(decimal(p.databases_completed as u64).as_str());
                            m.append(" databases completed");
                            return Err(MigratorError::Validation(m));
                        }
                    },
                    None => {},
                }
                proof {
                    let ps = self.progress@;
                    let ps2 = ps.push(p.databases_completed as nat);
                    assert forall|i: int, j: int| 0 <= i <= j < ps2.len() implies #[trigger] ps2[i]
                        <= #[trigger] ps2[j] by {
                        if j == ps.len() && i < j {
                            assert(ps[i] <= ps[ps.len() - 1]);
                        }
                    }
                }
                self.last_completed = Some(p.databases_completed);
                self.progress = Ghost(self.progress@.push(p.databases_completed as nat));
            },
            None => {},
        }
        proof {
            let h = self.accepted@;
            let h2 = h.push(st);
            assert forall|i: int| 0 <= i < h2.len() - 1 implies !(#[trigger] h2[i]).terminal() by {
                assert(h2[i] == h[i]);
            }
        }
        self.accepted = Ghost(self.accepted@.push(st));
        let terminal = st.is_terminal();
        self.finished = terminal;
        if terminal {
            Ok(PollStep::Finished)
        } else {
            Ok(PollStep::Continue)
        }
    }
}

/// A job that has been polled to its end accepted at least one snapshot, the
/// last one terminal and every one before it not terminal: polling neither
/// stops on a transient status nor goes on past the first terminal one.
pub proof fn lemma_polling_ends_at_first_terminal(t: PollTracker)
    requires
        t.wf(),
        t.is_finished(),
    ensures
        t.history().len() > 0,
        t.history().last().terminal(),
        forall|i: int| 0 <= i < t.history().len() - 1 ==> !(#[trigger] t.history()[i]).terminal(),
{
}

/// Progress passed on while a job is polled never goes back: the
/// databases-completed counts of the accepted reports do not decrease.
pub proof fn lemma_progress_never_goes_back(t: PollTracker, i: int, j: int)
    requires
        t.wf(),
        0 <= i <= j < t.progress_history().len(),
    ensures
        t.progress_history()[i] <= t.progress_history()[j],
{
}

/// The message of a job that reports `failed`: its own error, if it gave one.
pub open spec fn failed_job_message(error: Option<String>) -> Seq<char> {
    "Remote job failed: "@ + match error {
        Some(e) => e@,
        None => "no error message was reported"@,
    }
}

/// The message when the snapshot taken as final is not terminal.
pub open spec fn unfinished_message(job_id: Seq<char>) -> Seq<char> {
    "Job "@ + job_id + " has not reached a terminal status"@
}

/// Turns a job's final snapshot into the migration's result: `completed` is
/// success, `failed` a `Migration` error that carries the job's own error
/// message.
pub fn job_outcome(status: JobStatus) -> (r: Result<JobStatus, MigratorError>)
    ensures
        state_named(status.status@) is None ==> (r matches Err(MigratorError::Validation(m))
            && m@ == unknown_status_message(status.status@)),
        state_named(status.status@) == Some(JobState::Completed) ==> r == Ok::<
            JobStatus,
            MigratorError,
        >(status),
        state_named(status.status@) == Some(JobState::Failed) ==> (r matches Err(
            MigratorError::Migration(m),
        ) && m@ == failed_job_message(status.error)),
        state_named(status.status@) matches Some(st) && !st.terminal() ==> (r matches Err(
            MigratorError::Validation(m),
        ) && m@ == unfinished_message(status.job_id@)),
{
    let st = match JobState::parse(&status.status) {
        Ok(st) => st,
        Err(e) => {
            return Err(e);
        },
    };
    match st {
        JobState::Completed => Ok(status),
        JobState::Failed => {
            let mut m = String::from_str("Remote job failed: ");
            match &status.error {
                Some(e) => m.append(e.as_str()),
                None => m.append("no error message was reported"),
            }
            Err(MigratorError::Migration(m))
        },
        _ => {
            let mut m = String::from_str("Job ");
            m.append(status.job_id.as_str());
            m.append(" has not reached a terminal status");
            Err(MigratorError::Validation(m))
        },
    }
}

} // verus!
