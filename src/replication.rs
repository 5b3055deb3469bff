//! The decisions of the local path: when a subscription counts as caught up
//! with its publication, and when waiting for that has lasted too long. The
//! lag and position readings come from the databases through the caller.
use vstd::prelude::*;
use vstd::string::StringExecFns;

use crate::error::MigratorError;
use crate::text::{decimal, decimal_of};

verus! {

/// Whether one reading shows the subscription in step with the publication:
/// lag within tolerance and the publication's latest position reached.
pub open spec fn in_step(lag: u64, tolerance: u64, position_reached: bool) -> bool {
    lag <= tolerance && position_reached
}

/// How many readings at the end of `h` are in step, one after another.
pub open spec fn trailing_in_step(h: Seq<bool>) -> nat
    decreases h.len(),
{
    if h.len() == 0 || !h.last() {
        0
    } else {
        1 + trailing_in_step(h.drop_last())
    }
}

/// Decides, from fresh readings, whether a subscription has caught up. A
/// reading in step counts only once it has been confirmed by as many further
/// readings in step as the monitor asks for, so a single transient dip is
/// never reported as completion.
pub struct CatchUpMonitor {
    tolerance: u64,
    confirmations: u64,
    streak: u64,
    readings: Ghost<Seq<bool>>,
}

impl CatchUpMonitor {
    /// The largest lag that counts as caught up.
    pub closed spec fn tolerance(&self) -> u64 {
        self.tolerance
    }

    /// How many further readings in step must follow the first one.
    pub closed spec fn confirmations(&self) -> u64 {
        self.confirmations
    }

    /// Whether each reading so far was in step, in order.
    pub closed spec fn readings(&self) -> Seq<bool> {
        self.readings@
    }

    /// The streak counts the trailing readings in step, up to what a
    /// decision needs.
    pub closed spec fn wf(&self) -> bool {
        &&& 1 <= self.confirmations < u64::MAX
        &&& self.streak as nat == if trailing_in_step(self.readings@) <= self.confirmations + 1 {
            trailing_in_step(self.readings@)
        } else {
            (self.confirmations + 1) as nat
        }
    }

    /// A monitor that has seen no reading yet.
    pub fn new(tolerance: u64, confirmations: u64) -> (r: CatchUpMonitor)
        requires
            1 <= confirmations < u64::MAX,
        ensures
            r.wf(),
            r.tolerance() == tolerance,
            r.confirmations() == confirmations,
            r.readings() == Seq::<bool>::empty(),
    {
        CatchUpMonitor { tolerance, confirmations, streak: 0, readings: Ghost(Seq::empty()) }
    }

    /// Takes a fresh reading and says whether the subscription has caught
    /// up: true exactly when this reading and the `confirmations` readings
    /// before it were all in step.
    pub fn observe(&mut self, lag: u64, position_reached: bool) -> (r: bool)
        requires
            old(self).wf(),
        ensures
            final(self).wf(),
            final(self).tolerance() == old(self).tolerance(),
            final(self).confirmations() == old(self).confirmations(),
            final(self).readings() == old(self).readings().push(
                in_step(lag, old(self).tolerance(), position_reached),
            ),
            r == (trailing_in_step(final(self).readings()) > old(self).confirmations()),
            !in_step(lag, old(self).tolerance(), position_reached) ==> !r,
    {
        let ok = lag <= self.tolerance && position_reached;
        let ghost h = self.readings@.push(ok);
        proof {
            assert(h.drop_last() =~= self.readings@);
        }
        if ok {
            if self.streak <= self.confirmations {
                self.streak = self.streak + 1;
            }
        } else {
            self.streak = 0;
        }
        self.readings = Ghost(h);
        self.streak > self.confirmations
    }
}

/// A report of caught up rests on at least two readings in a row in step:
/// the one that crossed the threshold and a confirming one. (That a reading
/// out of step is never reported as caught up is part of `observe`'s
/// contract.)
pub proof fn lemma_caught_up_is_confirmed(m: CatchUpMonitor)
    requires
        m.wf(),
        trailing_in_step(m.readings()) > m.confirmations(),
    ensures
        m.readings().last(),
        m.readings().len() >= 2,
        m.readings()[m.readings().len() - 2],
{
    let h = m.readings();
    assert(trailing_in_step(h.drop_last()) >= 1);
    assert(h.drop_last().len() > 0);
    assert(h.drop_last().last() == h[h.len() - 2]);
}

/// What the waiter does after a check that found no catch-up.
#[derive(PartialEq, Eq, Structural, Clone, Copy, Debug)]
pub enum SyncStep {
    /// Replication has caught up: the wait is over.
    Synced,
    /// Pause for this many seconds, then check again.
    Wait(u64),
}

/// The message when the wait for catch-up times out.
pub open spec fn sync_timeout_message(elapsed: nat, timeout: nat, lag: nat) -> Seq<char> {
    "Replication did not catch up after "@ + decimal_of(elapsed) + " seconds (timeout "@
        + decimal_of(timeout) + " seconds); last observed lag: "@ + decimal_of(lag)
}

/// Paces the wait for a subscription to catch up: checks at a fixed interval
/// until one succeeds or the timeout has passed. Time is counted as the sum
/// of the pauses it asked for.
pub struct SyncWaiter {
    timeout: u64,
    interval: u64,
    elapsed: u64,
}

impl SyncWaiter {
    pub closed spec fn timeout(&self) -> u64 {
        self.timeout
    }

    pub closed spec fn interval(&self) -> u64 {
        self.interval
    }

    /// Seconds of pause asked for so far.
    pub closed spec fn elapsed(&self) -> u64 {
        self.elapsed
    }

    /// A pause is asked for only while the timeout has not passed, so the
    /// time counted never reaches a full interval beyond it.
    pub closed spec fn wf(&self) -> bool {
        &&& self.interval > 0
        &&& self.timeout + self.interval <= u64::MAX
        &&& self.elapsed < self.timeout + self.interval
    }

    /// A waiter that has not paused yet.
    pub fn new(timeout: u64, interval: u64) -> (r: SyncWaiter)
        requires
            interval > 0,
            timeout + interval <= u64::MAX,
        ensures
            r.wf(),
            r.timeout() == timeout,
            r.interval() == interval,
            r.elapsed() == 0,
    {
        SyncWaiter { timeout, interval, elapsed: 0 }
    }

    /// Decides after a check. Caught up ends the wait; otherwise, once the
    /// timeout has passed, a `Migration` error names the time waited and the
    /// last lag seen; before that, a pause of one interval.
    pub fn step(&mut self, caught_up: bool, last_lag: u64) -> (r: Result<SyncStep, MigratorError>)
        requires
            old(self).wf(),
        ensures
            final(self).wf(),
            final(self).timeout() == old(self).timeout(),
            final(self).interval() == old(self).interval(),
            caught_up ==> r == Ok::<SyncStep, MigratorError>(SyncStep::Synced) && *final(self)
                == *old(self),
            !caught_up && old(self).elapsed() >= old(self).timeout() ==> (r matches Err(
                MigratorError::Migration(m),
            ) && m@ == sync_timeout_message(
                old(self).elapsed() as nat,
                old(self).timeout() as nat,
                last_lag as nat,
            )) && *final(self) == *old(self) && old(self).timeout() <= old(self).elapsed() < old(
                self,
            ).timeout() + old(self).interval(),
            !caught_up && old(self).elapsed() < old(self).timeout() ==> r == Ok::<
                SyncStep,
                MigratorError,
            >(SyncStep::Wait(old(self).interval())) && final(self).elapsed() == old(
                self,
            ).elapsed() + old(self).interval(),
    {
        if caught_up {
            return Ok(SyncStep::Synced);
        }
        if self.elapsed >= self.timeout {
            let mut m = String::from_str("Replication did not catch up after ");
            m.append(decimal(self.elapsed).as_str());
            m.append(" seconds (timeout ");
            m.append(decimal(self.timeout).as_str());
            m.append(" seconds); last observed lag: ");
            m.append(decimal(last_lag).as_str());
            return Err(MigratorError::Migration(m));
        }
        self.elapsed = self.elapsed + self.interval;
        Ok(SyncStep::Wait(self.interval))
    }
}

/// A wait that times out reports a duration of at least the timeout and less
/// than the timeout plus one polling interval.
pub proof fn lemma_timeout_report_in_window(w: SyncWaiter)
    requires
        w.wf(),
        w.elapsed() >= w.timeout(),
    ensures
        w.timeout() <= w.elapsed() < w.timeout() + w.interval(),
{
}

} // verus!
