//! The top-level handles of the library: the environment, the polling
//! executor and the client, each over a scheduler.
use vstd::prelude::*;
use std::sync::Arc;
use std::time::Duration;
use crate::scheduler::Scheduler;

verus! {

/// The Mate environment.
pub struct Mate {}

impl Mate {
    /// A new environment; this never fails.
    pub fn new() -> (r: Result<Mate, String>)
        ensures
            r matches Ok(m) && m == (Mate {}),
    {
        Ok(Mate {})
    }
}

/// Polls a scheduler for jobs, waiting `threshold` between two polls.
pub struct Executor<SB> {
    scheduler: Arc<Scheduler<SB>>,
    threshold: Duration,
}

impl<SB> Executor<SB> {
    /// An executor polling `scheduler` every `threshold`.
    pub fn new(scheduler: Arc<Scheduler<SB>>, threshold: Duration) -> (r: Executor<SB>)
        ensures
            r.scheduler_spec() == scheduler,
            r.threshold_spec() == threshold,
    {
        Executor { scheduler, threshold }
    }

    /// The scheduler that is polled.
    pub closed spec fn scheduler_spec(&self) -> Arc<Scheduler<SB>> {
        self.scheduler
    }

    /// The time between two polls.
    pub closed spec fn threshold_spec(&self) -> Duration {
        self.threshold
    }

    /// The scheduler that is polled.
    pub fn scheduler(&self) -> (r: &Arc<Scheduler<SB>>)
        ensures
            *r == self.scheduler_spec(),
    {
        &self.scheduler
    }

    /// The time between two polls.
    pub fn threshold(&self) -> (r: Duration)
        ensures
            r == self.threshold_spec(),
    {
        self.threshold
    }
}

/// Queues jobs on a scheduler that an executor polls.
pub struct MateClient<SB> {
    executor: Arc<Executor<SB>>,
    scheduler: Arc<Scheduler<SB>>,
}

impl<SB> MateClient<SB> {
    /// A client of `scheduler`, polled by `executor`.
    pub fn new(executor: Arc<Executor<SB>>, scheduler: Arc<Scheduler<SB>>) -> (r: MateClient<SB>)
        ensures
            r.executor_spec() == executor,
            r.scheduler_spec() == scheduler,
    {
        MateClient { executor, scheduler }
    }

    /// The executor that polls the scheduler.
    pub closed spec fn executor_spec(&self) -> Arc<Executor<SB>> {
        self.executor
    }

    /// The scheduler that jobs are queued on.
    pub closed spec fn scheduler_spec(&self) -> Arc<Scheduler<SB>> {
        self.scheduler
    }

    /// The executor that polls the scheduler.
    pub fn executor(&self) -> (r: &Arc<Executor<SB>>)
        ensures
            *r == self.executor_spec(),
    {
        &self.executor
    }

    /// The scheduler that jobs are queued on.
    pub fn scheduler(&self) -> (r: &Arc<Scheduler<SB>>)
        ensures
            *r == self.scheduler_spec(),
    {
        &self.scheduler
    }
}

} // verus!
