//! The scheduler: a job queue over a backend, the replies it sends for the
//! requests it gets, and what its polling loop does with popped jobs.
use vstd::prelude::*;
use crate::message::{ExecutorRequest, MainReply, Message, SchedulerRequest};
use crate::proto::{Job, JobView, PushJobDto};
use crate::backend::job_views;

verus! {

/// A job queue kept by a backend.
pub struct Scheduler<B> {
    backend: B,
}

impl<B> Scheduler<B> {
    /// A scheduler over `backend`.
    pub fn new(backend: B) -> (r: Scheduler<B>)
        ensures
            r.backend_spec() == backend,
    {
        Scheduler { backend }
    }

    /// The backend that keeps the queue.
    pub closed spec fn backend_spec(&self) -> B {
        self.backend
    }

    /// The backend that keeps the queue.
    pub fn backend(&self) -> (r: &B)
        ensures
            *r == self.backend_spec(),
    {
        &self.backend
    }
}

/// The backend operation that a request to the scheduler asks for.
#[derive(Debug)]
pub enum SchedulerOp {
    Push(PushJobDto),
    Pop,
    List,
    Exit,
}

/// The operation that a message on the scheduler's pipe asks for: its
/// scheduler request, or none for any other message, which the scheduler
/// ignores.
pub fn scheduler_op(msg: Message) -> (r: Option<SchedulerOp>)
    ensures
        match msg {
            Message::SchedulerRequest(SchedulerRequest::PushJob(dto)) => r matches Some(SchedulerOp::Push(d)) && d == dto,
            Message::SchedulerRequest(SchedulerRequest::PopJob) => r matches Some(SchedulerOp::Pop),
            Message::SchedulerRequest(SchedulerRequest::ListJobs) => r matches Some(SchedulerOp::List),
            Message::SchedulerRequest(SchedulerRequest::Exit) => r matches Some(SchedulerOp::Exit),
            _ => r is None,
        },
{
    match msg {
        Message::SchedulerRequest(req) => match req {
            SchedulerRequest::PushJob(dto) => Some(SchedulerOp::Push(dto)),
            SchedulerRequest::PopJob => Some(SchedulerOp::Pop),
            SchedulerRequest::ListJobs => Some(SchedulerOp::List),
            SchedulerRequest::Exit => Some(SchedulerOp::Exit),
        },
        _ => None,
    }
}

/// How a scheduler operation ended.
#[derive(Debug)]
pub enum SchedulerOutcome {
    /// A push: the new job's key, or why it failed.
    Pushed(Result<String, String>),
    /// A pop: the jobs taken, or why it failed.
    Popped(Result<Vec<Job>, String>),
    /// A list: the queued jobs, or why it failed.
    Listed(Result<Vec<Job>, String>),
    /// The scheduler is asked to exit.
    Exiting,
}

/// The text with which a created job is acknowledged.
pub open spec fn job_created_ack() -> Seq<char> {
    "JOB ID"@
}

/// The reply that the scheduler sends to the main process once an operation
/// ended, and whether the scheduler exits after sending it.
pub fn scheduler_reply(outcome: SchedulerOutcome) -> (r: (Message, bool))
    ensures
        match outcome {
            SchedulerOutcome::Pushed(Ok(_)) => !r.1
                && (r.0 matches Message::MainReply(MainReply::JobCreated(t)) && t@ == job_created_ack()),
            SchedulerOutcome::Pushed(Err(e)) => !r.1
                && (r.0 matches Message::MainReply(MainReply::Error(m)) && m@ == e@),
            SchedulerOutcome::Popped(Ok(jobs)) => !r.1
                && (r.0 matches Message::MainReply(MainReply::JobPopped(js)) && job_views(js@) == job_views(jobs@)),
            SchedulerOutcome::Popped(Err(e)) => !r.1
                && (r.0 matches Message::MainReply(MainReply::Error(m)) && m@ == e@),
            SchedulerOutcome::Listed(Ok(jobs)) => !r.1
                && (r.0 matches Message::MainReply(MainReply::ListJobs(js)) && job_views(js@) == job_views(jobs@)),
            SchedulerOutcome::Listed(Err(e)) => !r.1
                && (r.0 matches Message::MainReply(MainReply::Error(m)) && m@ == e@),
            SchedulerOutcome::Exiting => r.1 && r.0 matches Message::MainReply(MainReply::SchedulerExited),
        },
{
    match outcome {
        SchedulerOutcome::Pushed(Ok(_)) => {
            let ack = String::from_str("JOB ID");
            (Message::MainReply(MainReply::JobCreated(ack)), false)
        },
        SchedulerOutcome::Pushed(Err(e)) => (Message::MainReply(MainReply::Error(e)), false),
        SchedulerOutcome::Popped(Ok(jobs)) => (Message::MainReply(MainReply::JobPopped(jobs)), false),
        SchedulerOutcome::Popped(Err(e)) => (Message::MainReply(MainReply::Error(e)), false),
        SchedulerOutcome::Listed(Ok(jobs)) => (Message::MainReply(MainReply::ListJobs(jobs)), false),
        SchedulerOutcome::Listed(Err(e)) => (Message::MainReply(MainReply::Error(e)), false),
        SchedulerOutcome::Exiting => (Message::MainReply(MainReply::SchedulerExited), true),
    }
}

/// The message that hands jobs over to the executor.
pub fn forward_jobs(jobs: Vec<Job>) -> (r: Message)
    ensures
        r matches Message::ExecutorRequest(ExecutorRequest::ExecuteJobs(js)) && job_views(js@) == job_views(jobs@),
{
    Message::ExecutorRequest(ExecutorRequest::ExecuteJobs(jobs))
}

/// What the scheduler's polling loop does after a pop.
#[derive(Debug)]
pub enum PollAction {
    /// Nothing was popped: wait for the next round.
    Wait,
    /// Hand these jobs over to the main process.
    Forward(Vec<Job>),
    /// The pop failed: report this message and wait for the next round.
    Report(String),
}

/// What the polling loop does after a pop, as plain values.
pub enum PollDecision {
    Wait,
    Forward(Seq<JobView>),
    Report(Seq<char>),
}

impl View for PollAction {
    type V = PollDecision;

    open spec fn view(&self) -> PollDecision {
        match self {
            PollAction::Wait => PollDecision::Wait,
            PollAction::Forward(js) => PollDecision::Forward(job_views(js@)),
            PollAction::Report(m) => PollDecision::Report(m@),
        }
    }
}

/// The result of a pop, as plain values.
pub open spec fn popped_view(r: Result<Vec<Job>, String>) -> Result<Seq<JobView>, Seq<char>> {
    match r {
        Ok(js) => Ok(job_views(js@)),
        Err(e) => Err(e@),
    }
}

/// What the polling loop decides for the result of one pop.
pub open spec fn poll_decision(r: Result<Seq<JobView>, Seq<char>>) -> PollDecision {
    match r {
        Ok(js) => if js.len() == 0 {
            PollDecision::Wait
        } else {
            PollDecision::Forward(js)
        },
        Err(e) => PollDecision::Report(e),
    }
}

/// The batches that the polling loop hands over, in order, for a series of
/// pop results.
pub open spec fn forwarded(rs: Seq<Result<Seq<JobView>, Seq<char>>>) -> Seq<Seq<JobView>> {
    rs.filter_map(|r: Result<Seq<JobView>, Seq<char>>| match poll_decision(r) {
        PollDecision::Forward(js) => Some(js),
        _ => None,
    })
}

/// Whether a pop result is a successful, non-empty batch.
pub open spec fn is_nonempty_batch(r: Result<Seq<JobView>, Seq<char>>) -> bool {
    r matches Ok(js) && js.len() > 0
}

/// The jobs of a successful pop (nothing for a failed one).
pub open spec fn batch_of(r: Result<Seq<JobView>, Seq<char>>) -> Seq<JobView> {
    match r {
        Ok(js) => js,
        Err(_) => Seq::empty(),
    }
}

/// Law: over any series of pops, the polling loop hands over exactly the
/// successful non-empty batches, unchanged and in order; empty batches and
/// failures hand over nothing.
pub proof fn law_forwarded_batches(rs: Seq<Result<Seq<JobView>, Seq<char>>>)
    ensures
        forwarded(rs) == rs.filter(|r: Result<Seq<JobView>, Seq<char>>| is_nonempty_batch(r)).map_values(
            |r: Result<Seq<JobView>, Seq<char>>| batch_of(r),
        ),
    decreases rs.len(),
{
    reveal(Seq::filter);
    let pred = |r: Result<Seq<JobView>, Seq<char>>| is_nonempty_batch(r);
    let f = |r: Result<Seq<JobView>, Seq<char>>| batch_of(r);
    if rs.len() > 0 {
        law_forwarded_batches(rs.drop_last());
        let sub = rs.drop_last().filter(pred);
        if pred(rs.last()) {
            assert(sub.push(rs.last()).map_values(f) =~= sub.map_values(f).push(f(rs.last())));
            assert(forwarded(rs) =~= forwarded(rs.drop_last()) + seq![batch_of(rs.last())]);
            assert(sub.map_values(f).push(f(rs.last())) =~= sub.map_values(f) + seq![batch_of(rs.last())]);
        }
    } else {
        assert(rs.filter(pred) =~= Seq::<Result<Seq<JobView>, Seq<char>>>::empty());
    }
}

/// What the polling loop does with the result of a pop: jobs are handed
/// over, an empty pop is skipped, and a failure is reported.
pub fn on_popped(popped: Result<Vec<Job>, String>) -> (r: PollAction)
    ensures
        r@ == poll_decision(popped_view(popped)),
        match popped {
            Ok(jobs) => if jobs@.len() == 0 {
                r is Wait
            } else {
                r matches PollAction::Forward(js) && job_views(js@) == job_views(jobs@)
            },
            Err(e) => r matches PollAction::Report(m) && m@ == e@,
        },
{
    match popped {
        Ok(jobs) => if jobs.len() == 0 {
            PollAction::Wait
        } else {
            PollAction::Forward(jobs)
        },
        Err(e) => PollAction::Report(e),
    }
}

} // verus!
