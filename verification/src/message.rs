//! The messages that the REPL, the scheduler and the executor exchange.
use vstd::prelude::*;
use crate::proto::{Job, PushJobDto, Task};

verus! {

/// A message on one of the pipes.
#[derive(Debug)]
pub enum Message {
    Text(String),
    MainReply(MainReply),
    SchedulerRequest(SchedulerRequest),
    ExecutorRequest(ExecutorRequest),
}

/// A reply to the main process (the REPL).
#[derive(Debug)]
pub enum MainReply {
    JobCreated(String),
    JobPopped(Vec<Job>),
    ListJobs(Vec<Job>),
    Error(String),
    SchedulerExited,
    TaskCreated(String),
    TasksList(Vec<Task>),
    ExecutorExited,
}

/// A request to the scheduler.
#[derive(Debug)]
pub enum SchedulerRequest {
    PushJob(PushJobDto),
    PopJob,
    ListJobs,
    Exit,
}

/// A request to the executor.
#[derive(Debug)]
pub enum ExecutorRequest {
    CreateTask(Task),
    ListTasks,
    ExecuteJobs(Vec<Job>),
    Exit,
}

} // verus!
