//! The executor: it keeps tasks in its store and answers the requests that
//! reach it over its pipe.
use vstd::prelude::*;
use crate::message::{ExecutorRequest, MainReply, Message};
use crate::proto::{Job, Task};
use crate::backend::job_views;
use crate::storage::{lists_exactly, lookup, stored_after_create, Storage, StorageError};

verus! {

/// Runs the WebAssembly module of a task; it holds no state.
pub struct Executor {}

impl Executor {
    /// A new executor.
    pub fn new() -> (r: Executor)
        ensures
            r == (Executor {}),
    {
        Executor {}
    }
}

impl Default for Executor {
    fn default() -> (r: Executor)
        ensures
            r == (Executor {}),
    {
        Executor::new()
    }
}

/// What the executor does with a message that reached it.
#[derive(Debug)]
pub enum ExecutorOutcome {
    /// Send this reply to the main process.
    Reply(Message),
    /// Hand these jobs to the task that runs them.
    Run(Vec<Job>),
    /// Send this reply to the main process, then exit.
    ReplyAndExit(Message),
    /// The message is not an executor request: do nothing.
    Ignore,
}

/// Handles a message that reached the executor: a task to create is stored
/// and acknowledged by its name, a listing is answered with every stored
/// task, jobs to execute are handed on, and an exit is acknowledged before
/// the executor exits.
pub fn handle_executor_message(storage: &mut Storage, msg: Message) -> (r: ExecutorOutcome)
    ensures
        match msg {
            Message::ExecutorRequest(ExecutorRequest::CreateTask(task)) => {
                &&& final(storage)@ == stored_after_create(old(storage)@, task.name@, task.wasm@)
                &&& r matches ExecutorOutcome::Reply(Message::MainReply(MainReply::TaskCreated(n)))
                &&& n@ == task.name@
            },
            Message::ExecutorRequest(ExecutorRequest::ListTasks) => {
                &&& final(storage)@ == old(storage)@
                &&& r matches ExecutorOutcome::Reply(Message::MainReply(MainReply::TasksList(ts)))
                &&& lists_exactly(ts@, old(storage)@)
            },
            Message::ExecutorRequest(ExecutorRequest::ExecuteJobs(jobs)) => {
                &&& final(storage)@ == old(storage)@
                &&& r matches ExecutorOutcome::Run(js)
                &&& job_views(js@) == job_views(jobs@)
            },
            Message::ExecutorRequest(ExecutorRequest::Exit) => {
                &&& final(storage)@ == old(storage)@
                &&& r matches ExecutorOutcome::ReplyAndExit(Message::MainReply(MainReply::ExecutorExited))
            },
            _ => final(storage)@ == old(storage)@ && r is Ignore,
        },
{
    match msg {
        Message::ExecutorRequest(req) => match req {
            ExecutorRequest::CreateTask(task) => {
                storage.create_task(&task);
                ExecutorOutcome::Reply(Message::MainReply(MainReply::TaskCreated(task.name)))
            },
            ExecutorRequest::ListTasks => {
                let tasks = storage.list_tasks();
                ExecutorOutcome::Reply(Message::MainReply(MainReply::TasksList(tasks)))
            },
            ExecutorRequest::ExecuteJobs(jobs) => ExecutorOutcome::Run(jobs),
            ExecutorRequest::Exit => ExecutorOutcome::ReplyAndExit(Message::MainReply(MainReply::ExecutorExited)),
        },
        _ => ExecutorOutcome::Ignore,
    }
}

/// The task that runs `job`: the task stored under the name that the job
/// refers to.
pub fn task_for_job(storage: &Storage, job: &Job) -> (r: Result<Task, StorageError>)
    ensures
        match r {
            Ok(t) => lookup(storage@, job.task@) == Some(t.wasm@) && t.name@ == job.task@,
            Err(e) => lookup(storage@, job.task@) is None && e == StorageError::TaskNotFound,
        },
{
    storage.get_task(job.task.as_str())
}

} // verus!
