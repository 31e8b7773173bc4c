//! Plain data exchanged between the parts of the job queue.
use vstd::prelude::*;

verus! {

/// Identifier that the scheduler hands out for a job.
pub type JobId = String;

/// A job waiting in the queue: its identifier and the name of the task it runs.
#[derive(Debug)]
pub struct Job {
    pub id: JobId,
    pub task: String,
}

/// A task that the executor can run when a job refers to it: a name and a
/// WebAssembly module.
#[derive(Debug)]
pub struct Task {
    pub name: String,
    pub wasm: Vec<u8>,
}

/// A request to queue a new job for the named task.
#[derive(Debug)]
pub struct PushJobDto {
    pub task: String,
}

/// A job as plain text: its identifier and its task's name.
pub struct JobView {
    pub id: Seq<char>,
    pub task: Seq<char>,
}

impl View for Job {
    type V = JobView;

    open spec fn view(&self) -> JobView {
        JobView { id: self.id@, task: self.task@ }
    }
}

/// Copies a byte vector, keeping every byte.
pub fn copy_bytes(bytes: &Vec<u8>) -> (r: Vec<u8>)
    ensures
        r@ == bytes@,
{
    let mut r: Vec<u8> = Vec::new();
    let mut i: usize = 0;
    while i < bytes.len()
        invariant
            i <= bytes.len(),
            r@ == bytes@.subrange(0, i as int),
        decreases bytes.len() - i,
    {
        r.push(bytes[i]);
        i = i + 1;
    }
    assert(bytes@.subrange(0, bytes.len() as int) == bytes@);
    r
}

impl Job {
    /// A copy of the job with the same identifier and task.
    pub fn duplicate(&self) -> (r: Job)
        ensures
            r.id@ == self.id@,
            r.task@ == self.task@,
    {
        Job { id: self.id.clone(), task: self.task.clone() }
    }
}

impl Task {
    /// A copy of the task with the same name and module bytes.
    pub fn duplicate(&self) -> (r: Task)
        ensures
            r.name@ == self.name@,
            r.wasm@ == self.wasm@,
    {
        Task { name: self.name.clone(), wasm: copy_bytes(&self.wasm) }
    }
}

} // verus!
