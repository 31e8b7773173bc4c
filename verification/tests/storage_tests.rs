use mate::executor::{handle_executor_message, task_for_job, Executor, ExecutorOutcome};
use mate::message::{ExecutorRequest, MainReply, Message, SchedulerRequest};
use mate::proto::{Job, Task};
use mate::storage::{Storage, StorageError};

fn task(name: &str, wasm: &[u8]) -> Task {
    Task { name: name.to_string(), wasm: wasm.to_vec() }
}

#[test]
fn get_after_create_returns_the_module() {
    let mut s = Storage::new();
    s.create_task(&task("hello", &[0, 97, 115, 109]));
    let t = s.get_task("hello").unwrap();
    assert_eq!(t.name, "hello");
    assert_eq!(t.wasm, vec![0, 97, 115, 109]);
}

#[test]
fn get_of_unknown_task_fails() {
    let s = Storage::new();
    let e = s.get_task("nope").unwrap_err();
    assert_eq!(e, StorageError::TaskNotFound);
    assert_eq!(e.message(), "Task not found");
}

#[test]
fn create_overwrites_and_keeps_others() {
    let mut s = Storage::new();
    s.create_task(&task("a", &[1]));
    s.create_task(&task("b", &[2]));
    s.create_task(&task("a", &[3, 3]));
    assert_eq!(s.get_task("a").unwrap().wasm, vec![3, 3]);
    assert_eq!(s.get_task("b").unwrap().wasm, vec![2]);
    let mut listed: Vec<(String, Vec<u8>)> = s.list_tasks().into_iter().map(|t| (t.name, t.wasm)).collect();
    listed.sort();
    assert_eq!(listed, vec![("a".to_string(), vec![3, 3]), ("b".to_string(), vec![2])]);
}

#[test]
fn empty_store_lists_nothing() {
    assert!(Storage::new().list_tasks().is_empty());
}

#[test]
fn executor_creates_and_lists_tasks() {
    let mut s = Storage::new();
    let out = handle_executor_message(&mut s, Message::ExecutorRequest(ExecutorRequest::CreateTask(task("t1", &[9]))));
    match out {
        ExecutorOutcome::Reply(Message::MainReply(MainReply::TaskCreated(n))) => assert_eq!(n, "t1"),
        other => panic!("unexpected {:?}", other),
    }
    let out = handle_executor_message(&mut s, Message::ExecutorRequest(ExecutorRequest::ListTasks));
    match out {
        ExecutorOutcome::Reply(Message::MainReply(MainReply::TasksList(ts))) => {
            assert_eq!(ts.len(), 1);
            assert_eq!(ts[0].name, "t1");
            assert_eq!(ts[0].wasm, vec![9]);
        }
        other => panic!("unexpected {:?}", other),
    }
}

#[test]
fn executor_forwards_jobs_and_exits() {
    let mut s = Storage::new();
    let jobs = vec![Job { id: "mate:job:1".to_string(), task: "t".to_string() }];
    match handle_executor_message(&mut s, Message::ExecutorRequest(ExecutorRequest::ExecuteJobs(jobs))) {
        ExecutorOutcome::Run(js) => assert_eq!(js[0].id, "mate:job:1"),
        other => panic!("unexpected {:?}", other),
    }
    assert!(matches!(
        handle_executor_message(&mut s, Message::ExecutorRequest(ExecutorRequest::Exit)),
        ExecutorOutcome::ReplyAndExit(Message::MainReply(MainReply::ExecutorExited))
    ));
    assert!(matches!(
        handle_executor_message(&mut s, Message::SchedulerRequest(SchedulerRequest::PopJob)),
        ExecutorOutcome::Ignore
    ));
    assert!(matches!(handle_executor_message(&mut s, Message::Text("hi".to_string())), ExecutorOutcome::Ignore));
}

#[test]
fn job_runs_the_task_it_names() {
    let mut s = Storage::new();
    s.create_task(&task("hello", &[5]));
    let found = task_for_job(&s, &Job { id: "mate:job:7".to_string(), task: "hello".to_string() }).unwrap();
    assert_eq!(found.name, "hello");
    assert_eq!(found.wasm, vec![5]);
    let missing = task_for_job(&s, &Job { id: "hello".to_string(), task: "x".to_string() });
    assert_eq!(missing.unwrap_err(), StorageError::TaskNotFound);
}

#[test]
fn executor_is_stateless() {
    let _a = Executor::new();
    let _b: Executor = Default::default();
}

#[test]
fn read_after_create_survives_other_creates() {
    let mut s = Storage::new();
    s.create_task(&task("keep", &[1, 2]));
    for (i, name) in ["x", "y", "z"].iter().enumerate() {
        s.create_task(&task(name, &[i as u8]));
    }
    s.create_task(&task("x", &[9]));
    let t = s.get_task("keep").unwrap();
    assert_eq!(t.name, "keep");
    assert_eq!(t.wasm, vec![1, 2]);
}
