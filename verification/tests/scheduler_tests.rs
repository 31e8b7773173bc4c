use mate::backend::{
    job_id_for, keep_decoded, list_start, pop_start, push_start, push_step, scan_step, score_for, PushAction,
    PushEvent, PushState, RedisBackend, RedisCommand, ScanAction, ScanEvent, ScanState, JOB_COUNTER_KEY,
    SCHEDULER_JOB_PREFIX,
};
use mate::decimal::decimal_string;
use mate::message::{ExecutorRequest, MainReply, Message, SchedulerRequest};
use mate::proto::{Job, PushJobDto};
use mate::scheduler::{forward_jobs, on_popped, scheduler_op, scheduler_reply, PollAction, Scheduler, SchedulerOp, SchedulerOutcome};

fn job(id: &str, task: &str) -> Job {
    Job { id: id.to_string(), task: task.to_string() }
}

#[test]
fn decimal_notation() {
    assert_eq!(decimal_string(0), "0");
    assert_eq!(decimal_string(42), "42");
    assert_eq!(decimal_string(-7), "-7");
    assert_eq!(decimal_string(1234567890), "1234567890");
    assert_eq!(decimal_string(i64::MIN), i64::MIN.to_string());
    assert_eq!(decimal_string(i64::MAX), i64::MAX.to_string());
}

#[test]
fn job_ids_follow_the_counter() {
    assert_eq!(job_id_for(1), "mate:job:1");
    assert_eq!(job_id_for(25), "mate:job:25");
    assert_eq!(job_id_for(-3), "mate:job:-3");
    assert_eq!(job_id_for(i32::MIN), format!("{SCHEDULER_JOB_PREFIX}:{}", i32::MIN));
    assert_ne!(job_id_for(1), job_id_for(11));
}

#[test]
fn push_runs_incr_set_zadd_in_order() {
    let (s, a) = push_start(PushJobDto { task: "hello".to_string() });
    match a {
        PushAction::Run(RedisCommand::Incr { key, delta }) => {
            assert_eq!(key, JOB_COUNTER_KEY);
            assert_eq!(delta, 1);
        }
        other => panic!("unexpected {:?}", other),
    }
    let ev = PushEvent::Counted(3);
    assert!(s.accepts(&ev));
    let (s, a) = push_step(s, ev);
    match a {
        PushAction::Encode(j) => {
            assert_eq!(j.id, "mate:job:3");
            assert_eq!(j.task, "hello");
        }
        other => panic!("unexpected {:?}", other),
    }
    let (s, a) = push_step(s, PushEvent::Encoded("{\"id\":\"mate:job:3\"}".to_string()));
    match a {
        PushAction::Run(RedisCommand::SetValue { key, value }) => {
            assert_eq!(key, "mate:job:3");
            assert_eq!(value, "{\"id\":\"mate:job:3\"}");
        }
        other => panic!("unexpected {:?}", other),
    }
    let (s, a) = push_step(s, PushEvent::Stored);
    assert!(matches!(a, PushAction::ReadClock));
    let (s, a) = push_step(s, PushEvent::Clock(1_700_000_000_123));
    match a {
        PushAction::Run(RedisCommand::ZAdd { key, member, score }) => {
            assert_eq!(key, "mate:job");
            assert_eq!(member, "mate:job:3");
            assert_eq!(score, 1_700_000_000_123);
        }
        other => panic!("unexpected {:?}", other),
    }
    let (s, a) = push_step(s, PushEvent::Scheduled);
    match a {
        PushAction::Return(Ok(id)) => assert_eq!(id, "mate:job:3"),
        other => panic!("unexpected {:?}", other),
    }
    assert!(matches!(s, PushState::Finished));
    assert!(!s.accepts(&PushEvent::Stored));
}

#[test]
fn push_failure_returns_the_message() {
    let (s, _) = push_start(PushJobDto { task: "t".to_string() });
    assert!(!s.accepts(&PushEvent::Stored));
    let (s, a) = push_step(s, PushEvent::Failed("connection refused".to_string()));
    match a {
        PushAction::Return(Err(m)) => assert_eq!(m, "connection refused"),
        other => panic!("unexpected {:?}", other),
    }
    assert!(matches!(s, PushState::Finished));
}

#[test]
fn score_truncates_to_64_bits() {
    assert_eq!(score_for(5), 5);
    assert_eq!(score_for((1u128 << 64) + 9), 9);
}

#[test]
fn pop_reads_first_two_keys_and_list_reads_all() {
    match pop_start() {
        (ScanState::Ranging, ScanAction::Run(RedisCommand::ZRange { key, start, stop })) => {
            assert_eq!(key, "mate:job");
            assert_eq!((start, stop), (0, 1));
        }
        other => panic!("unexpected {:?}", other),
    }
    match list_start() {
        (ScanState::Ranging, ScanAction::Run(RedisCommand::ZRange { key, start, stop })) => {
            assert_eq!(key, "mate:job");
            assert_eq!((start, stop), (0, -1));
        }
        other => panic!("unexpected {:?}", other),
    }
}

#[test]
fn scan_fetches_then_keeps_decoded_jobs() {
    let (s, _) = list_start();
    let keys = vec!["mate:job:1".to_string(), "mate:job:2".to_string()];
    let (s, a) = scan_step(s, ScanEvent::Keys(keys));
    match a {
        ScanAction::Run(RedisCommand::MGet { keys }) => assert_eq!(keys, vec!["mate:job:1", "mate:job:2"]),
        other => panic!("unexpected {:?}", other),
    }
    let (s, a) = scan_step(s, ScanEvent::Values(vec!["a".to_string(), "b".to_string()]));
    assert!(matches!(a, ScanAction::Decode(ref v) if v.len() == 2));
    assert!(s.accepts(&ScanEvent::Decoded(vec![])));
    let (s, a) = scan_step(s, ScanEvent::Decoded(vec![None, Some(job("mate:job:2", "t"))]));
    match a {
        ScanAction::Return(Ok(jobs)) => {
            assert_eq!(jobs.len(), 1);
            assert_eq!(jobs[0].id, "mate:job:2");
        }
        other => panic!("unexpected {:?}", other),
    }
    assert_eq!(s, ScanState::Finished);
}

#[test]
fn scan_failure_returns_the_message() {
    let (s, _) = pop_start();
    let (s, a) = scan_step(s, ScanEvent::Failed("boom".to_string()));
    assert!(matches!(a, ScanAction::Return(Err(ref m)) if m == "boom"));
    assert_eq!(s, ScanState::Finished);
}

#[test]
fn keep_decoded_keeps_order() {
    let kept = keep_decoded(vec![Some(job("1", "a")), None, Some(job("3", "c")), None]);
    let ids: Vec<String> = kept.into_iter().map(|j| j.id).collect();
    assert_eq!(ids, vec!["1", "3"]);
    assert!(keep_decoded(vec![]).is_empty());
}

#[test]
fn scheduler_replies() {
    match scheduler_reply(SchedulerOutcome::Pushed(Ok("mate:job:9".to_string()))) {
        (Message::MainReply(MainReply::JobCreated(t)), false) => assert_eq!(t, "JOB ID"),
        other => panic!("unexpected {:?}", other),
    }
    match scheduler_reply(SchedulerOutcome::Pushed(Err("down".to_string()))) {
        (Message::MainReply(MainReply::Error(m)), false) => assert_eq!(m, "down"),
        other => panic!("unexpected {:?}", other),
    }
    match scheduler_reply(SchedulerOutcome::Popped(Ok(vec![job("mate:job:1", "t")]))) {
        (Message::MainReply(MainReply::JobPopped(js)), false) => assert_eq!(js[0].id, "mate:job:1"),
        other => panic!("unexpected {:?}", other),
    }
    match scheduler_reply(SchedulerOutcome::Listed(Ok(vec![]))) {
        (Message::MainReply(MainReply::ListJobs(js)), false) => assert!(js.is_empty()),
        other => panic!("unexpected {:?}", other),
    }
    match scheduler_reply(SchedulerOutcome::Listed(Err("x".to_string()))) {
        (Message::MainReply(MainReply::Error(m)), false) => assert_eq!(m, "x"),
        other => panic!("unexpected {:?}", other),
    }
    assert!(matches!(
        scheduler_reply(SchedulerOutcome::Exiting),
        (Message::MainReply(MainReply::SchedulerExited), true)
    ));
}

#[test]
fn scheduler_ops_from_messages() {
    match scheduler_op(Message::SchedulerRequest(SchedulerRequest::PushJob(PushJobDto { task: "t".to_string() }))) {
        Some(SchedulerOp::Push(d)) => assert_eq!(d.task, "t"),
        other => panic!("unexpected {:?}", other),
    }
    assert!(matches!(scheduler_op(Message::SchedulerRequest(SchedulerRequest::PopJob)), Some(SchedulerOp::Pop)));
    assert!(matches!(scheduler_op(Message::SchedulerRequest(SchedulerRequest::ListJobs)), Some(SchedulerOp::List)));
    assert!(matches!(scheduler_op(Message::SchedulerRequest(SchedulerRequest::Exit)), Some(SchedulerOp::Exit)));
    assert!(scheduler_op(Message::ExecutorRequest(ExecutorRequest::ListTasks)).is_none());
}

#[test]
fn polling_forwards_only_nonempty_pops() {
    assert!(matches!(on_popped(Ok(vec![])), PollAction::Wait));
    match on_popped(Ok(vec![job("mate:job:1", "t")])) {
        PollAction::Forward(js) => assert_eq!(js.len(), 1),
        other => panic!("unexpected {:?}", other),
    }
    assert!(matches!(on_popped(Err("e".to_string())), PollAction::Report(ref m) if m == "e"));
    match forward_jobs(vec![job("mate:job:1", "t")]) {
        Message::ExecutorRequest(ExecutorRequest::ExecuteJobs(js)) => assert_eq!(js[0].task, "t"),
        other => panic!("unexpected {:?}", other),
    }
}

#[test]
fn redis_backend_accepts_redis_urls_only() {
    let b = RedisBackend::new("redis://127.0.0.1:6379/".to_string());
    assert!(b.is_ok());
    assert!(RedisBackend::new("not a url".to_string()).is_err());
    assert!(RedisBackend::new("http://127.0.0.1/".to_string()).is_err());
    let s = Scheduler::new(b.unwrap());
    let _client = s.backend().client();
}

#[test]
fn polling_over_a_series_forwards_nonempty_batches_in_order() {
    let pops: Vec<Result<Vec<Job>, String>> = vec![
        Ok(vec![]),
        Ok(vec![job("mate:job:1", "a"), job("mate:job:2", "b")]),
        Err("down".to_string()),
        Ok(vec![job("mate:job:3", "c")]),
    ];
    let mut forwarded: Vec<Vec<String>> = Vec::new();
    for p in pops {
        if let PollAction::Forward(js) = on_popped(p) {
            forwarded.push(js.into_iter().map(|j| j.id).collect());
        }
    }
    assert_eq!(forwarded, vec![vec!["mate:job:1".to_string(), "mate:job:2".to_string()], vec!["mate:job:3".to_string()]]);
}
