use std::sync::Arc;
use std::time::Duration;

use mate::cli::{command_line, executor_args, log_file_names, scheduler_args, StartOpt, MATE_EXECUTOR_BIN, MATE_SCHEDULER_BIN};
use mate::client::{ConnectRetry, MAX_CONNECTION_ATTEMPTS};
use mate::mate::{Executor, Mate, MateClient};
use mate::scheduler::Scheduler;

fn pairs(v: &[(String, String)]) -> Vec<(&str, &str)> {
    v.iter().map(|(a, b)| (a.as_str(), b.as_str())).collect()
}

#[test]
fn child_process_flags() {
    let s = scheduler_args("/p/main", "/p/sched", "/p/exec", "redis://r/");
    assert_eq!(
        pairs(&s),
        vec![("--main-pipe", "/p/main"), ("--scheduler-pipe", "/p/sched"), ("--executor-pipe", "/p/exec"), ("--redis-url", "redis://r/")]
    );
    let e = executor_args("/p/main", "/p/exec");
    assert_eq!(pairs(&e), vec![("--main-pipe", "/p/main"), ("--executor-pipe", "/p/exec")]);
    assert_eq!(command_line(&e), vec!["--main-pipe", "/p/main", "--executor-pipe", "/p/exec"]);
}

#[test]
fn start_spawns_scheduler_and_executor_unless_standalone() {
    let opt = StartOpt { redis_url: "redis://127.0.0.1:6379/".to_string(), threshold: 1, standalone: false };
    let children = opt.child_processes("m", "s", "e");
    assert_eq!(children.len(), 2);
    assert_eq!(children[0].program, MATE_SCHEDULER_BIN);
    assert_eq!(children[0].args[3].1, "redis://127.0.0.1:6379/");
    assert_eq!(children[1].program, MATE_EXECUTOR_BIN);
    let alone = StartOpt { standalone: true, ..opt };
    assert!(alone.child_processes("m", "s", "e").is_empty());
}

#[test]
fn log_files_are_named_after_the_process() {
    let (out, err) = log_file_names("mate-scheduler");
    assert_eq!(out, "mate-scheduler_log.log");
    assert_eq!(err, "mate-scheduler_err.log");
}

#[test]
fn connection_attempts_are_bounded() {
    let mut r = ConnectRetry::new();
    assert_eq!(r.attempts(), 1);
    let mut probes = 0;
    while r.should_probe() {
        probes += 1;
        if r.record_probe(false) {
            break;
        }
    }
    assert_eq!(probes, MAX_CONNECTION_ATTEMPTS - 1);
    assert_eq!(r.attempts(), MAX_CONNECTION_ATTEMPTS);
    let mut r = ConnectRetry::new();
    assert!(r.record_probe(true));
    assert_eq!(r.attempts(), 1);
}

#[test]
fn handles_keep_what_they_were_built_from() {
    assert!(Mate::new().is_ok());
    let scheduler = Arc::new(Scheduler::new(5u8));
    assert_eq!(*scheduler.backend(), 5);
    let executor = Arc::new(Executor::new(Arc::clone(&scheduler), Duration::from_secs(1)));
    assert_eq!(executor.threshold(), Duration::from_secs(1));
    let client = MateClient::new(Arc::clone(&executor), Arc::clone(&scheduler));
    assert!(Arc::ptr_eq(client.scheduler(), &scheduler));
    assert!(Arc::ptr_eq(client.executor(), &executor));
}
