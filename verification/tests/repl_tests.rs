use mate::message::{ExecutorRequest, MainReply, Message, SchedulerRequest};
use mate::proto::Job;
use mate::repl::{
    is_parse_ready, parse_command, render_reply, repl_step, Pending, PipeTarget, ReplAction, ReplCommand, ReplEvent,
    ReplOutput, ReplState,
};
use mate::text::{is_whitespace, join_from, split_whitespace, trim};

#[test]
fn split_on_unicode_white_space() {
    assert_eq!(split_whitespace("  create  hello\t/tmp/a b.wasm\n"), vec!["create", "hello", "/tmp/a", "b.wasm"]);
    assert!(split_whitespace(" \n\t").is_empty());
    assert_eq!(split_whitespace("a\u{3000}b\u{a0}c"), vec!["a", "b", "c"]);
    assert_eq!(split_whitespace("héllo wörld"), vec!["héllo", "wörld"]);
}

#[test]
fn white_space_matches_std() {
    for c in ['\t', '\n', '\u{b}', '\u{c}', '\r', ' ', '\u{85}', '\u{a0}', '\u{1680}', '\u{2000}', '\u{200a}',
        '\u{2028}', '\u{2029}', '\u{202f}', '\u{205f}', '\u{3000}', 'a', '\u{200b}', '\u{1}', 'é'] {
        assert_eq!(is_whitespace(c), c.is_whitespace(), "{:?}", c);
    }
}

#[test]
fn trim_and_join() {
    assert_eq!(trim("  help me \n"), "help me");
    assert_eq!(trim("   "), "");
    assert_eq!(trim("x"), "x");
    let parts: Vec<String> = vec!["a".into(), "b".into(), "c d".into()];
    assert_eq!(join_from(&parts, 0), "a b c d");
    assert_eq!(join_from(&parts, 2), "c d");
    assert_eq!(join_from(&parts, 3), "");
}

#[test]
fn parse_commands() {
    match parse_command("create hello /tmp/my file.wasm\n") {
        ReplCommand::Create { name, wasm_path } => {
            assert_eq!(name, "hello");
            assert_eq!(wasm_path, "/tmp/my file.wasm");
        }
        other => panic!("unexpected {:?}", other),
    }
    match parse_command("create hello") {
        ReplCommand::Create { wasm_path, .. } => assert_eq!(wasm_path, ""),
        other => panic!("unexpected {:?}", other),
    }
    assert!(matches!(parse_command("tasks\n"), ReplCommand::Tasks));
    assert!(matches!(parse_command("push  job1"), ReplCommand::Push { ref name } if name == "job1"));
    assert!(matches!(parse_command("pop"), ReplCommand::Pop));
    assert!(matches!(parse_command(" list "), ReplCommand::List));
    assert!(matches!(parse_command("exit\n"), ReplCommand::Exit));
    assert!(matches!(parse_command("  help  me\n"), ReplCommand::Unknown { ref input } if input == "help  me"));
}

#[test]
fn lines_that_cannot_be_parsed() {
    assert!(!is_parse_ready(""));
    assert!(!is_parse_ready("  \n"));
    assert!(!is_parse_ready("push"));
    assert!(!is_parse_ready("create\n"));
    assert!(is_parse_ready("pop"));
    assert!(is_parse_ready("create x"));
    assert!(!ReplState::Prompt.accepts(&ReplEvent::Line("\n".to_string())));
}

#[test]
fn push_exchange() {
    let (st, acts) = repl_step(ReplState::Prompt, ReplEvent::Line("push hello\n".to_string()));
    assert_eq!(acts.len(), 1);
    match &acts[0] {
        ReplAction::Send { target, message: Message::SchedulerRequest(SchedulerRequest::PushJob(dto)) } => {
            assert_eq!(*target, PipeTarget::Scheduler);
            assert_eq!(dto.task, "hello");
        }
        other => panic!("unexpected {:?}", other),
    }
    let (st, acts) = repl_step(st, ReplEvent::Sent(Ok(())));
    assert!(matches!(acts[0], ReplAction::Receive));
    let (st, acts) = repl_step(st, ReplEvent::Reply(Message::MainReply(MainReply::JobCreated("JOB ID".to_string()))));
    match &acts[0] {
        ReplAction::Show(ReplOutput::Print(l)) => assert_eq!(l, ">> Created job with ID: JOB ID using task: hello"),
        other => panic!("unexpected {:?}", other),
    }
    assert_eq!(acts.len(), 1);
    assert!(matches!(st, ReplState::Prompt));
}

#[test]
fn create_reads_the_module_then_sends_to_the_executor() {
    let (st, acts) = repl_step(ReplState::Prompt, ReplEvent::Line("create t1 /tmp/t1.wasm".to_string()));
    assert!(matches!(&acts[0], ReplAction::ReadWasm(p) if p == "/tmp/t1.wasm"));
    let (st, acts) = repl_step(st, ReplEvent::WasmRead(vec![0, 1, 2]));
    match &acts[0] {
        ReplAction::Send { target, message: Message::ExecutorRequest(ExecutorRequest::CreateTask(t)) } => {
            assert_eq!(*target, PipeTarget::Executor);
            assert_eq!(t.name, "t1");
            assert_eq!(t.wasm, vec![0, 1, 2]);
        }
        other => panic!("unexpected {:?}", other),
    }
    let (st, _) = repl_step(st, ReplEvent::Sent(Ok(())));
    let (_, acts) = repl_step(st, ReplEvent::Reply(Message::MainReply(MainReply::TaskCreated("t1".to_string()))));
    assert!(matches!(&acts[0], ReplAction::Show(ReplOutput::Print(l)) if l == ">> Created task with ID: t1"));
}

#[test]
fn tasks_goes_to_the_scheduler_pipe() {
    let (_, acts) = repl_step(ReplState::Prompt, ReplEvent::Line("tasks".to_string()));
    assert!(matches!(
        &acts[0],
        ReplAction::Send { target: PipeTarget::Scheduler, message: Message::ExecutorRequest(ExecutorRequest::ListTasks) }
    ));
}

#[test]
fn send_failures_are_reported() {
    let (st, _) = repl_step(ReplState::Prompt, ReplEvent::Line("pop".to_string()));
    let (st, acts) = repl_step(st, ReplEvent::Sent(Err("broken pipe".to_string())));
    assert!(matches!(&acts[0], ReplAction::Show(ReplOutput::PrintErr(l)) if l == "Failed to create job: broken pipe"));
    assert!(matches!(st, ReplState::Prompt));
}

#[test]
fn unknown_command_is_shown() {
    let (st, acts) = repl_step(ReplState::Prompt, ReplEvent::Line("  help\n".to_string()));
    assert!(matches!(
        &acts[0],
        ReplAction::Show(ReplOutput::Print(l)) if l == "Unknown command: \"help\", use \"help\" to learn more about commands"
    ));
    assert!(matches!(st, ReplState::Prompt));
}

#[test]
fn exit_stops_scheduler_then_executor_then_quits() {
    let (st, acts) = repl_step(ReplState::Prompt, ReplEvent::Line("exit".to_string()));
    assert!(matches!(
        &acts[0],
        ReplAction::Send { target: PipeTarget::Scheduler, message: Message::SchedulerRequest(SchedulerRequest::Exit) }
    ));
    let (st, _) = repl_step(st, ReplEvent::Sent(Ok(())));
    let (st, acts) = repl_step(st, ReplEvent::Reply(Message::MainReply(MainReply::SchedulerExited)));
    assert_eq!(acts.len(), 2);
    assert!(matches!(&acts[0], ReplAction::Show(ReplOutput::Print(l)) if l == "Scheduler exited"));
    assert!(matches!(
        &acts[1],
        ReplAction::Send { target: PipeTarget::Executor, message: Message::ExecutorRequest(ExecutorRequest::Exit) }
    ));
    let (st, acts) = repl_step(st, ReplEvent::Sent(Err("gone".to_string())));
    assert!(matches!(&acts[0], ReplAction::Show(ReplOutput::PrintErr(l)) if l == "Failed to list jobs: gone"));
    assert!(matches!(acts[1], ReplAction::Quit));
    assert!(matches!(st, ReplState::Done));
}

#[test]
fn replies_are_rendered() {
    let jobs = vec![Job { id: "mate:job:1".to_string(), task: "t".to_string() }];
    assert!(matches!(
        render_reply(&Pending::PopJob, Message::MainReply(MainReply::JobPopped(jobs))),
        ReplOutput::PoppedJobs(ref js) if js.len() == 1
    ));
    assert!(matches!(
        render_reply(&Pending::ListJobs, Message::MainReply(MainReply::Error("e".to_string()))),
        ReplOutput::Failure { ref context, ref message } if context == "Failed to list jobs" && message == "e"
    ));
    assert!(matches!(
        render_reply(&Pending::ListTasks, Message::MainReply(MainReply::SchedulerExited)),
        ReplOutput::Nothing
    ));
    assert!(matches!(
        render_reply(&Pending::ExecutorExit, Message::Text("?".to_string())),
        ReplOutput::UnexpectedReply { ref context, .. } if context == "Failed to exit executor"
    ));
}

#[test]
fn words_split_at_white_space() {
    let left = split_whitespace("ab  c");
    let right = split_whitespace(" d e");
    let mut joined = left.clone();
    joined.extend(right);
    assert_eq!(split_whitespace("ab  c\u{2003} d e"), joined);
    assert_eq!(split_whitespace("word"), vec!["word"]);
    assert!(split_whitespace("").is_empty());
}

#[test]
fn exit_after_two_failed_sends_still_quits() {
    let (st, _) = repl_step(ReplState::Prompt, ReplEvent::Line("exit".to_string()));
    let (st, acts) = repl_step(st, ReplEvent::Sent(Err("a".to_string())));
    assert!(matches!(acts.last(), Some(ReplAction::Send { target: PipeTarget::Executor, .. })));
    let (st, acts) = repl_step(st, ReplEvent::Sent(Err("b".to_string())));
    assert!(matches!(acts.last(), Some(ReplAction::Quit)));
    assert!(matches!(st, ReplState::Done));
    assert!(!st.accepts(&ReplEvent::Sent(Ok(()))));
}
