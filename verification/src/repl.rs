//! The REPL: what a typed line asks for, what is sent for it and to which
//! process, and what is shown of the reply.
use vstd::prelude::*;
use crate::message::{ExecutorRequest, MainReply, Message, SchedulerRequest};
use crate::proto::{Job, PushJobDto, Task};
use crate::text::{join_from, joined, split_whitespace, string_texts, trim, trimmed, words};

verus! {

/// A command typed at the REPL.
#[derive(Debug)]
pub enum ReplCommand {
    /// `create <name> <path...>`: create a task from the module at the path.
    Create { name: String, wasm_path: String },
    /// `tasks`: list the tasks.
    Tasks,
    /// `push <name>`: queue a job for the named task.
    Push { name: String },
    /// `pop`: take jobs from the queue.
    Pop,
    /// `list`: list the queued jobs.
    List,
    /// `exit`: stop the scheduler and the executor, then quit.
    Exit,
    /// Anything else; holds the line without its surrounding white space.
    Unknown { input: String },
}

/// Whether a line can be parsed: it has a first word, and `create` and
/// `push` have a second one. On other lines the REPL panics.
pub open spec fn parse_ready(s: Seq<char>) -> bool {
    let w = words(s);
    &&& w.len() >= 1
    &&& (w[0] == "create"@ || w[0] == "push"@) ==> w.len() >= 2
}

/// The command that a line holds.
pub open spec fn command_matches(input: Seq<char>, r: ReplCommand) -> bool {
    let w = words(input);
    if w[0] == "create"@ {
        r matches ReplCommand::Create { name, wasm_path } && name@ == w[1] && wasm_path@ == joined(w.skip(2), " "@)
    } else if w[0] == "tasks"@ {
        r is Tasks
    } else if w[0] == "push"@ {
        r matches ReplCommand::Push { name } && name@ == w[1]
    } else if w[0] == "pop"@ {
        r is Pop
    } else if w[0] == "list"@ {
        r is List
    } else if w[0] == "exit"@ {
        r is Exit
    } else {
        r matches ReplCommand::Unknown { input: t } && t@ == trimmed(input)
    }
}

/// Whether a line can be parsed (see `parse_ready`).
pub fn is_parse_ready(input: &str) -> (r: bool)
    ensures
        r == parse_ready(input@),
{
    let w = split_whitespace(input);
    if w.len() == 0 {
        return false;
    }
    let first = &w[0];
    if *first == String::from_str("create") || *first == String::from_str("push") {
        w.len() >= 2
    } else {
        true
    }
}

/// The command that a line holds: its first word names it, `create` takes a
/// name and a path (the remaining words joined by single spaces), `push`
/// takes a name, and any other first word makes the line unknown.
pub fn parse_command(input: &str) -> (r: ReplCommand)
    requires
        parse_ready(input@),
    ensures
        command_matches(input@, r),
{
    let w = split_whitespace(input);
    proof {
        assert(string_texts(w@)[0] == w@[0]@);
    }
    let first = &w[0];
    if *first == String::from_str("create") {
        proof { assert(string_texts(w@)[1] == w@[1]@); }
        let name = w[1].clone();
        let wasm_path = join_from(&w, 2);
        ReplCommand::Create { name, wasm_path }
    } else if *first == String::from_str("tasks") {
        ReplCommand::Tasks
    } else if *first == String::from_str("push") {
        proof { assert(string_texts(w@)[1] == w@[1]@); }
        ReplCommand::Push { name: w[1].clone() }
    } else if *first == String::from_str("pop") {
        ReplCommand::Pop
    } else if *first == String::from_str("list") {
        ReplCommand::List
    } else if *first == String::from_str("exit") {
        ReplCommand::Exit
    } else {
        ReplCommand::Unknown { input: trim(input) }
    }
}

} // verus!

verus! {

/// The process a request goes to.
#[derive(Debug, Clone, Copy, PartialEq, Eq, Structural)]
pub enum PipeTarget {
    Scheduler,
    Executor,
}

/// The exchange that the REPL is in the middle of.
#[derive(Debug)]
pub enum Pending {
    CreateTask,
    ListTasks,
    PushJob { task: String },
    PopJob,
    ListJobs,
    SchedulerExit,
    ExecutorExit,
}

/// Where the REPL stands.
#[derive(Debug)]
pub enum ReplState {
    /// Waiting for a line.
    Prompt,
    /// Reading the module of the task `name`.
    ReadingWasm { name: String },
    /// Sending the request of an exchange.
    Sending(Pending),
    /// Waiting for the reply of an exchange.
    Awaiting(Pending),
    /// The REPL has quit.
    Done,
}

/// What happened to the REPL's last action.
#[derive(Debug)]
pub enum ReplEvent {
    /// A line was typed.
    Line(String),
    /// The module's bytes were read.
    WasmRead(Vec<u8>),
    /// The request was sent, or failed to be sent with this message.
    Sent(Result<(), String>),
    /// A reply arrived from the main pipe.
    Reply(Message),
}

/// What the REPL shows.
#[derive(Debug)]
pub enum ReplOutput {
    /// This line, on standard output.
    Print(String),
    /// This line, on standard error.
    PrintErr(String),
    /// `>> ` and the debug form of these tasks, on standard output.
    Tasks(Vec<Task>),
    /// `>> ` and the pretty debug form of these jobs, on standard output.
    PoppedJobs(Vec<Job>),
    /// `>> ` and the debug form of these jobs, on standard output.
    ListedJobs(Vec<Job>),
    /// The context, `: ` and the debug form of the message, on standard error.
    Failure { context: String, message: String },
    /// The context, `: ` and the debug form of the reply, on standard error.
    UnexpectedReply { context: String, reply: Message },
    /// Nothing.
    Nothing,
}

/// What the REPL asks to be done.
#[derive(Debug)]
pub enum ReplAction {
    /// Read the module at this path.
    ReadWasm(String),
    /// Send this message to this process.
    Send { target: PipeTarget, message: Message },
    /// Wait for a reply on the main pipe.
    Receive,
    /// Show this.
    Show(ReplOutput),
    /// Exit the program with status 0.
    Quit,
}

/// The line shown for a line that names no command.
pub open spec fn unknown_line(t: Seq<char>) -> Seq<char> {
    "Unknown command: \""@ + t + "\", use \"help\" to learn more about commands"@
}

/// The context of the message shown when the request of an exchange could
/// not be sent.
pub open spec fn send_failure_context(p: Pending) -> Seq<char> {
    match p {
        Pending::CreateTask => "Failed to create task"@,
        Pending::ListTasks => "Failed to list tasks"@,
        Pending::PushJob { .. } => "Failed to push job"@,
        Pending::PopJob => "Failed to create job"@,
        _ => "Failed to list jobs"@,
    }
}

/// What is shown of the reply `reply` to the exchange `p`.
pub open spec fn reply_shown(p: Pending, reply: Message, o: ReplOutput) -> bool {
    match p {
        Pending::CreateTask => match reply {
            Message::MainReply(MainReply::TaskCreated(id)) =>
                o matches ReplOutput::Print(l) && l@ == ">> Created task with ID: "@ + id@,
            Message::MainReply(MainReply::Error(m)) =>
                o matches ReplOutput::Failure { context, message } && context@ == "Failed to create task"@ && message@ == m@,
            _ => o is Nothing,
        },
        Pending::ListTasks => match reply {
            Message::MainReply(MainReply::TasksList(ts)) => o == ReplOutput::Tasks(ts),
            Message::MainReply(MainReply::Error(m)) =>
                o matches ReplOutput::Failure { context, message } && context@ == "Failed to list tasks"@ && message@ == m@,
            _ => o is Nothing,
        },
        Pending::PushJob { task } => match reply {
            Message::MainReply(MainReply::JobCreated(id)) =>
                o matches ReplOutput::Print(l) && l@ == ">> Created job with ID: "@ + id@ + " using task: "@ + task@,
            Message::MainReply(MainReply::Error(m)) =>
                o matches ReplOutput::Failure { context, message } && context@ == "Failed to create job"@ && message@ == m@,
            _ => o is Nothing,
        },
        Pending::PopJob => match reply {
            Message::MainReply(MainReply::JobPopped(js)) => o == ReplOutput::PoppedJobs(js),
            Message::MainReply(MainReply::Error(m)) =>
                o matches ReplOutput::Failure { context, message } && context@ == "Failed to pop job"@ && message@ == m@,
            _ => o is Nothing,
        },
        Pending::ListJobs => match reply {
            Message::MainReply(MainReply::ListJobs(js)) => o == ReplOutput::ListedJobs(js),
            Message::MainReply(MainReply::Error(m)) =>
                o matches ReplOutput::Failure { context, message } && context@ == "Failed to list jobs"@ && message@ == m@,
            _ => o is Nothing,
        },
        Pending::SchedulerExit => match reply {
            Message::MainReply(MainReply::SchedulerExited) => o matches ReplOutput::Print(l) && l@ == "Scheduler exited"@,
            _ => o matches ReplOutput::UnexpectedReply { context, reply: m } && context@ == "Failed to exit scheduler"@ && m == reply,
        },
        Pending::ExecutorExit => match reply {
            Message::MainReply(MainReply::ExecutorExited) => o matches ReplOutput::Print(l) && l@ == "Executor exited"@,
            _ => o matches ReplOutput::UnexpectedReply { context, reply: m } && context@ == "Failed to exit executor"@ && m == reply,
        },
    }
}

/// How the REPL goes on once the exchange `p` is over: an exit of the
/// scheduler is followed by an exit of the executor, which is followed by
/// quitting; any other exchange returns to the prompt.
pub open spec fn continues(p: Pending, st: ReplState, rest: Seq<ReplAction>) -> bool {
    match p {
        Pending::SchedulerExit => {
            &&& st matches ReplState::Sending(Pending::ExecutorExit)
            &&& rest.len() == 1
            &&& rest[0] matches ReplAction::Send { target, message: Message::ExecutorRequest(ExecutorRequest::Exit) }
            &&& target == PipeTarget::Executor
        },
        Pending::ExecutorExit => st is Done && rest.len() == 1 && rest[0] is Quit,
        _ => st is Prompt && rest.len() == 0,
    }
}

/// What a typed line starts.
pub open spec fn line_started(input: Seq<char>, st: ReplState, acts: Seq<ReplAction>) -> bool {
    let w = words(input);
    &&& acts.len() == 1
    &&& if w[0] == "create"@ {
        &&& st matches ReplState::ReadingWasm { name } && name@ == w[1]
        &&& acts[0] matches ReplAction::ReadWasm(path) && path@ == joined(w.skip(2), " "@)
    } else if w[0] == "tasks"@ {
        &&& st matches ReplState::Sending(Pending::ListTasks)
        &&& acts[0] matches ReplAction::Send { target, message: Message::ExecutorRequest(ExecutorRequest::ListTasks) }
        &&& target == PipeTarget::Scheduler
    } else if w[0] == "push"@ {
        &&& st matches ReplState::Sending(Pending::PushJob { task }) && task@ == w[1]
        &&& acts[0] matches ReplAction::Send { target, message: Message::SchedulerRequest(SchedulerRequest::PushJob(dto)) }
        &&& target == PipeTarget::Scheduler && dto.task@ == w[1]
    } else if w[0] == "pop"@ {
        &&& st matches ReplState::Sending(Pending::PopJob)
        &&& acts[0] matches ReplAction::Send { target, message: Message::SchedulerRequest(SchedulerRequest::PopJob) }
        &&& target == PipeTarget::Scheduler
    } else if w[0] == "list"@ {
        &&& st matches ReplState::Sending(Pending::ListJobs)
        &&& acts[0] matches ReplAction::Send { target, message: Message::SchedulerRequest(SchedulerRequest::ListJobs) }
        &&& target == PipeTarget::Scheduler
    } else if w[0] == "exit"@ {
        &&& st matches ReplState::Sending(Pending::SchedulerExit)
        &&& acts[0] matches ReplAction::Send { target, message: Message::SchedulerRequest(SchedulerRequest::Exit) }
        &&& target == PipeTarget::Scheduler
    } else {
        &&& st is Prompt
        &&& acts[0] matches ReplAction::Show(ReplOutput::Print(l)) && l@ == unknown_line(trimmed(input))
    }
}

/// The kind of exchange the REPL is in, without its data.
pub enum PendingKind {
    CreateTask,
    ListTasks,
    PushJob,
    PopJob,
    ListJobs,
    SchedulerExit,
    ExecutorExit,
}

/// Where the REPL stands, without the data it carries.
pub enum ReplPhase {
    Prompt,
    ReadingWasm,
    Sending(PendingKind),
    Awaiting(PendingKind),
    Done,
}

/// The kind of an exchange.
pub open spec fn pending_kind(p: Pending) -> PendingKind {
    match p {
        Pending::CreateTask => PendingKind::CreateTask,
        Pending::ListTasks => PendingKind::ListTasks,
        Pending::PushJob { .. } => PendingKind::PushJob,
        Pending::PopJob => PendingKind::PopJob,
        Pending::ListJobs => PendingKind::ListJobs,
        Pending::SchedulerExit => PendingKind::SchedulerExit,
        Pending::ExecutorExit => PendingKind::ExecutorExit,
    }
}

/// Where a REPL state stands.
pub open spec fn phase(s: ReplState) -> ReplPhase {
    match s {
        ReplState::Prompt => ReplPhase::Prompt,
        ReplState::ReadingWasm { .. } => ReplPhase::ReadingWasm,
        ReplState::Sending(p) => ReplPhase::Sending(pending_kind(p)),
        ReplState::Awaiting(p) => ReplPhase::Awaiting(pending_kind(p)),
        ReplState::Done => ReplPhase::Done,
    }
}

/// Where the REPL goes once an exchange of kind `k` is over.
pub open spec fn phase_after(k: PendingKind) -> ReplPhase {
    match k {
        PendingKind::SchedulerExit => ReplPhase::Sending(PendingKind::ExecutorExit),
        PendingKind::ExecutorExit => ReplPhase::Done,
        _ => ReplPhase::Prompt,
    }
}

/// Where a typed line takes the REPL.
pub open spec fn line_phase(input: Seq<char>) -> ReplPhase {
    let w = words(input);
    if w[0] == "create"@ {
        ReplPhase::ReadingWasm
    } else if w[0] == "tasks"@ {
        ReplPhase::Sending(PendingKind::ListTasks)
    } else if w[0] == "push"@ {
        ReplPhase::Sending(PendingKind::PushJob)
    } else if w[0] == "pop"@ {
        ReplPhase::Sending(PendingKind::PopJob)
    } else if w[0] == "list"@ {
        ReplPhase::Sending(PendingKind::ListJobs)
    } else if w[0] == "exit"@ {
        ReplPhase::Sending(PendingKind::SchedulerExit)
    } else {
        ReplPhase::Prompt
    }
}

/// Whether the REPL, where it stands, can take `e`.
pub open spec fn phase_accepts(ph: ReplPhase, e: ReplEvent) -> bool {
    match (ph, e) {
        (ReplPhase::Prompt, ReplEvent::Line(l)) => parse_ready(l@),
        (ReplPhase::ReadingWasm, ReplEvent::WasmRead(_)) => true,
        (ReplPhase::Sending(_), ReplEvent::Sent(_)) => true,
        (ReplPhase::Awaiting(_), ReplEvent::Reply(_)) => true,
        _ => false,
    }
}

/// Where the REPL stands after it takes `e`.
pub open spec fn next_phase(ph: ReplPhase, e: ReplEvent) -> ReplPhase {
    match (ph, e) {
        (ReplPhase::Prompt, ReplEvent::Line(l)) => line_phase(l@),
        (ReplPhase::ReadingWasm, ReplEvent::WasmRead(_)) => ReplPhase::Sending(PendingKind::CreateTask),
        (ReplPhase::Sending(k), ReplEvent::Sent(Ok(_))) => ReplPhase::Awaiting(k),
        (ReplPhase::Sending(k), ReplEvent::Sent(Err(_))) => phase_after(k),
        (ReplPhase::Awaiting(k), ReplEvent::Reply(_)) => phase_after(k),
        _ => ph,
    }
}

/// Law: whether the REPL takes an event depends only on where it stands.
pub proof fn law_accepts_by_phase(s: ReplState, e: ReplEvent)
    ensures
        repl_accepts(s, e) == phase_accepts(phase(s), e),
{
}

/// Whether an exchange of kind `k` is one of the two that end the REPL.
pub open spec fn is_exit_kind(k: PendingKind) -> bool {
    k == PendingKind::SchedulerExit || k == PendingKind::ExecutorExit
}

/// Law: an exchange other than exit, once its request is sent, ends back at
/// the prompt: a failed send returns there at once, and a sent request
/// returns there with its reply.
pub proof fn law_exchange_returns_to_prompt(k: PendingKind, e1: ReplEvent, e2: ReplEvent)
    requires
        !is_exit_kind(k),
        phase_accepts(ReplPhase::Sending(k), e1),
    ensures
        ({
            let p1 = next_phase(ReplPhase::Sending(k), e1);
            ||| p1 == ReplPhase::Prompt
            ||| p1 == ReplPhase::Awaiting(k) && (phase_accepts(p1, e2) ==> next_phase(p1, e2) == ReplPhase::Prompt)
        }),
{
}

/// The phases of the exit sequence, and how many events at most remain in it.
pub open spec fn exit_distance(ph: ReplPhase) -> Option<nat> {
    match ph {
        ReplPhase::Sending(PendingKind::SchedulerExit) => Some(4),
        ReplPhase::Awaiting(PendingKind::SchedulerExit) => Some(3),
        ReplPhase::Sending(PendingKind::ExecutorExit) => Some(2),
        ReplPhase::Awaiting(PendingKind::ExecutorExit) => Some(1),
        ReplPhase::Done => Some(0),
        _ => None,
    }
}

/// Where the REPL stands after taking the events in order.
pub open spec fn run_phase(ph: ReplPhase, evs: Seq<ReplEvent>) -> ReplPhase
    decreases evs.len(),
{
    if evs.len() == 0 {
        ph
    } else {
        run_phase(next_phase(ph, evs[0]), evs.drop_first())
    }
}

/// Whether the REPL takes each of the events in turn.
pub open spec fn accepted_run(ph: ReplPhase, evs: Seq<ReplEvent>) -> bool
    decreases evs.len(),
{
    if evs.len() == 0 {
        true
    } else {
        phase_accepts(ph, evs[0]) && accepted_run(next_phase(ph, evs[0]), evs.drop_first())
    }
}

/// Law: once the exit sequence has begun, the REPL stays in it, takes at
/// most as many events as remain in it, and can always go on until it is
/// done; once done it takes nothing more. Reaching done quits (see
/// `repl_step`).
pub proof fn law_exit_ends_in_quit(ph: ReplPhase, evs: Seq<ReplEvent>)
    requires
        exit_distance(ph) is Some,
        accepted_run(ph, evs),
    ensures
        evs.len() <= exit_distance(ph)->0,
        exit_distance(run_phase(ph, evs)) is Some,
        run_phase(ph, evs) == ReplPhase::Done ==> forall|e: ReplEvent| !phase_accepts(run_phase(ph, evs), e),
        run_phase(ph, evs) != ReplPhase::Done ==> (phase_accepts(run_phase(ph, evs), ReplEvent::Sent(Ok(())))
            || forall|m: Message| #[trigger] phase_accepts(run_phase(ph, evs), ReplEvent::Reply(m))),
    decreases evs.len(),
{
    if evs.len() > 0 {
        let next = next_phase(ph, evs[0]);
        assert(exit_distance(next) is Some && exit_distance(next)->0 < exit_distance(ph)->0);
        law_exit_ends_in_quit(next, evs.drop_first());
    }
}

/// Law: the command a line holds is fixed by its words: `create` takes the
/// second word as the task's name and the remaining words, joined by single
/// spaces, as the module's path; `push` takes the second word as the task's
/// name; `tasks`, `pop`, `list` and `exit` take nothing; any other first word
/// keeps the line without its surrounding white space.
pub proof fn law_command_words(l: Seq<char>, r: ReplCommand)
    requires
        parse_ready(l),
        command_matches(l, r),
    ensures
        words(l)[0] == "create"@ ==> (r matches ReplCommand::Create { name, wasm_path } && name@ == words(l)[1] && wasm_path@ == joined(words(l).skip(2), " "@)),
        words(l)[0] == "push"@ ==> (r matches ReplCommand::Push { name } && name@ == words(l)[1]),
        words(l)[0] == "tasks"@ ==> r is Tasks,
        words(l)[0] == "pop"@ ==> r is Pop,
        words(l)[0] == "list"@ ==> r is List,
        words(l)[0] == "exit"@ ==> r is Exit,
        (words(l)[0] != "list"@ && words(l)[0] != "pop"@ && words(l)[0] != "push"@ && words(l)[0] != "exit"@
            && words(l)[0] != "tasks"@ && words(l)[0] != "create"@) ==> (r matches ReplCommand::Unknown { input } && input@ == trimmed(l)),
{
    reveal_strlit("list");
    reveal_strlit("pop");
    reveal_strlit("push");
    reveal_strlit("exit");
    reveal_strlit("tasks");
    reveal_strlit("create");
    assert("create"@.len() == 6 && "tasks"@.len() == 5 && "push"@.len() == 4 && "pop"@.len() == 3
        && "list"@.len() == 4 && "exit"@.len() == 4);
    assert("push"@[0] == 'p' && "list"@[0] == 'l' && "exit"@[0] == 'e');
    assert("create"@ != "list"@ && "tasks"@ != "list"@ && "push"@ != "list"@ && "pop"@ != "list"@);
    assert("create"@ != "pop"@ && "tasks"@ != "pop"@ && "push"@ != "pop"@);
    assert("create"@ != "exit"@ && "tasks"@ != "exit"@ && "push"@ != "exit"@ && "pop"@ != "exit"@ && "list"@ != "exit"@);
}

/// Law: what is shown of each reply: the id of a created task or job (with
/// the job's task), the message of an error reply with the exchange's context,
/// the exit confirmations, the unexpected reply to an exit with its context,
/// and nothing for any other reply to an exchange that is not an exit.
pub proof fn law_reply_texts(p: Pending, reply: Message, o: ReplOutput)
    requires
        reply_shown(p, reply, o),
    ensures
        reply matches Message::MainReply(MainReply::TaskCreated(id)) ==> (p is CreateTask ==> (o matches ReplOutput::Print(l) && l@ == ">> Created task with ID: "@ + id@)),
        p matches Pending::PushJob { task } ==> (reply matches Message::MainReply(MainReply::JobCreated(id)) ==> (o matches ReplOutput::Print(l) && l@ == ">> Created job with ID: "@ + id@ + " using task: "@ + task@)),
        reply matches Message::MainReply(MainReply::Error(m)) ==> (!(p is SchedulerExit) && !(p is ExecutorExit) ==> (o matches ReplOutput::Failure { context, message } && message@ == m@ && context@ == (match p {
            Pending::CreateTask => "Failed to create task"@,
            Pending::ListTasks => "Failed to list tasks"@,
            Pending::PushJob { .. } => "Failed to create job"@,
            Pending::PopJob => "Failed to pop job"@,
            _ => "Failed to list jobs"@,
        }))),
        (p is SchedulerExit && reply matches Message::MainReply(MainReply::SchedulerExited)) ==> (o matches ReplOutput::Print(l) && l@ == "Scheduler exited"@),
        (p is ExecutorExit && reply matches Message::MainReply(MainReply::ExecutorExited)) ==> (o matches ReplOutput::Print(l) && l@ == "Executor exited"@),
        (p is SchedulerExit && !(reply matches Message::MainReply(MainReply::SchedulerExited))) ==> (o matches ReplOutput::UnexpectedReply { context, reply: m } && m == reply && context@ == "Failed to exit scheduler"@),
        (p is ExecutorExit && !(reply matches Message::MainReply(MainReply::ExecutorExited))) ==> (o matches ReplOutput::UnexpectedReply { context, reply: m } && m == reply && context@ == "Failed to exit executor"@),
        (p is CreateTask && !(reply matches Message::MainReply(MainReply::TaskCreated(_))) && !(reply matches Message::MainReply(MainReply::Error(_)))) ==> o is Nothing,
        (p is ListTasks && !(reply matches Message::MainReply(MainReply::TasksList(_))) && !(reply matches Message::MainReply(MainReply::Error(_)))) ==> o is Nothing,
        (p is PushJob && !(reply matches Message::MainReply(MainReply::JobCreated(_))) && !(reply matches Message::MainReply(MainReply::Error(_)))) ==> o is Nothing,
        (p is PopJob && !(reply matches Message::MainReply(MainReply::JobPopped(_))) && !(reply matches Message::MainReply(MainReply::Error(_)))) ==> o is Nothing,
        (p is ListJobs && !(reply matches Message::MainReply(MainReply::ListJobs(_))) && !(reply matches Message::MainReply(MainReply::Error(_)))) ==> o is Nothing,
{
}

/// Law: a failed send is shown with its exchange's context and the error.
pub proof fn law_send_failure_texts(p: Pending)
    ensures
        send_failure_context(p) == (match p {
            Pending::CreateTask => "Failed to create task"@,
            Pending::ListTasks => "Failed to list tasks"@,
            Pending::PushJob { .. } => "Failed to push job"@,
            Pending::PopJob => "Failed to create job"@,
            _ => "Failed to list jobs"@,
        }),
{
}

/// Law: the line shown for an unknown command quotes the trimmed line.
pub proof fn law_unknown_line_text(t: Seq<char>)
    ensures
        unknown_line(t) == "Unknown command: \""@ + t + "\", use \"help\" to learn more about commands"@,
{
}

/// Law: a line can be taken exactly when it has a first word and, when that
/// word is `create` or `push`, a second one; any line of two or more words
/// is taken.
pub proof fn law_parse_ready_words(s: Seq<char>)
    ensures
        words(s).len() == 0 ==> !parse_ready(s),
        words(s).len() >= 2 ==> parse_ready(s),
        words(s).len() == 1 ==> (parse_ready(s) <==> (words(s)[0] != "create"@ && words(s)[0] != "push"@)),
{
}

/// Law: the request a typed line starts is fixed by its first word: `list`
/// asks the scheduler to list the jobs, `pop` to pop them, `push <name>` to
/// queue a job for the task `<name>`, `exit` to exit, `tasks` sends a task
/// listing on the scheduler's pipe, `create <name> <path...>` reads the module
/// at the path, and any other word shows the unknown-command line.
pub proof fn law_line_requests(l: Seq<char>, st: ReplState, acts: Seq<ReplAction>)
    requires
        parse_ready(l),
        line_started(l, st, acts),
    ensures
        acts.len() == 1,
        words(l)[0] == "list"@ ==> (acts[0] matches ReplAction::Send { target, message: Message::SchedulerRequest(SchedulerRequest::ListJobs) } && target == PipeTarget::Scheduler),
        words(l)[0] == "pop"@ ==> (acts[0] matches ReplAction::Send { target, message: Message::SchedulerRequest(SchedulerRequest::PopJob) } && target == PipeTarget::Scheduler),
        words(l)[0] == "push"@ ==> (acts[0] matches ReplAction::Send { target, message: Message::SchedulerRequest(SchedulerRequest::PushJob(dto)) } && target == PipeTarget::Scheduler && dto.task@ == words(l)[1]),
        words(l)[0] == "exit"@ ==> (acts[0] matches ReplAction::Send { target, message: Message::SchedulerRequest(SchedulerRequest::Exit) } && target == PipeTarget::Scheduler),
        words(l)[0] == "tasks"@ ==> (acts[0] matches ReplAction::Send { target, message: Message::ExecutorRequest(ExecutorRequest::ListTasks) } && target == PipeTarget::Scheduler),
        words(l)[0] == "create"@ ==> (acts[0] matches ReplAction::ReadWasm(path) && path@ == joined(words(l).skip(2), " "@)),
        (words(l)[0] != "list"@ && words(l)[0] != "pop"@ && words(l)[0] != "push"@ && words(l)[0] != "exit"@
            && words(l)[0] != "tasks"@ && words(l)[0] != "create"@) ==> (acts[0] matches ReplAction::Show(ReplOutput::Print(t)) && t@ == unknown_line(trimmed(l))),
{
    reveal_strlit("list");
    reveal_strlit("pop");
    reveal_strlit("push");
    reveal_strlit("exit");
    reveal_strlit("tasks");
    reveal_strlit("create");
    assert("create"@.len() == 6 && "tasks"@.len() == 5 && "push"@.len() == 4 && "pop"@.len() == 3
        && "list"@.len() == 4 && "exit"@.len() == 4);
    assert("push"@[0] == 'p' && "list"@[0] == 'l' && "exit"@[0] == 'e');
    assert("create"@ != "list"@ && "tasks"@ != "list"@ && "push"@ != "list"@ && "pop"@ != "list"@);
    assert("create"@ != "pop"@ && "tasks"@ != "pop"@ && "push"@ != "pop"@);
}

/// Law: a reply that carries jobs or tasks to the exchange that asked for
/// them is shown with exactly those jobs or tasks, never as nothing.
pub proof fn law_listing_replies_shown(js: Vec<Job>, ts: Vec<Task>, o: ReplOutput)
    ensures
        reply_shown(Pending::ListJobs, Message::MainReply(MainReply::ListJobs(js)), o) ==> o == ReplOutput::ListedJobs(js),
        reply_shown(Pending::PopJob, Message::MainReply(MainReply::JobPopped(js)), o) ==> o == ReplOutput::PoppedJobs(js),
        reply_shown(Pending::ListTasks, Message::MainReply(MainReply::TasksList(ts)), o) ==> o == ReplOutput::Tasks(ts),
{
}

/// Whether the REPL in state `s` can take event `e`.
pub open spec fn repl_accepts(s: ReplState, e: ReplEvent) -> bool {
    match (s, e) {
        (ReplState::Prompt, ReplEvent::Line(l)) => parse_ready(l@),
        (ReplState::ReadingWasm { .. }, ReplEvent::WasmRead(_)) => true,
        (ReplState::Sending(_), ReplEvent::Sent(_)) => true,
        (ReplState::Awaiting(_), ReplEvent::Reply(_)) => true,
        _ => false,
    }
}

impl ReplState {
    /// Whether the REPL can take `event` now; a line that cannot be parsed
    /// is not taken (the REPL panics on it).
    pub fn accepts(&self, event: &ReplEvent) -> (r: bool)
        ensures
            r == repl_accepts(*self, *event),
    {
        match (self, event) {
            (ReplState::Prompt, ReplEvent::Line(l)) => is_parse_ready(l.as_str()),
            (ReplState::ReadingWasm { .. }, ReplEvent::WasmRead(_)) => true,
            (ReplState::Sending(_), ReplEvent::Sent(_)) => true,
            (ReplState::Awaiting(_), ReplEvent::Reply(_)) => true,
            _ => false,
        }
    }
}

fn concat3(a: &str, b: &str, c: &str) -> (r: String)
    ensures
        r@ == a@ + b@ + c@,
{
    let mut s = String::from_str(a);
    s.append(b);
    s.append(c);
    s
}

fn send_failure_line(p: &Pending, err: &String) -> (r: String)
    ensures
        r@ == send_failure_context(*p) + ": "@ + err@,
{
    let context = match p {
        Pending::CreateTask => "Failed to create task",
        Pending::ListTasks => "Failed to list tasks",
        Pending::PushJob { .. } => "Failed to push job",
        Pending::PopJob => "Failed to create job",
        _ => "Failed to list jobs",
    };
    concat3(context, ": ", err.as_str())
}

/// What is shown of a reply to the exchange `p`.
pub fn render_reply(p: &Pending, reply: Message) -> (r: ReplOutput)
    ensures
        reply_shown(*p, reply, r),
{
    match p {
        Pending::CreateTask => match reply {
            Message::MainReply(MainReply::TaskCreated(id)) => {
                let mut l = String::from_str(">> Created task with ID: ");
                l.append(id.as_str());
                ReplOutput::Print(l)
            },
            Message::MainReply(MainReply::Error(m)) => ReplOutput::Failure { context: String::from_str("Failed to create task"), message: m },
            _ => ReplOutput::Nothing,
        },
        Pending::ListTasks => match reply {
            Message::MainReply(MainReply::TasksList(ts)) => ReplOutput::Tasks(ts),
            Message::MainReply(MainReply::Error(m)) => ReplOutput::Failure { context: String::from_str("Failed to list tasks"), message: m },
            _ => ReplOutput::Nothing,
        },
        Pending::PushJob { task } => match reply {
            Message::MainReply(MainReply::JobCreated(id)) => {
                let mut l = concat3(">> Created job with ID: ", id.as_str(), " using task: ");
                l.append(task.as_str());
                ReplOutput::Print(l)
            },
            Message::MainReply(MainReply::Error(m)) => ReplOutput::Failure { context: String::from_str("Failed to create job"), message: m },
            _ => ReplOutput::Nothing,
        },
        Pending::PopJob => match reply {
            Message::MainReply(MainReply::JobPopped(js)) => ReplOutput::PoppedJobs(js),
            Message::MainReply(MainReply::Error(m)) => ReplOutput::Failure { context: String::from_str("Failed to pop job"), message: m },
            _ => ReplOutput::Nothing,
        },
        Pending::ListJobs => match reply {
            Message::MainReply(MainReply::ListJobs(js)) => ReplOutput::ListedJobs(js),
            Message::MainReply(MainReply::Error(m)) => ReplOutput::Failure { context: String::from_str("Failed to list jobs"), message: m },
            _ => ReplOutput::Nothing,
        },
        Pending::SchedulerExit => match reply {
            Message::MainReply(MainReply::SchedulerExited) => ReplOutput::Print(String::from_str("Scheduler exited")),
            _ => ReplOutput::UnexpectedReply { context: String::from_str("Failed to exit scheduler"), reply },
        },
        Pending::ExecutorExit => match reply {
            Message::MainReply(MainReply::ExecutorExited) => ReplOutput::Print(String::from_str("Executor exited")),
            _ => ReplOutput::UnexpectedReply { context: String::from_str("Failed to exit executor"), reply },
        },
    }
}

fn continue_after(p: &Pending, acts: &mut Vec<ReplAction>) -> (st: ReplState)
    ensures
        final(acts)@.len() >= old(acts)@.len(),
        final(acts)@.subrange(0, old(acts)@.len() as int) == old(acts)@,
        continues(*p, st, final(acts)@.skip(old(acts)@.len() as int)),
{
    let ghost before = acts@;
    match p {
        Pending::SchedulerExit => {
            acts.push(ReplAction::Send { target: PipeTarget::Executor, message: Message::ExecutorRequest(ExecutorRequest::Exit) });
            assert(acts@.subrange(0, before.len() as int) =~= before);
            ReplState::Sending(Pending::ExecutorExit)
        },
        Pending::ExecutorExit => {
            acts.push(ReplAction::Quit);
            assert(acts@.subrange(0, before.len() as int) =~= before);
            ReplState::Done
        },
        _ => {
            assert(acts@.subrange(0, before.len() as int) =~= before);
            assert(acts@.skip(before.len() as int) =~= Seq::<ReplAction>::empty());
            ReplState::Prompt
        },
    }
}

/// Takes the REPL one step further: from an event, its next state and the
/// actions to perform, in order.
pub fn repl_step(state: ReplState, event: ReplEvent) -> (r: (ReplState, Vec<ReplAction>))
    requires
        repl_accepts(state, event),
    ensures
        phase(r.0) == next_phase(phase(state), event),
        phase(r.0) == ReplPhase::Done ==> r.1@.len() >= 1 && r.1@.last() is Quit,
        match (state, event) {
            (ReplState::Prompt, ReplEvent::Line(l)) => line_started(l@, r.0, r.1@),
            (ReplState::ReadingWasm { name }, ReplEvent::WasmRead(bytes)) => {
                &&& r.0 matches ReplState::Sending(Pending::CreateTask)
                &&& r.1@.len() == 1
                &&& r.1@[0] matches ReplAction::Send { target, message: Message::ExecutorRequest(ExecutorRequest::CreateTask(t)) }
                &&& target == PipeTarget::Executor && t.name == name && t.wasm == bytes
            },
            (ReplState::Sending(p), ReplEvent::Sent(Ok(()))) => r.0 == ReplState::Awaiting(p) && r.1@.len() == 1
                && r.1@[0] is Receive,
            (ReplState::Sending(p), ReplEvent::Sent(Err(e))) => {
                &&& r.1@.len() >= 1
                &&& r.1@[0] matches ReplAction::Show(ReplOutput::PrintErr(l))
                &&& l@ == send_failure_context(p) + ": "@ + e@
                &&& continues(p, r.0, r.1@.skip(1))
            },
            (ReplState::Awaiting(p), ReplEvent::Reply(m)) => {
                &&& r.1@.len() >= 1
                &&& r.1@[0] matches ReplAction::Show(o)
                &&& reply_shown(p, m, o)
                &&& continues(p, r.0, r.1@.skip(1))
            },
            _ => false,
        },
{
    let mut acts: Vec<ReplAction> = Vec::new();
    match event {
        ReplEvent::Line(l) => {
            let cmd = parse_command(l.as_str());
            let st = match cmd {
                ReplCommand::Create { name, wasm_path } => {
                    acts.push(ReplAction::ReadWasm(wasm_path));
                    ReplState::ReadingWasm { name }
                },
                ReplCommand::Tasks => {
                    acts.push(ReplAction::Send { target: PipeTarget::Scheduler, message: Message::ExecutorRequest(ExecutorRequest::ListTasks) });
                    ReplState::Sending(Pending::ListTasks)
                },
                ReplCommand::Push { name } => {
                    let task = name.clone();
                    acts.push(ReplAction::Send {
                        target: PipeTarget::Scheduler,
                        message: Message::SchedulerRequest(SchedulerRequest::PushJob(PushJobDto { task: name })),
                    });
                    ReplState::Sending(Pending::PushJob { task })
                },
                ReplCommand::Pop => {
                    acts.push(ReplAction::Send { target: PipeTarget::Scheduler, message: Message::SchedulerRequest(SchedulerRequest::PopJob) });
                    ReplState::Sending(Pending::PopJob)
                },
                ReplCommand::List => {
                    acts.push(ReplAction::Send { target: PipeTarget::Scheduler, message: Message::SchedulerRequest(SchedulerRequest::ListJobs) });
                    ReplState::Sending(Pending::ListJobs)
                },
                ReplCommand::Exit => {
                    acts.push(ReplAction::Send { target: PipeTarget::Scheduler, message: Message::SchedulerRequest(SchedulerRequest::Exit) });
                    ReplState::Sending(Pending::SchedulerExit)
                },
                ReplCommand::Unknown { input } => {
                    let line = concat3("Unknown command: \"", input.as_str(), "\", use \"help\" to learn more about commands");
                    acts.push(ReplAction::Show(ReplOutput::Print(line)));
                    ReplState::Prompt
                },
            };
            (st, acts)
        },
        ReplEvent::WasmRead(bytes) => match state {
            ReplState::ReadingWasm { name } => {
                acts.push(ReplAction::Send {
                    target: PipeTarget::Executor,
                    message: Message::ExecutorRequest(ExecutorRequest::CreateTask(Task { name, wasm: bytes })),
                });
                (ReplState::Sending(Pending::CreateTask), acts)
            },
            _ => (state, acts),
        },
        ReplEvent::Sent(Ok(())) => match state {
            ReplState::Sending(p) => {
                acts.push(ReplAction::Receive);
                (ReplState::Awaiting(p), acts)
            },
            _ => (state, acts),
        },
        ReplEvent::Sent(Err(e)) => match state {
            ReplState::Sending(p) => {
                let line = send_failure_line(&p, &e);
                acts.push(ReplAction::Show(ReplOutput::PrintErr(line)));
                let ghost first = acts@;
                let st = continue_after(&p, &mut acts);
                proof {
                    assert(acts@.subrange(0, 1)[0] == acts@[0]);
                    assert(first[0] == acts@[0]);
                }
                (st, acts)
            },
            _ => (state, acts),
        },
        ReplEvent::Reply(m) => match state {
            ReplState::Awaiting(p) => {
                let o = render_reply(&p, m);
                acts.push(ReplAction::Show(o));
                let ghost first = acts@;
                let st = continue_after(&p, &mut acts);
                proof {
                    assert(acts@.subrange(0, 1)[0] == acts@[0]);
                    assert(first[0] == acts@[0]);
                }
                (st, acts)
            },
            _ => (state, acts),
        },
    }
}

} // verus!
