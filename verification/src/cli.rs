//! The options of the three programs, and how the main program starts the
//! scheduler and the executor as child processes.
use vstd::prelude::*;
use std::path::PathBuf;

verus! {

/// A file system path, a type of the standard library.
#[verifier::external_type_specification]
#[verifier::external_body]
pub struct ExPathBuf(PathBuf);

/// The options of the main program.
#[derive(Debug)]
pub struct MateCli {
    pub command: Command,
}

/// The commands of the main program.
#[derive(Debug)]
pub enum Command {
    /// Spawns a Mate environment.
    Start(StartOpt),
}

/// The options of `start`.
#[derive(Debug)]
pub struct StartOpt {
    /// URL to connect to Redis.
    pub redis_url: String,
    /// Scheduler threshold seconds.
    pub threshold: u64,
    /// Do not spawn child processes for the scheduler and the executor.
    pub standalone: bool,
}

/// The options of the executor program.
#[derive(Debug)]
pub struct MateExecutorCli {
    pub main_pipe: PathBuf,
    pub executor_pipe: PathBuf,
}

/// The options of the scheduler program.
#[derive(Debug)]
pub struct MateSchedulerCli {
    pub main_pipe: PathBuf,
    pub scheduler_pipe: PathBuf,
    pub executor_pipe: PathBuf,
    pub redis_url: String,
}

/// Path of the executor program.
pub const MATE_EXECUTOR_BIN: &'static str = "./target/debug/mate-executor";

/// Path of the scheduler program.
pub const MATE_SCHEDULER_BIN: &'static str = "./target/debug/mate-scheduler";

/// A flag and its value, as plain text.
pub open spec fn arg_texts(args: Seq<(String, String)>) -> Seq<(Seq<char>, Seq<char>)> {
    args.map_values(|a: (String, String)| (a.0@, a.1@))
}

/// A child process to start: its program and its flags with their values.
#[derive(Debug)]
pub struct ChildSpec {
    pub program: String,
    pub args: Vec<(String, String)>,
}

fn pair(flag: &str, value: &str) -> (r: (String, String))
    ensures
        r.0@ == flag@,
        r.1@ == value@,
{
    (String::from_str(flag), String::from_str(value))
}

/// The flags of the scheduler process: the three pipes and the Redis URL.
pub open spec fn scheduler_args_spec(
    main_pipe: Seq<char>,
    scheduler_pipe: Seq<char>,
    executor_pipe: Seq<char>,
    redis_url: Seq<char>,
) -> Seq<(Seq<char>, Seq<char>)> {
    seq![
        ("--main-pipe"@, main_pipe),
        ("--scheduler-pipe"@, scheduler_pipe),
        ("--executor-pipe"@, executor_pipe),
        ("--redis-url"@, redis_url),
    ]
}

/// The flags of the executor process: the main and executor pipes.
pub open spec fn executor_args_spec(main_pipe: Seq<char>, executor_pipe: Seq<char>) -> Seq<(Seq<char>, Seq<char>)> {
    seq![("--main-pipe"@, main_pipe), ("--executor-pipe"@, executor_pipe)]
}

/// The flags of the scheduler process.
pub fn scheduler_args(main_pipe: &str, scheduler_pipe: &str, executor_pipe: &str, redis_url: &str) -> (r: Vec<(String, String)>)
    ensures
        arg_texts(r@) == scheduler_args_spec(main_pipe@, scheduler_pipe@, executor_pipe@, redis_url@),
{
    let mut r: Vec<(String, String)> = Vec::new();
    r.push(pair("--main-pipe", main_pipe));
    r.push(pair("--scheduler-pipe", scheduler_pipe));
    r.push(pair("--executor-pipe", executor_pipe));
    r.push(pair("--redis-url", redis_url));
    assert(arg_texts(r@) =~= scheduler_args_spec(main_pipe@, scheduler_pipe@, executor_pipe@, redis_url@));
    r
}

/// The flags of the executor process.
pub fn executor_args(main_pipe: &str, executor_pipe: &str) -> (r: Vec<(String, String)>)
    ensures
        arg_texts(r@) == executor_args_spec(main_pipe@, executor_pipe@),
{
    let mut r: Vec<(String, String)> = Vec::new();
    r.push(pair("--main-pipe", main_pipe));
    r.push(pair("--executor-pipe", executor_pipe));
    assert(arg_texts(r@) =~= executor_args_spec(main_pipe@, executor_pipe@));
    r
}

impl StartOpt {
    /// The child processes that `start` spawns for the given pipe paths:
    /// none in standalone mode, else the scheduler (with this option's Redis
    /// URL) and then the executor.
    pub fn child_processes(&self, main_pipe: &str, scheduler_pipe: &str, executor_pipe: &str) -> (r: Vec<ChildSpec>)
        ensures
            self.standalone ==> r@.len() == 0,
            !self.standalone ==> {
                &&& r@.len() == 2
                &&& r@[0].program@ == MATE_SCHEDULER_BIN@
                &&& arg_texts(r@[0].args@) == scheduler_args_spec(main_pipe@, scheduler_pipe@, executor_pipe@, self.redis_url@)
                &&& r@[1].program@ == MATE_EXECUTOR_BIN@
                &&& arg_texts(r@[1].args@) == executor_args_spec(main_pipe@, executor_pipe@)
            },
    {
        let mut r: Vec<ChildSpec> = Vec::new();
        if !self.standalone {
            r.push(ChildSpec {
                program: String::from_str(MATE_SCHEDULER_BIN),
                args: scheduler_args(main_pipe, scheduler_pipe, executor_pipe, self.redis_url.as_str()),
            });
            r.push(ChildSpec {
                program: String::from_str(MATE_EXECUTOR_BIN),
                args: executor_args(main_pipe, executor_pipe),
            });
        }
        r
    }
}

/// The flags and values of a child process, flattened in order: each flag
/// followed by its value.
pub open spec fn flattened(args: Seq<(Seq<char>, Seq<char>)>) -> Seq<Seq<char>>
    decreases args.len(),
{
    if args.len() == 0 {
        Seq::empty()
    } else {
        flattened(args.drop_last()).push(args.last().0).push(args.last().1)
    }
}

/// Law: a child's command line holds, for each flag in order, the flag
/// followed by its value, and nothing else.
pub proof fn law_flattened_pairs(args: Seq<(Seq<char>, Seq<char>)>)
    ensures
        flattened(args).len() == 2 * args.len(),
        forall|i: int| 0 <= i < args.len() ==> flattened(args)[2 * i] == (#[trigger] args[i]).0 && flattened(args)[2 * i + 1] == args[i].1,
    decreases args.len(),
{
    if args.len() > 0 {
        let init = args.drop_last();
        law_flattened_pairs(init);
        assert forall|i: int| 0 <= i < args.len() implies flattened(args)[2 * i] == (#[trigger] args[i]).0 && flattened(args)[2 * i + 1] == args[i].1 by {
            if i < args.len() - 1 {
                assert(init[i] == args[i]);
                assert(flattened(init)[2 * i] == init[i].0);
            }
        }
    }
}

/// The command line arguments of a child process.
pub fn command_line(args: &Vec<(String, String)>) -> (r: Vec<String>)
    ensures
        r@.map_values(|s: String| s@) == flattened(arg_texts(args@)),
{
    let mut r: Vec<String> = Vec::new();
    let mut i: usize = 0;
    while i < args.len()
        invariant
            i <= args@.len(),
            r@.map_values(|s: String| s@) == flattened(arg_texts(args@.subrange(0, i as int))),
        decreases args@.len() - i,
    {
        let ghost before = r@;
        r.push(args[i].0.clone());
        r.push(args[i].1.clone());
        proof {
            let pre = arg_texts(args@.subrange(0, i as int));
            let post = arg_texts(args@.subrange(0, i + 1));
            assert(post.drop_last() =~= pre);
            assert(r@.map_values(|s: String| s@) =~= before.map_values(|s: String| s@).push(args@[i as int].0@).push(args@[i as int].1@));
        }
        i = i + 1;
    }
    assert(args@.subrange(0, args@.len() as int) =~= args@);
    r
}

/// The files that a child process's standard output and standard error go
/// to: `<name>_log.log` and `<name>_err.log`.
pub fn log_file_names(process_name: &str) -> (r: (String, String))
    ensures
        r.0@ == process_name@ + "_log.log"@,
        r.1@ == process_name@ + "_err.log"@,
{
    let mut out = String::from_str(process_name);
    out.append("_log.log");
    let mut err = String::from_str(process_name);
    err.append("_err.log");
    (out, err)
}

} // verus!
