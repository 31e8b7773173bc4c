//! The Redis side of the scheduler: the keys it uses, the commands it sends,
//! and the order in which it sends them to push, pop and list jobs.
use vstd::prelude::*;
use crate::decimal::{decimal_string, int_decimal, lemma_int_decimal_injective};
use crate::proto::{Job, JobView, PushJobDto};

verus! {

/// Key of the sorted set that orders the queued jobs by time, and prefix of
/// every job's key.
pub const SCHEDULER_JOB_PREFIX: &'static str = "mate:job";

/// Key of the counter from which job numbers are drawn.
pub const JOB_COUNTER_KEY: &'static str = "mate:job:counter";

/// The key of the job numbered `count`: the prefix, a colon and the number.
pub open spec fn job_id_spec(count: int) -> Seq<char> {
    SCHEDULER_JOB_PREFIX@ + seq![':'] + int_decimal(count)
}

/// The key of the job numbered `count`, as `format!("{SCHEDULER_JOB_PREFIX}:{count}")`
/// writes it.
pub fn job_id_for(count: i32) -> (r: String)
    ensures
        r@ == job_id_spec(count as int),
{
    let mut s = String::from_str(SCHEDULER_JOB_PREFIX);
    proof { reveal_strlit(":"); }
    s.append(":");
    let digits = decimal_string(count as i64);
    s.append(digits.as_str());
    s
}

/// Law: jobs drawn from different counter values get different keys.
pub proof fn law_job_ids_unique(a: int, b: int)
    requires
        a != b,
    ensures
        job_id_spec(a) != job_id_spec(b),
{
    if job_id_spec(a) == job_id_spec(b) {
        let n: int = SCHEDULER_JOB_PREFIX@.len() as int + 1;
        assert(job_id_spec(a).subrange(n, job_id_spec(a).len() as int) =~= int_decimal(a));
        assert(job_id_spec(b).subrange(n, job_id_spec(b).len() as int) =~= int_decimal(b));
        lemma_int_decimal_injective(a, b);
    }
}

/// A command for the Redis server.
#[derive(Debug)]
pub enum RedisCommand {
    /// Add `delta` to the integer at `key` and reply with the new value.
    Incr { key: String, delta: i64 },
    /// Store `value` at `key`.
    SetValue { key: String, value: String },
    /// Add `member` to the sorted set at `key` with the given score.
    ZAdd { key: String, member: String, score: u64 },
    /// Reply with the members of the sorted set at `key` from rank `start`
    /// to rank `stop`, both included; negative ranks count from the end.
    ZRange { key: String, start: i64, stop: i64 },
    /// Reply with the values stored at `keys`.
    MGet { keys: Vec<String> },
}

/// A Redis command as plain text and numbers.
pub enum CommandView {
    Incr { key: Seq<char>, delta: int },
    SetValue { key: Seq<char>, value: Seq<char> },
    ZAdd { key: Seq<char>, member: Seq<char>, score: int },
    ZRange { key: Seq<char>, start: int, stop: int },
    MGet { keys: Seq<Seq<char>> },
}

/// The texts of a list of strings.
pub open spec fn texts(v: Seq<String>) -> Seq<Seq<char>> {
    v.map_values(|s: String| s@)
}

impl View for RedisCommand {
    type V = CommandView;

    open spec fn view(&self) -> CommandView {
        match self {
            RedisCommand::Incr { key, delta } => CommandView::Incr { key: key@, delta: *delta as int },
            RedisCommand::SetValue { key, value } => CommandView::SetValue { key: key@, value: value@ },
            RedisCommand::ZAdd { key, member, score } => CommandView::ZAdd { key: key@, member: member@, score: *score as int },
            RedisCommand::ZRange { key, start, stop } => CommandView::ZRange { key: key@, start: *start as int, stop: *stop as int },
            RedisCommand::MGet { keys } => CommandView::MGet { keys: texts(keys@) },
        }
    }
}

/// Where a push stands.
#[derive(Debug)]
pub enum PushState {
    /// The job counter is being incremented; the job will run `task`.
    Counting { task: String },
    /// The job's record is being encoded.
    Encoding { job_id: String },
    /// The job's record is being stored under its key.
    Storing { job_id: String },
    /// The current time is being read.
    Timing { job_id: String },
    /// The job is being added to the time-ordered set.
    Scheduling { job_id: String },
    /// The push has returned.
    Finished,
}

/// What happened to the last action of a push.
#[derive(Debug)]
pub enum PushEvent {
    /// The counter now holds this value.
    Counted(i32),
    /// The job's record, encoded.
    Encoded(String),
    /// The record was stored.
    Stored,
    /// The current time, in milliseconds since the Unix epoch.
    Clock(u128),
    /// The job was added to the time-ordered set.
    Scheduled,
    /// The last action failed with this message.
    Failed(String),
}

/// What a push asks to be done next.
#[derive(Debug)]
pub enum PushAction {
    /// Send this command to Redis.
    Run(RedisCommand),
    /// Encode this job's record.
    Encode(Job),
    /// Read the current time.
    ReadClock,
    /// The push is over: the new job's key, or why it failed.
    Return(Result<String, String>),
}

pub enum PushStateView {
    Counting { task: Seq<char> },
    Encoding { job_id: Seq<char> },
    Storing { job_id: Seq<char> },
    Timing { job_id: Seq<char> },
    Scheduling { job_id: Seq<char> },
    Finished,
}

pub enum PushEventView {
    Counted(int),
    Encoded(Seq<char>),
    Stored,
    Clock(int),
    Scheduled,
    Failed(Seq<char>),
}

pub enum PushActionView {
    Run(CommandView),
    Encode(JobView),
    ReadClock,
    Return(Result<Seq<char>, Seq<char>>),
}

impl View for PushState {
    type V = PushStateView;

    open spec fn view(&self) -> PushStateView {
        match self {
            PushState::Counting { task } => PushStateView::Counting { task: task@ },
            PushState::Encoding { job_id } => PushStateView::Encoding { job_id: job_id@ },
            PushState::Storing { job_id } => PushStateView::Storing { job_id: job_id@ },
            PushState::Timing { job_id } => PushStateView::Timing { job_id: job_id@ },
            PushState::Scheduling { job_id } => PushStateView::Scheduling { job_id: job_id@ },
            PushState::Finished => PushStateView::Finished,
        }
    }
}

impl View for PushEvent {
    type V = PushEventView;

    open spec fn view(&self) -> PushEventView {
        match self {
            PushEvent::Counted(c) => PushEventView::Counted(*c as int),
            PushEvent::Encoded(p) => PushEventView::Encoded(p@),
            PushEvent::Stored => PushEventView::Stored,
            PushEvent::Clock(t) => PushEventView::Clock(*t as int),
            PushEvent::Scheduled => PushEventView::Scheduled,
            PushEvent::Failed(m) => PushEventView::Failed(m@),
        }
    }
}

impl View for PushAction {
    type V = PushActionView;

    open spec fn view(&self) -> PushActionView {
        match self {
            PushAction::Run(c) => PushActionView::Run(c@),
            PushAction::Encode(j) => PushActionView::Encode(j@),
            PushAction::ReadClock => PushActionView::ReadClock,
            PushAction::Return(Ok(id)) => PushActionView::Return(Ok(id@)),
            PushAction::Return(Err(m)) => PushActionView::Return(Err(m@)),
        }
    }
}

/// The score under which a job pushed at time `t` is ordered: the time
/// truncated to 64 bits.
pub open spec fn score_of(t: int) -> int {
    t % 0x1_0000_0000_0000_0000
}

/// Law: a job's score is its time where the time fits in 64 bits, and always
/// fits in 64 bits.
pub proof fn law_score_of(t: int)
    requires
        t >= 0,
    ensures
        0 <= score_of(t) < 0x1_0000_0000_0000_0000,
        t < 0x1_0000_0000_0000_0000 ==> score_of(t) == t,
{
}

/// Law: a job's key is `mate:job:` followed by the decimal notation of the
/// counter value it was drawn from.
pub proof fn law_job_id_text(count: int)
    ensures
        job_id_spec(count) == "mate:job:"@ + int_decimal(count),
{
    reveal_strlit("mate:job");
    reveal_strlit("mate:job:");
    assert(SCHEDULER_JOB_PREFIX@ + seq![':'] =~= "mate:job:"@);
}

/// The first step of a push of a job for `task`: increment the job counter.
pub open spec fn spec_push_start(task: Seq<char>) -> (PushStateView, PushActionView) {
    (
        PushStateView::Counting { task },
        PushActionView::Run(CommandView::Incr { key: JOB_COUNTER_KEY@, delta: 1 }),
    )
}

/// Whether a push in state `s` can take event `e`: a failure while it is
/// under way, or the outcome of the action it asked for.
pub open spec fn push_accepts(s: PushStateView, e: PushEventView) -> bool {
    match (s, e) {
        (PushStateView::Finished, _) => false,
        (_, PushEventView::Failed(_)) => true,
        (PushStateView::Counting { .. }, PushEventView::Counted(_)) => true,
        (PushStateView::Encoding { .. }, PushEventView::Encoded(_)) => true,
        (PushStateView::Storing { .. }, PushEventView::Stored) => true,
        (PushStateView::Timing { .. }, PushEventView::Clock(_)) => true,
        (PushStateView::Scheduling { .. }, PushEventView::Scheduled) => true,
        _ => false,
    }
}

/// The next state and action of a push.
pub open spec fn spec_push_step(s: PushStateView, e: PushEventView) -> (PushStateView, PushActionView) {
    match e {
        PushEventView::Failed(m) => (PushStateView::Finished, PushActionView::Return(Err(m))),
        _ => match s {
            PushStateView::Counting { task } => match e {
                PushEventView::Counted(c) => {
                    let id = job_id_spec(c);
                    (PushStateView::Encoding { job_id: id }, PushActionView::Encode(JobView { id, task }))
                },
                _ => (s, PushActionView::ReadClock),
            },
            PushStateView::Encoding { job_id } => match e {
                PushEventView::Encoded(p) => (
                    PushStateView::Storing { job_id },
                    PushActionView::Run(CommandView::SetValue { key: job_id, value: p }),
                ),
                _ => (s, PushActionView::ReadClock),
            },
            PushStateView::Storing { job_id } => (PushStateView::Timing { job_id }, PushActionView::ReadClock),
            PushStateView::Timing { job_id } => match e {
                PushEventView::Clock(t) => (
                    PushStateView::Scheduling { job_id },
                    PushActionView::Run(CommandView::ZAdd { key: SCHEDULER_JOB_PREFIX@, member: job_id, score: score_of(t) }),
                ),
                _ => (s, PushActionView::ReadClock),
            },
            PushStateView::Scheduling { job_id } => (PushStateView::Finished, PushActionView::Return(Ok(job_id))),
            PushStateView::Finished => (s, PushActionView::ReadClock),
        },
    }
}

/// Starts pushing a job for the task that `job` names.
pub fn push_start(job: PushJobDto) -> (r: (PushState, PushAction))
    ensures
        (r.0@, r.1@) == spec_push_start(job.task@),
{
    let key = String::from_str(JOB_COUNTER_KEY);
    (PushState::Counting { task: job.task }, PushAction::Run(RedisCommand::Incr { key, delta: 1 }))
}

impl PushState {
    /// Whether this push can take `event` now.
    pub fn accepts(&self, event: &PushEvent) -> (r: bool)
        ensures
            r == push_accepts(self@, event@),
    {
        match (self, event) {
            (PushState::Finished, _) => false,
            (_, PushEvent::Failed(_)) => true,
            (PushState::Counting { .. }, PushEvent::Counted(_)) => true,
            (PushState::Encoding { .. }, PushEvent::Encoded(_)) => true,
            (PushState::Storing { .. }, PushEvent::Stored) => true,
            (PushState::Timing { .. }, PushEvent::Clock(_)) => true,
            (PushState::Scheduling { .. }, PushEvent::Scheduled) => true,
            _ => false,
        }
    }
}

/// The 64-bit score of a time: its low 64 bits.
pub fn score_for(t: u128) -> (r: u64)
    ensures
        r == score_of(t as int),
{
    let r: u64 = (t % 0x1_0000_0000_0000_0000u128) as u64;
    r
}

/// Takes a push one step further: from the outcome of the action it asked
/// for, the next state and the next action.
pub fn push_step(state: PushState, event: PushEvent) -> (r: (PushState, PushAction))
    requires
        push_accepts(state@, event@),
    ensures
        (r.0@, r.1@) == spec_push_step(state@, event@),
{
    match event {
        PushEvent::Failed(m) => (PushState::Finished, PushAction::Return(Err(m))),
        PushEvent::Counted(c) => match state {
            PushState::Counting { task } => {
                let id = job_id_for(c);
                let job = Job { id: id.clone(), task };
                (PushState::Encoding { job_id: id }, PushAction::Encode(job))
            },
            _ => (state, PushAction::ReadClock),
        },
        PushEvent::Encoded(p) => match state {
            PushState::Encoding { job_id } => {
                let key = job_id.clone();
                (PushState::Storing { job_id }, PushAction::Run(RedisCommand::SetValue { key, value: p }))
            },
            _ => (state, PushAction::ReadClock),
        },
        PushEvent::Stored => match state {
            PushState::Storing { job_id } => (PushState::Timing { job_id }, PushAction::ReadClock),
            _ => (state, PushAction::ReadClock),
        },
        PushEvent::Clock(t) => match state {
            PushState::Timing { job_id } => {
                let member = job_id.clone();
                let key = String::from_str(SCHEDULER_JOB_PREFIX);
                let score = score_for(t);
                (PushState::Scheduling { job_id }, PushAction::Run(RedisCommand::ZAdd { key, member, score }))
            },
            _ => (state, PushAction::ReadClock),
        },
        PushEvent::Scheduled => match state {
            PushState::Scheduling { job_id } => (PushState::Finished, PushAction::Return(Ok(job_id))),
            _ => (state, PushAction::ReadClock),
        },
    }
}

/// Law: a push that meets no failure increments the job counter, encodes the
/// job under the key drawn from the counter, stores the record under that
/// key, reads the clock, adds the key to the time-ordered set with the time
/// as score, and returns that key.
pub proof fn law_push_sequence(task: Seq<char>, count: int, payload: Seq<char>, t: int)
    ensures
        ({
            let id = job_id_spec(count);
            let (s1, a1) = spec_push_start(task);
            let (s2, a2) = spec_push_step(s1, PushEventView::Counted(count));
            let (s3, a3) = spec_push_step(s2, PushEventView::Encoded(payload));
            let (s4, a4) = spec_push_step(s3, PushEventView::Stored);
            let (s5, a5) = spec_push_step(s4, PushEventView::Clock(t));
            let (s6, a6) = spec_push_step(s5, PushEventView::Scheduled);
            &&& a1 == PushActionView::Run(CommandView::Incr { key: JOB_COUNTER_KEY@, delta: 1 })
            &&& push_accepts(s1, PushEventView::Counted(count))
            &&& a2 == PushActionView::Encode(JobView { id, task })
            &&& push_accepts(s2, PushEventView::Encoded(payload))
            &&& a3 == PushActionView::Run(CommandView::SetValue { key: id, value: payload })
            &&& push_accepts(s3, PushEventView::Stored)
            &&& a4 == PushActionView::ReadClock
            &&& push_accepts(s4, PushEventView::Clock(t))
            &&& a5 == PushActionView::Run(CommandView::ZAdd { key: SCHEDULER_JOB_PREFIX@, member: id, score: score_of(t) })
            &&& push_accepts(s5, PushEventView::Scheduled)
            &&& a6 == PushActionView::Return(Ok(id))
            &&& s6 == PushStateView::Finished
        }),
{
}

/// Law: a push that fails at any step returns the failure's message and is over.
pub proof fn law_push_failure(s: PushStateView, m: Seq<char>)
    requires
        s != PushStateView::Finished,
    ensures
        push_accepts(s, PushEventView::Failed(m)),
        spec_push_step(s, PushEventView::Failed(m)) == (PushStateView::Finished, PushActionView::Return(Err(m))),
{
}

} // verus!

verus! {

/// Where a pop or a list stands.
#[derive(Debug, PartialEq, Eq)]
pub enum ScanState {
    /// The keys of the queued jobs are being read.
    Ranging,
    /// The records stored under those keys are being read.
    Fetching,
    /// The records are being decoded.
    Decoding,
    /// The pop or list has returned.
    Finished,
}

/// What happened to the last action of a pop or a list.
#[derive(Debug)]
pub enum ScanEvent {
    /// The keys of the queued jobs, in time order.
    Keys(Vec<String>),
    /// The records stored under those keys, in the same order.
    Values(Vec<String>),
    /// Each record decoded into a job, or nothing where it does not decode.
    Decoded(Vec<Option<Job>>),
    /// The last action failed with this message.
    Failed(String),
}

/// What a pop or a list asks to be done next.
#[derive(Debug)]
pub enum ScanAction {
    /// Send this command to Redis.
    Run(RedisCommand),
    /// Decode each of these records into a job.
    Decode(Vec<String>),
    /// The pop or list is over: the jobs found, or why it failed.
    Return(Result<Vec<Job>, String>),
}

/// The jobs of a list of decoded records, as plain text.
pub open spec fn job_views(v: Seq<Job>) -> Seq<JobView> {
    v.map_values(|j: Job| j@)
}

/// Decoded records as plain text.
pub open spec fn decoded_views(v: Seq<Option<Job>>) -> Seq<Option<JobView>> {
    v.map_values(|o: Option<Job>| match o {
        Some(j) => Some(j@),
        None => None,
    })
}

/// The jobs among decoded records, in order: the records that did not decode
/// are left out.
pub open spec fn kept_jobs(v: Seq<Option<JobView>>) -> Seq<JobView>
    decreases v.len(),
{
    if v.len() == 0 {
        Seq::empty()
    } else {
        match v.last() {
            Some(j) => kept_jobs(v.drop_last()).push(j),
            None => kept_jobs(v.drop_last()),
        }
    }
}

/// Law: no records keep no jobs.
pub proof fn law_kept_jobs_empty()
    ensures
        kept_jobs(Seq::<Option<JobView>>::empty()) == Seq::<JobView>::empty(),
{
}

/// Law: a record that decoded keeps its job; one that did not keeps nothing.
pub proof fn law_kept_jobs_single(j: JobView)
    ensures
        kept_jobs(seq![Some(j)]) == seq![j],
        kept_jobs(seq![None::<JobView>]) == Seq::<JobView>::empty(),
{
    assert(kept_jobs(Seq::<Option<JobView>>::empty()) == Seq::<JobView>::empty());
    assert(seq![Some(j)].drop_last() =~= Seq::<Option<JobView>>::empty());
    assert(seq![None::<JobView>].drop_last() =~= Seq::<Option<JobView>>::empty());
    assert(seq![Some(j)].last() == Some(j));
    assert(seq![None::<JobView>].last() == None::<JobView>);
    assert(Seq::<JobView>::empty().push(j) =~= seq![j]);
}

/// Law: the jobs kept from two runs of records, one after the other, are
/// those kept from the first followed by those kept from the second. With the
/// two laws above, every decoded record's job is kept, in order.
pub proof fn law_kept_jobs_append(a: Seq<Option<JobView>>, b: Seq<Option<JobView>>)
    ensures
        kept_jobs(a + b) == kept_jobs(a) + kept_jobs(b),
    decreases b.len(),
{
    if b.len() == 0 {
        assert(a + b =~= a);
        assert(kept_jobs(a) + kept_jobs(b) =~= kept_jobs(a));
    } else {
        law_kept_jobs_append(a, b.drop_last());
        assert((a + b).drop_last() =~= a + b.drop_last());
        assert((a + b).last() == b.last());
        match b.last() {
            Some(j) => {
                assert((kept_jobs(a) + kept_jobs(b.drop_last())).push(j) =~= kept_jobs(a) + kept_jobs(b.drop_last()).push(j));
            },
            None => {},
        }
    }
}

/// Law: where every record decodes, every job is kept, in order.
pub proof fn law_kept_jobs_all_decoded(v: Seq<Option<JobView>>)
    requires
        forall|i: int| 0 <= i < v.len() ==> (#[trigger] v[i]) is Some,
    ensures
        kept_jobs(v).len() == v.len(),
        forall|i: int| 0 <= i < v.len() ==> v[i] == Some(#[trigger] kept_jobs(v)[i]),
    decreases v.len(),
{
    if v.len() > 0 {
        let init = v.drop_last();
        assert forall|i: int| 0 <= i < init.len() implies (#[trigger] init[i]) is Some by {
            assert(init[i] == v[i]);
        }
        law_kept_jobs_all_decoded(init);
        assert(v[v.len() - 1] is Some);
        assert forall|i: int| 0 <= i < v.len() implies v[i] == Some(#[trigger] kept_jobs(v)[i]) by {
            if i < v.len() - 1 {
                assert(init[i] == v[i]);
                assert(kept_jobs(v)[i] == kept_jobs(init)[i]);
            }
        }
    }
}

/// Law: a pop reads the keys of ranks 0 and 1 of the time-ordered set (the
/// first two jobs), and a list reads ranks 0 to -1 (every job).
pub proof fn law_scan_ranges()
    ensures
        pop_range() matches CommandView::ZRange { key, start, stop } && key == SCHEDULER_JOB_PREFIX@ && start == 0 && stop == 1,
        list_range() matches CommandView::ZRange { key, start, stop } && key == SCHEDULER_JOB_PREFIX@ && start == 0 && stop == -1,
{
}

/// The command that reads the keys of the jobs that a pop takes: the first
/// two of the time-ordered set (ranks 0 to 1).
pub open spec fn pop_range() -> CommandView {
    CommandView::ZRange { key: SCHEDULER_JOB_PREFIX@, start: 0, stop: 1 }
}

/// The command that reads the keys of every queued job (ranks 0 to -1).
pub open spec fn list_range() -> CommandView {
    CommandView::ZRange { key: SCHEDULER_JOB_PREFIX@, start: 0, stop: -1 }
}

/// Starts a pop: read the keys of the first two queued jobs.
pub fn pop_start() -> (r: (ScanState, ScanAction))
    ensures
        r.0 == ScanState::Ranging,
        r.1 matches ScanAction::Run(c) && c@ == pop_range(),
{
    let key = String::from_str(SCHEDULER_JOB_PREFIX);
    (ScanState::Ranging, ScanAction::Run(RedisCommand::ZRange { key, start: 0, stop: 1 }))
}

/// Starts a list: read the keys of all queued jobs.
pub fn list_start() -> (r: (ScanState, ScanAction))
    ensures
        r.0 == ScanState::Ranging,
        r.1 matches ScanAction::Run(c) && c@ == list_range(),
{
    let key = String::from_str(SCHEDULER_JOB_PREFIX);
    (ScanState::Ranging, ScanAction::Run(RedisCommand::ZRange { key, start: 0, stop: -1 }))
}

/// Whether a pop or list in state `s` can take `e`: a failure while it is
/// under way, or the outcome of the action it asked for.
pub open spec fn scan_accepts(s: ScanState, e: ScanEvent) -> bool {
    match (s, e) {
        (ScanState::Finished, _) => false,
        (_, ScanEvent::Failed(_)) => true,
        (ScanState::Ranging, ScanEvent::Keys(_)) => true,
        (ScanState::Fetching, ScanEvent::Values(_)) => true,
        (ScanState::Decoding, ScanEvent::Decoded(_)) => true,
        _ => false,
    }
}

impl ScanState {
    /// Whether this pop or list can take `event` now.
    pub fn accepts(&self, event: &ScanEvent) -> (r: bool)
        ensures
            r == scan_accepts(*self, *event),
    {
        match (self, event) {
            (ScanState::Finished, _) => false,
            (_, ScanEvent::Failed(_)) => true,
            (ScanState::Ranging, ScanEvent::Keys(_)) => true,
            (ScanState::Fetching, ScanEvent::Values(_)) => true,
            (ScanState::Decoding, ScanEvent::Decoded(_)) => true,
            _ => false,
        }
    }
}

/// The jobs among decoded records, in order.
pub fn keep_decoded(decoded: Vec<Option<Job>>) -> (r: Vec<Job>)
    ensures
        job_views(r@) == kept_jobs(decoded_views(decoded@)),
{
    let ghost all = decoded_views(decoded@);
    let ghost n = decoded@.len();
    let mut r: Vec<Job> = Vec::new();
    let mut rest = decoded;
    let mut i: usize = 0;
    let total = rest.len();
    while rest.len() > 0
        invariant
            total == n,
            all.len() == n,
            rest@.len() + i == n,
            decoded_views(rest@) == all.subrange(i as int, n as int),
            job_views(r@) == kept_jobs(all.subrange(0, i as int)),
        decreases rest@.len(),
    {
        let ghost before = rest@;
        let item = rest.remove(0);
        proof {
            assert(decoded_views(before)[0] == all[i as int]);
            assert(decoded_views(rest@) =~= all.subrange(i + 1, n as int)) by {
                assert forall|k: int| 0 <= k < rest@.len() implies #[trigger] decoded_views(rest@)[k] == all[i + 1 + k] by {
                    assert(rest@[k] == before[k + 1]);
                    assert(decoded_views(before)[k + 1] == all[i + 1 + k]);
                }
            }
            assert(all.subrange(0, i + 1).drop_last() =~= all.subrange(0, i as int));
            assert(all.subrange(0, i + 1).last() == all[i as int]);
        }
        match item {
            Some(j) => {
                r.push(j);
                proof {
                    assert(job_views(r@) =~= job_views(r@.drop_last()).push(r@.last()@));
                    assert(r@.drop_last() =~= r@.subrange(0, r@.len() - 1));
                }
            },
            None => {},
        }
        i = i + 1;
    }
    assert(all.subrange(0, n as int) =~= all);
    r
}

/// Takes a pop or list one step further.
pub fn scan_step(state: ScanState, event: ScanEvent) -> (r: (ScanState, ScanAction))
    requires
        scan_accepts(state, event),
    ensures
        match event {
            ScanEvent::Failed(m) => {
                &&& r.0 == ScanState::Finished
                &&& r.1 matches ScanAction::Return(Err(e)) && e@ == m@
            },
            ScanEvent::Keys(ks) => {
                &&& r.0 == ScanState::Fetching
                &&& r.1 matches ScanAction::Run(c) && c@ == (CommandView::MGet { keys: texts(ks@) })
            },
            ScanEvent::Values(vs) => {
                &&& r.0 == ScanState::Decoding
                &&& r.1 matches ScanAction::Decode(ws) && texts(ws@) == texts(vs@)
            },
            ScanEvent::Decoded(ds) => {
                &&& r.0 == ScanState::Finished
                &&& r.1 matches ScanAction::Return(Ok(jobs)) && job_views(jobs@) == kept_jobs(decoded_views(ds@))
            },
        },
{
    match event {
        ScanEvent::Failed(m) => (ScanState::Finished, ScanAction::Return(Err(m))),
        ScanEvent::Keys(ks) => (ScanState::Fetching, ScanAction::Run(RedisCommand::MGet { keys: ks })),
        ScanEvent::Values(vs) => (ScanState::Decoding, ScanAction::Decode(vs)),
        ScanEvent::Decoded(ds) => (ScanState::Finished, ScanAction::Return(Ok(keep_decoded(ds)))),
    }
}

/// The Redis client, a type of the `redis` crate.
#[verifier::external_type_specification]
#[verifier::external_body]
pub struct ExRedisClient(redis::Client);

/// What `redis::Client::open` makes of a connection URL: the client it
/// returns, or the message of the error it returns.
pub uninterp spec fn redis_open(url: Seq<char>) -> Result<redis::Client, Seq<char>>;

/// Calls `redis::Client::open`, which parses the connection URL and opens no
/// connection, so that its outcome depends on the URL alone; trusted to
/// return what `redis_open` names for the URL: the client, or an error whose
/// message is the one named.
#[verifier::external_body]
fn open_client(url: String) -> (r: Result<redis::Client, String>)
    ensures
        match r {
            Ok(c) => redis_open(url@) == Ok::<redis::Client, Seq<char>>(c),
            Err(e) => redis_open(url@) == Err::<redis::Client, Seq<char>>(e@),
        },
{
    match redis::Client::open(url) {
        Ok(c) => Ok(c),
        Err(e) => Err(e.to_string()),
    }
}

/// A scheduler backend that keeps the queue in Redis.
pub struct RedisBackend {
    client: redis::Client,
}

impl RedisBackend {
    /// A backend for the Redis server at the URL `config`; fails, with the
    /// client's message, where the URL is not one the client accepts.
    pub fn new(config: String) -> (r: Result<RedisBackend, String>)
        ensures
            match r {
                Ok(b) => redis_open(config@) == Ok::<redis::Client, Seq<char>>(b.client_spec()),
                Err(e) => redis_open(config@) == Err::<redis::Client, Seq<char>>(e@),
            },
    {
        match open_client(config) {
            Ok(client) => Ok(RedisBackend { client }),
            Err(e) => Err(e),
        }
    }

    /// The client that the backend was opened with.
    pub closed spec fn client_spec(&self) -> redis::Client {
        self.client
    }

    /// The client that connects to the server: the one the backend holds.
    pub fn client(&self) -> (r: &redis::Client)
        ensures
            *r == self.client_spec(),
    {
        &self.client
    }
}

} // verus!
