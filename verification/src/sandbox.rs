//! Running authored scripts: what a run is asked and reports, how much of
//! its output is kept, and the record of sandbox jobs.
use vstd::prelude::*;
use vstd::string::*;
use crate::guard::join_one;
use crate::text::str_eq;

verus! {

/// How long a script may run unless the request says otherwise.
pub const DEFAULT_TIMEOUT_MS: u64 = 10_000;
/// How many bytes of a script's standard output are kept.
pub const STDOUT_CAP: usize = 1024 * 1024;
/// How many bytes of a script's standard error are kept.
pub const STDERR_CAP: usize = 256 * 1024;
/// How many bytes are read from a pipe at a time.
pub const READ_CHUNK: usize = 8 * 1024;

#[derive(Clone, Copy, Debug, PartialEq, Eq, Structural)]
pub enum ScriptLanguage {
    Python,
    Shell,
}

impl ScriptLanguage {
    /// The interpreter and its arguments; the script comes on its standard
    /// input.
    pub fn program_and_args(self) -> (r: (&'static str, &'static str))
        ensures
            self == ScriptLanguage::Python ==> r.0@ == "python3"@ && r.1@ == "-"@,
            self == ScriptLanguage::Shell ==> r.0@ == "sh"@ && r.1@ == "-s"@,
    {
        match self {
            ScriptLanguage::Python => ("python3", "-"),
            ScriptLanguage::Shell => ("sh", "-s"),
        }
    }
}

/// A script to run: its language and text, the JSON arguments it gets in
/// `ARGS_JSON`, its time limit and its working directory.
pub struct RunRequest {
    pub language: ScriptLanguage,
    pub script: String,
    pub args_json: String,
    pub timeout_ms: u64,
    pub cwd: String,
}

/// What a run of a script gave.
pub struct RunOutcome {
    pub stdout: String,
    pub stderr: String,
    pub exit_code: Option<i32>,
    pub duration_ms: u64,
    pub timed_out: bool,
    pub stdout_truncated: bool,
    pub stderr_truncated: bool,
}

/// Why a script could not be run.
pub enum RunError {
    Spawn { program: String, error: String },
    Io(String),
    CwdMissing(String),
}

impl RunError {
    /// The text shown for the error.
    pub open spec fn text(&self) -> Seq<char> {
        match self {
            RunError::Spawn { program, error } => "failed to spawn '"@ + program@ + "': "@ + error@,
            RunError::Io(error) => "io error: "@ + error@,
            RunError::CwdMissing(path) => "scratch cwd missing: "@ + path@,
        }
    }

    pub fn message(&self) -> (r: String)
        ensures
            r@ == self.text(),
    {
        match self {
            RunError::Spawn { program, error } => {
                let mut m = "failed to spawn '".to_owned();
                m.append(program.as_str());
                m.append("': ");
                m.append(error.as_str());
                m
            },
            RunError::Io(error) => {
                let mut m = "io error: ".to_owned();
                m.append(error.as_str());
                m
            },
            RunError::CwdMissing(path) => {
                let mut m = "scratch cwd missing: ".to_owned();
                m.append(path.as_str());
                m
            },
        }
    }
}

/// The bytes kept of a stream read in chunks, at most `cap` of them, and
/// whether some were dropped.
pub struct CappedOutput {
    buf: Vec<u8>,
    truncated: bool,
    cap: usize,
}

/// One chunk read into a capped buffer: while there is room, as much of it
/// as fits is kept; whatever does not fit marks the output truncated.
pub open spec fn absorb_step(kept: Seq<u8>, truncated: bool, cap: nat, chunk: Seq<u8>) -> (Seq<u8>, bool) {
    if kept.len() >= cap {
        (kept, truncated || chunk.len() > 0)
    } else {
        let room = cap - kept.len();
        let take = if chunk.len() <= room { chunk.len() as int } else { room };
        (kept + chunk.take(take), truncated || take < chunk.len())
    }
}

/// The capped buffer after reading the given chunks, one after another.
pub open spec fn captured(chunks: Seq<Seq<u8>>, cap: nat) -> (Seq<u8>, bool)
    decreases chunks.len(),
{
    if chunks.len() == 0 {
        (Seq::empty(), false)
    } else {
        let before = captured(chunks.drop_last(), cap);
        absorb_step(before.0, before.1, cap, chunks.last())
    }
}

/// The chunks put end to end.
pub open spec fn joined(chunks: Seq<Seq<u8>>) -> Seq<u8>
    decreases chunks.len(),
{
    if chunks.len() == 0 {
        Seq::empty()
    } else {
        joined(chunks.drop_last()) + chunks.last()
    }
}

impl View for CappedOutput {
    type V = (Seq<u8>, bool);

    closed spec fn view(&self) -> (Seq<u8>, bool) {
        (self.buf@, self.truncated)
    }
}

impl CappedOutput {
    pub closed spec fn cap_of(&self) -> nat {
        self.cap as nat
    }

    pub fn new(cap: usize) -> (r: Self)
        ensures
            r@ == (Seq::<u8>::empty(), false),
            r.cap_of() == cap,
    {
        CappedOutput { buf: Vec::new(), truncated: false, cap }
    }

    /// Takes in one chunk read from the stream.
    pub fn absorb(&mut self, chunk: &[u8])
        ensures
            final(self).cap_of() == old(self).cap_of(),
            final(self)@ == absorb_step(old(self)@.0, old(self)@.1, old(self).cap_of(), chunk@),
    {
        if self.buf.len() >= self.cap {
            if chunk.len() > 0 {
                self.truncated = true;
            }
            return;
        }
        let room = self.cap - self.buf.len();
        let take = if chunk.len() <= room { chunk.len() } else { room };
        let ghost start = self.buf@;
        let mut i: usize = 0;
        while i < take
            invariant
                take <= chunk@.len(),
                i <= take,
                self.buf@ == start + chunk@.take(i as int),
                self.cap == old(self).cap,
                self.truncated == old(self).truncated,
                start == old(self).buf@,
            decreases take - i,
        {
            self.buf.push(chunk[i]);
            i = i + 1;
            assert(self.buf@ =~= start + chunk@.take(i as int));
        }
        if take < chunk.len() {
            self.truncated = true;
        }
    }

    /// The bytes kept and whether some were dropped.
    pub fn finish(self) -> (r: (Vec<u8>, bool))
        ensures
            (r.0@, r.1) == self@,
    {
        (self.buf, self.truncated)
    }
}

/// Reading a stream in chunks into a capped buffer keeps exactly the first
/// `cap` bytes of the whole stream, and marks it truncated exactly when the
/// stream was longer than that, however the stream was cut into chunks.
pub proof fn law_capture_keeps_prefix(chunks: Seq<Seq<u8>>, cap: nat)
    ensures
        captured(chunks, cap).0 == joined(chunks).take(
            if joined(chunks).len() <= cap { joined(chunks).len() as int } else { cap as int },
        ),
        captured(chunks, cap).1 == (joined(chunks).len() > cap),
    decreases chunks.len(),
{
    if chunks.len() == 0 {
        assert(joined(chunks).take(0) =~= Seq::<u8>::empty());
    } else {
        let d = chunks.drop_last();
        let c = chunks.last();
        law_capture_keeps_prefix(d, cap);
        let all = joined(d);
        assert(joined(chunks) == all + c);
        if all.len() >= cap {
            assert((all + c).take(cap as int) =~= all.take(cap as int));
        } else {
            let room = cap - all.len();
            let take = if c.len() <= room { c.len() as int } else { room };
            assert(all.take(all.len() as int) =~= all);
            assert(all + c.take(take) =~= (all + c).take(all.len() + take));
        }
    }
}

#[derive(Clone, Copy, Debug, PartialEq, Eq, Structural)]
pub enum SandboxStatus {
    Queued,
    Running,
    Succeeded,
    Failed,
    TimedOut,
    Cancelled,
}

#[derive(Clone, Copy, Debug, PartialEq, Eq, Structural)]
pub enum SandboxRunKind {
    PythonScript,
    ShellScript,
}

impl SandboxRunKind {
    pub fn language(self) -> (r: ScriptLanguage)
        ensures
            r == (match self {
                SandboxRunKind::PythonScript => ScriptLanguage::Python,
                SandboxRunKind::ShellScript => ScriptLanguage::Shell,
            }),
    {
        match self {
            SandboxRunKind::PythonScript => ScriptLanguage::Python,
            SandboxRunKind::ShellScript => ScriptLanguage::Shell,
        }
    }
}

/// A script to run in the sandbox.
pub struct SandboxRunRequest {
    pub kind: SandboxRunKind,
    pub script: String,
    pub args_json: String,
    pub timeout_ms: u64,
}

/// What a sandbox run gave.
pub struct SandboxRunResult {
    pub job_id: String,
    pub status: SandboxStatus,
    pub cwd: String,
    pub stdout: String,
    pub stderr: String,
    pub exit_code: Option<i32>,
    pub duration_ms: u64,
    pub timed_out: bool,
    pub stdout_truncated: bool,
    pub stderr_truncated: bool,
}

impl SandboxRunResult {
    pub fn duplicate(&self) -> (r: Self)
        ensures
            r == *self,
    {
        SandboxRunResult {
            job_id: self.job_id.clone(),
            status: self.status,
            cwd: self.cwd.clone(),
            stdout: self.stdout.clone(),
            stderr: self.stderr.clone(),
            exit_code: self.exit_code,
            duration_ms: self.duration_ms,
            timed_out: self.timed_out,
            stdout_truncated: self.stdout_truncated,
            stderr_truncated: self.stderr_truncated,
        }
    }
}

/// A sandbox job as it stands.
pub struct SandboxJobSnapshot {
    pub job_id: String,
    pub kind: SandboxRunKind,
    pub status: SandboxStatus,
    pub cwd: String,
    pub started_at_secs: Option<u64>,
    pub finished_at_secs: Option<u64>,
    pub result: Option<SandboxRunResult>,
    pub error: Option<String>,
}

/// The record of one sandbox job.
pub struct SandboxJob {
    pub job_id: String,
    pub kind: SandboxRunKind,
    pub status: SandboxStatus,
    pub cwd: String,
    pub started_at_secs: Option<u64>,
    pub finished_at_secs: Option<u64>,
    pub result: Option<SandboxRunResult>,
    pub error: Option<String>,
}

/// The snapshot of a job: the same fields.
pub open spec fn snapshot_of(job: SandboxJob) -> SandboxJobSnapshot {
    SandboxJobSnapshot {
        job_id: job.job_id,
        kind: job.kind,
        status: job.status,
        cwd: job.cwd,
        started_at_secs: job.started_at_secs,
        finished_at_secs: job.finished_at_secs,
        result: job.result,
        error: job.error,
    }
}

impl SandboxJob {
    /// A job waiting to run in its own directory.
    pub fn queued(job_id: String, kind: SandboxRunKind, cwd: String) -> (r: Self)
        ensures
            r == (SandboxJob {
                job_id,
                kind,
                status: SandboxStatus::Queued,
                cwd,
                started_at_secs: None,
                finished_at_secs: None,
                result: None,
                error: None,
            }),
    {
        SandboxJob {
            job_id,
            kind,
            status: SandboxStatus::Queued,
            cwd,
            started_at_secs: None,
            finished_at_secs: None,
            result: None,
            error: None,
        }
    }

    pub fn snapshot(&self) -> (r: SandboxJobSnapshot)
        ensures
            r == snapshot_of(*self),
    {
        SandboxJobSnapshot {
            job_id: self.job_id.clone(),
            kind: self.kind,
            status: self.status,
            cwd: self.cwd.clone(),
            started_at_secs: self.started_at_secs,
            finished_at_secs: self.finished_at_secs,
            result: match &self.result {
                Some(r) => Some(r.duplicate()),
                None => None,
            },
            error: match &self.error {
                Some(e) => Some(e.clone()),
                None => None,
            },
        }
    }
}

/// How a finished run is classed: timed out, succeeded on exit code 0, or
/// failed.
pub open spec fn outcome_status(timed_out: bool, exit_code: Option<i32>) -> SandboxStatus {
    if timed_out {
        SandboxStatus::TimedOut
    } else if exit_code == Some(0i32) {
        SandboxStatus::Succeeded
    } else {
        SandboxStatus::Failed
    }
}

pub fn status_from_outcome(outcome: &RunOutcome) -> (r: SandboxStatus)
    ensures
        r == outcome_status(outcome.timed_out, outcome.exit_code),
        outcome.timed_out ==> r == SandboxStatus::TimedOut,
        !outcome.timed_out ==> (r == SandboxStatus::Succeeded <==> outcome.exit_code == Some(0i32)),
        !outcome.timed_out && outcome.exit_code != Some(0i32) ==> r == SandboxStatus::Failed,
{
    if outcome.timed_out {
        SandboxStatus::TimedOut
    } else {
        match outcome.exit_code {
            Some(code) => if code == 0 {
                SandboxStatus::Succeeded
            } else {
                SandboxStatus::Failed
            },
            None => SandboxStatus::Failed,
        }
    }
}

/// A run that timed out is timed out whatever its exit code; one that did
/// not succeeds exactly when it exited with code 0, and fails on any other
/// exit code or none.
pub proof fn law_status_follows_exit_code(timed_out: bool, exit_code: Option<i32>)
    ensures
        timed_out ==> outcome_status(timed_out, exit_code) == SandboxStatus::TimedOut,
        !timed_out ==> (outcome_status(timed_out, exit_code) == SandboxStatus::Succeeded
            <==> exit_code == Some(0i32)),
        !timed_out && exit_code != Some(0i32) ==> outcome_status(timed_out, exit_code)
            == SandboxStatus::Failed,
        outcome_status(timed_out, exit_code) != SandboxStatus::Queued,
        outcome_status(timed_out, exit_code) != SandboxStatus::Running,
{
}

/// The result of a job whose run gave `outcome`: its status classed from
/// the outcome, and the outcome's output and figures.
pub open spec fn run_result_of(job_id: String, cwd: String, outcome: RunOutcome) -> SandboxRunResult {
    SandboxRunResult {
        job_id,
        status: outcome_status(outcome.timed_out, outcome.exit_code),
        cwd,
        stdout: outcome.stdout,
        stderr: outcome.stderr,
        exit_code: outcome.exit_code,
        duration_ms: outcome.duration_ms,
        timed_out: outcome.timed_out,
        stdout_truncated: outcome.stdout_truncated,
        stderr_truncated: outcome.stderr_truncated,
    }
}

/// The result of a job whose run gave `outcome`.
pub fn run_result(job_id: String, cwd: String, outcome: RunOutcome) -> (r: SandboxRunResult)
    ensures
        r == run_result_of(job_id, cwd, outcome),
{
    let status = status_from_outcome(&outcome);
    SandboxRunResult {
        job_id,
        status,
        cwd,
        stdout: outcome.stdout,
        stderr: outcome.stderr,
        exit_code: outcome.exit_code,
        duration_ms: outcome.duration_ms,
        timed_out: outcome.timed_out,
        stdout_truncated: outcome.stdout_truncated,
        stderr_truncated: outcome.stderr_truncated,
    }
}

/// The directory the sandbox keeps under a workspace.
pub open spec fn sandbox_root_of(workspace: Seq<char>) -> Seq<char> {
    join_one(join_one(workspace, ".agent-tools"@), "sandbox"@)
}

/// `workspace/.agent-tools/sandbox`.
pub fn sandbox_root(workspace: &str) -> (r: String)
    ensures
        r@ == sandbox_root_of(workspace@),
{
    let a = crate::guard::join_segment(workspace, ".agent-tools");
    crate::guard::join_segment(a.as_str(), "sandbox")
}

/// Why a sandbox run failed before or while running.
pub enum SandboxError {
    CreateRoot(String),
    CreateJobDir { path: String, error: String },
    Run(String),
}

impl SandboxError {
    pub open spec fn text(&self) -> Seq<char> {
        match self {
            SandboxError::CreateRoot(error) => "create sandbox root failed: "@ + error@,
            SandboxError::CreateJobDir { path, error } => "create sandbox job dir '"@ + path@
                + "' failed: "@ + error@,
            SandboxError::Run(error) => error@,
        }
    }

    pub fn message(&self) -> (r: String)
        ensures
            r@ == self.text(),
    {
        match self {
            SandboxError::CreateRoot(error) => {
                let mut m = "create sandbox root failed: ".to_owned();
                m.append(error.as_str());
                m
            },
            SandboxError::CreateJobDir { path, error } => {
                let mut m = "create sandbox job dir '".to_owned();
                m.append(path.as_str());
                m.append("' failed: ");
                m.append(error.as_str());
                m
            },
            SandboxError::Run(error) => error.clone(),
        }
    }
}

/// The job record of a sandbox: jobs by id.
pub struct JobTable {
    jobs: Vec<SandboxJob>,
}

/// The jobs as a map from id; a later job with the same id hides an
/// earlier one.
pub open spec fn jobs_map(s: Seq<SandboxJob>) -> Map<Seq<char>, SandboxJob>
    decreases s.len(),
{
    if s.len() == 0 {
        Map::empty()
    } else {
        jobs_map(s.drop_last()).insert(s.last().job_id@, s.last())
    }
}

/// No two jobs share an id.
pub open spec fn ids_distinct(s: Seq<SandboxJob>) -> bool {
    forall|i: int, j: int| 0 <= i < j < s.len() ==> (#[trigger] s[i]).job_id@ != (#[trigger] s[j]).job_id@
}

proof fn lemma_jobs_map_index(s: Seq<SandboxJob>, i: int)
    requires
        ids_distinct(s),
        0 <= i < s.len(),
    ensures
        jobs_map(s).contains_key(s[i].job_id@),
        jobs_map(s)[s[i].job_id@] == s[i],
    decreases s.len(),
{
    if i < s.len() - 1 {
        lemma_jobs_map_index(s.drop_last(), i);
        assert(s.drop_last()[i] == s[i]);
    }
}

proof fn lemma_jobs_map_keys(s: Seq<SandboxJob>, k: Seq<char>)
    ensures
        jobs_map(s).contains_key(k) <==> exists|i: int| 0 <= i < s.len() && (#[trigger] s[i]).job_id@ == k,
    decreases s.len(),
{
    if s.len() > 0 {
        lemma_jobs_map_keys(s.drop_last(), k);
        if jobs_map(s.drop_last()).contains_key(k) {
            let i = choose|i: int| 0 <= i < s.drop_last().len() && (#[trigger] s.drop_last()[i]).job_id@ == k;
            assert(s[i] == s.drop_last()[i]);
        }
        if exists|i: int| 0 <= i < s.len() && (#[trigger] s[i]).job_id@ == k {
            let i = choose|i: int| 0 <= i < s.len() && (#[trigger] s[i]).job_id@ == k;
            if i < s.len() - 1 {
                assert(s.drop_last()[i] == s[i]);
            }
        }
    }
}

proof fn lemma_jobs_map_update(s: Seq<SandboxJob>, i: int, job: SandboxJob)
    requires
        ids_distinct(s),
        0 <= i < s.len(),
        job.job_id@ == s[i].job_id@,
    ensures
        jobs_map(s.update(i, job)) == jobs_map(s).insert(job.job_id@, job),
        ids_distinct(s.update(i, job)),
    decreases s.len(),
{
    let t = s.update(i, job);
    if i == s.len() - 1 {
        assert(t.drop_last() =~= s.drop_last());
        assert(jobs_map(t) =~= jobs_map(s).insert(job.job_id@, job));
    } else {
        lemma_jobs_map_update(s.drop_last(), i, job);
        assert(t.drop_last() =~= s.drop_last().update(i, job));
        assert(s.last().job_id@ != job.job_id@);
        assert(jobs_map(t) =~= jobs_map(s).insert(job.job_id@, job));
    }
    assert forall|a: int, b: int| 0 <= a < b < t.len() implies (#[trigger] t[a]).job_id@
        != (#[trigger] t[b]).job_id@ by {
        assert(s[a].job_id@ != s[b].job_id@);
    }
}

impl View for JobTable {
    type V = Map<Seq<char>, SandboxJob>;

    closed spec fn view(&self) -> Map<Seq<char>, SandboxJob> {
        jobs_map(self.jobs@)
    }
}

impl JobTable {
    #[verifier::type_invariant]
    closed spec fn distinct(self) -> bool {
        ids_distinct(self.jobs@)
    }

    pub fn new() -> (r: Self)
        ensures
            r@ == Map::<Seq<char>, SandboxJob>::empty(),
    {
        JobTable { jobs: Vec::new() }
    }

    /// Index of the job with the given id, if there is one.
    fn position(&self, id: &str) -> (r: Option<usize>)
        ensures
            match r {
                Some(i) => i < self.jobs@.len() && self.jobs@[i as int].job_id@ == id@,
                None => !self@.contains_key(id@),
            },
    {
        let mut i: usize = 0;
        while i < self.jobs.len()
            invariant
                i <= self.jobs@.len(),
                forall|j: int| 0 <= j < i ==> (#[trigger] self.jobs@[j]).job_id@ != id@,
            decreases self.jobs.len() - i,
        {
            if str_eq(self.jobs[i].job_id.as_str(), id) {
                return Some(i);
            }
            i = i + 1;
        }
        proof {
            lemma_jobs_map_keys(self.jobs@, id@);
        }
        None
    }

    /// Records a job (replacing one with the same id).
    pub fn insert(&mut self, job: SandboxJob)
        ensures
            final(self)@ == old(self)@.insert(job.job_id@, job),
    {
        proof {
            use_type_invariant(&*self);
        }
        match self.position(job.job_id.as_str()) {
            Some(i) => {
                proof {
                    lemma_jobs_map_update(self.jobs@, i as int, job);
                }
                let mut jobs = Vec::new();
                std::mem::swap(&mut jobs, &mut self.jobs);
                jobs.set(i, job);
                self.jobs = jobs;
            },
            None => {
                let ghost before = self.jobs@;
                proof {
                    lemma_jobs_map_keys(before, job.job_id@);
                }
                let mut jobs = Vec::new();
                std::mem::swap(&mut jobs, &mut self.jobs);
                jobs.push(job);
                assert(jobs@.drop_last() =~= before);
                assert forall|a: int, b: int| 0 <= a < b < jobs@.len() implies (#[trigger] jobs@[a]).job_id@
                    != (#[trigger] jobs@[b]).job_id@ by {
                    if b == jobs@.len() - 1 {
                        assert(before[a] == jobs@[a]);
                    } else {
                        assert(before[a] == jobs@[a] && before[b] == jobs@[b]);
                    }
                }
                self.jobs = jobs;
            },
        }
    }

    /// The snapshot of the job with the given id.
    pub fn snapshot(&self, id: &str) -> (r: Option<SandboxJobSnapshot>)
        ensures
            self@.contains_key(id@) ==> r == Some(snapshot_of(self@[id@])),
            !self@.contains_key(id@) ==> r is None,
    {
        proof {
            use_type_invariant(self);
        }
        match self.position(id) {
            Some(i) => {
                proof {
                    lemma_jobs_map_index(self.jobs@, i as int);
                }
                Some(self.jobs[i].snapshot())
            },
            None => None,
        }
    }

    /// Gives the job with the given id a new status and whichever of the
    /// other fields are given, if there is such a job.
    fn update_with(&mut self, id: &str, status: SandboxStatus, started: Option<u64>, finished: Option<u64>, result: Option<SandboxRunResult>, error: Option<String>)
        ensures
            old(self)@.contains_key(id@) ==> final(self)@ == old(self)@.insert(
                id@,
                updated_job(old(self)@[id@], status, started, finished, result, error),
            ),
            !old(self)@.contains_key(id@) ==> final(self)@ == old(self)@,
    {
        proof {
            use_type_invariant(&*self);
        }
        if let Some(i) = self.position(id) {
            proof {
                lemma_jobs_map_index(self.jobs@, i as int);
            }
            let old_job = &self.jobs[i];
            let job = SandboxJob {
                job_id: old_job.job_id.clone(),
                kind: old_job.kind,
                status,
                cwd: old_job.cwd.clone(),
                started_at_secs: if started.is_some() { started } else { old_job.started_at_secs },
                finished_at_secs: if finished.is_some() { finished } else { old_job.finished_at_secs },
                result: if result.is_some() {
                    result
                } else {
                    match &old_job.result {
                        Some(r) => Some(r.duplicate()),
                        None => None,
                    }
                },
                error: if error.is_some() {
                    error
                } else {
                    match &old_job.error {
                        Some(e) => Some(e.clone()),
                        None => None,
                    }
                },
            };
            proof {
                lemma_jobs_map_update(self.jobs@, i as int, job);
            }
            let mut jobs = Vec::new();
            std::mem::swap(&mut jobs, &mut self.jobs);
            jobs.set(i, job);
            self.jobs = jobs;
        }
    }

    /// Marks a job running from `now` (seconds since the Unix epoch).
    pub fn start(&mut self, id: &str, now: u64)
        ensures
            old(self)@.contains_key(id@) ==> final(self)@ == old(self)@.insert(
                id@,
                SandboxJob {
                    status: SandboxStatus::Running,
                    started_at_secs: Some(now),
                    ..old(self)@[id@]
                },
            ),
            !old(self)@.contains_key(id@) ==> final(self)@ == old(self)@,
    {
        self.update_with(id, SandboxStatus::Running, Some(now), None, None, None);
    }

    /// Records the result of a job's run, finished at `now`.
    pub fn finish(&mut self, id: &str, result: SandboxRunResult, now: u64)
        ensures
            old(self)@.contains_key(id@) ==> final(self)@ == old(self)@.insert(
                id@,
                SandboxJob {
                    status: result.status,
                    finished_at_secs: Some(now),
                    result: Some(result),
                    ..old(self)@[id@]
                },
            ),
            !old(self)@.contains_key(id@) ==> final(self)@ == old(self)@,
    {
        let status = result.status;
        self.update_with(id, status, None, Some(now), Some(result), None);
    }

    /// Records that a job's run could not be carried out, at `now`.
    pub fn fail(&mut self, id: &str, message: String, now: u64)
        ensures
            old(self)@.contains_key(id@) ==> final(self)@ == old(self)@.insert(
                id@,
                SandboxJob {
                    status: SandboxStatus::Failed,
                    finished_at_secs: Some(now),
                    error: Some(message),
                    ..old(self)@[id@]
                },
            ),
            !old(self)@.contains_key(id@) ==> final(self)@ == old(self)@,
    {
        self.update_with(id, SandboxStatus::Failed, None, Some(now), None, Some(message));
    }

    /// Records a new job as running from `now`, in its own directory.
    pub fn begin(&mut self, job_id: String, kind: SandboxRunKind, cwd: String, now: u64)
        ensures
            final(self)@ == begun(old(self)@, job_id, kind, cwd, now),
    {
        let id = job_id.clone();
        let ghost before = self@;
        self.insert(SandboxJob::queued(job_id, kind, cwd));
        self.start(id.as_str(), now);
        proof {
            assert(self@ =~= begun(before, id, kind, cwd, now));
        }
    }

    /// Records how a job's run ended at `now`, and gives what the run
    /// gives its caller: the result, or the run's error.
    pub fn record_outcome(
        &mut self,
        job_id: String,
        cwd: String,
        outcome: Result<RunOutcome, RunError>,
        now: u64,
    ) -> (r: Result<SandboxRunResult, SandboxError>)
        ensures
            match outcome {
                Ok(o) => {
                    &&& r == Ok::<SandboxRunResult, SandboxError>(run_result_of(job_id, cwd, o))
                    &&& final(self)@ == finished(old(self)@, job_id@, run_result_of(job_id, cwd, o), now)
                },
                Err(e) => {
                    &&& r matches Err(SandboxError::Run(m)) && m@ == e.text()
                    &&& final(self)@ == failed(old(self)@, job_id@, r->Err_0->Run_0, now)
                },
            },
    {
        match outcome {
            Ok(o) => {
                let result = run_result(job_id.clone(), cwd, o);
                self.finish(job_id.as_str(), result.duplicate(), now);
                Ok(result)
            },
            Err(e) => {
                let message = e.message();
                self.fail(job_id.as_str(), message.clone(), now);
                Err(SandboxError::Run(message))
            },
        }
    }
}

/// The jobs after a new job is recorded as running from `now`.
pub open spec fn begun(
    jobs: Map<Seq<char>, SandboxJob>,
    job_id: String,
    kind: SandboxRunKind,
    cwd: String,
    now: u64,
) -> Map<Seq<char>, SandboxJob> {
    jobs.insert(
        job_id@,
        SandboxJob {
            job_id,
            kind,
            status: SandboxStatus::Running,
            cwd,
            started_at_secs: Some(now),
            finished_at_secs: None,
            result: None,
            error: None,
        },
    )
}

/// The jobs after the job `id`, if recorded, finished at `now` with
/// `result`.
pub open spec fn finished(
    jobs: Map<Seq<char>, SandboxJob>,
    id: Seq<char>,
    result: SandboxRunResult,
    now: u64,
) -> Map<Seq<char>, SandboxJob> {
    if jobs.contains_key(id) {
        jobs.insert(
            id,
            SandboxJob {
                status: result.status,
                finished_at_secs: Some(now),
                result: Some(result),
                ..jobs[id]
            },
        )
    } else {
        jobs
    }
}

/// The jobs after the run of job `id`, if recorded, could not be carried
/// out, at `now`.
pub open spec fn failed(
    jobs: Map<Seq<char>, SandboxJob>,
    id: Seq<char>,
    message: String,
    now: u64,
) -> Map<Seq<char>, SandboxJob> {
    if jobs.contains_key(id) {
        jobs.insert(
            id,
            SandboxJob {
                status: SandboxStatus::Failed,
                finished_at_secs: Some(now),
                error: Some(message),
                ..jobs[id]
            },
        )
    } else {
        jobs
    }
}

/// The job after an update: the given status, and each given field.
pub open spec fn updated_job(
    job: SandboxJob,
    status: SandboxStatus,
    started: Option<u64>,
    finished: Option<u64>,
    result: Option<SandboxRunResult>,
    error: Option<String>,
) -> SandboxJob {
    SandboxJob {
        status,
        started_at_secs: if started is Some { started } else { job.started_at_secs },
        finished_at_secs: if finished is Some { finished } else { job.finished_at_secs },
        result: if result is Some { result } else { job.result },
        error: if error is Some { error } else { job.error },
        ..job
    }
}

/// A recorded job can be looked up: its snapshot shows it as recorded.
pub proof fn law_snapshot_after_insert(t: Map<Seq<char>, SandboxJob>, job: SandboxJob)
    ensures
        t.insert(job.job_id@, job).contains_key(job.job_id@),
        snapshot_of(t.insert(job.job_id@, job)[job.job_id@]) == snapshot_of(job),
{
}

/// A run that was begun and then finished leaves a job whose snapshot
/// carries the run's status and result, the time it started and the time
/// it finished, and no error; every other job stays as it was, and no job
/// appears but the run's own.
pub proof fn law_finished_run_snapshot(
    jobs: Map<Seq<char>, SandboxJob>,
    job_id: String,
    kind: SandboxRunKind,
    cwd: String,
    outcome: RunOutcome,
    started: u64,
    ended: u64,
)
    ensures
        ({
            let result = run_result_of(job_id, cwd, outcome);
            let after = finished(begun(jobs, job_id, kind, cwd, started), job_id@, result, ended);
            &&& after.contains_key(job_id@)
            &&& snapshot_of(after[job_id@]) == (SandboxJobSnapshot {
                job_id,
                kind,
                status: outcome_status(outcome.timed_out, outcome.exit_code),
                cwd,
                started_at_secs: Some(started),
                finished_at_secs: Some(ended),
                result: Some(result),
                error: None,
            })
            &&& after.dom() == jobs.dom().insert(job_id@)
            &&& forall|k: Seq<char>| k != job_id@ && jobs.contains_key(k) ==> after[k] == jobs[k]
        }),
{
    let result = run_result_of(job_id, cwd, outcome);
    let after = finished(begun(jobs, job_id, kind, cwd, started), job_id@, result, ended);
    assert(after.dom() =~= jobs.dom().insert(job_id@));
}

} // verus!
