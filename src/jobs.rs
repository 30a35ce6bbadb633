//! The sync-job queue: which pending job is claimed next, what a finished or
//! failed job becomes, and how the runner paces its polling.
use vstd::prelude::*;

verus! {

#[derive(Clone, Copy, Debug, PartialEq, Eq, Structural)]
pub enum JobStatus {
    Pending,
    Processing,
    Completed,
    Dead,
}

/// A unit of deferred synchronisation work. Times are in milliseconds.
pub struct GitHubSyncJob {
    pub id: u128,
    pub job_type: String,
    pub issue_id: Option<u128>,
    pub github_repo_id: Option<i64>,
    pub priority: i32,
    pub status: JobStatus,
    pub retry_count: u32,
    pub max_retries: u32,
    pub scheduled_at: u64,
    pub started_at: Option<u64>,
    pub completed_at: Option<u64>,
    pub last_error: Option<String>,
}

/// The job may be claimed at `now`.
pub open spec fn claimable(j: GitHubSyncJob, now: u64) -> bool {
    j.status == JobStatus::Pending && j.scheduled_at <= now
}

/// `a` comes before `b`: higher priority first, then earlier schedule.
pub open spec fn runs_before(a: GitHubSyncJob, b: GitHubSyncJob) -> bool {
    a.priority > b.priority || (a.priority == b.priority && a.scheduled_at < b.scheduled_at)
}

/// What claiming at `now` does to the queue.
pub open spec fn claim_post(before: Seq<GitHubSyncJob>, after: Seq<GitHubSyncJob>, now: u64, r: Option<usize>) -> bool {
    match r {
        None => {
            &&& after == before
            &&& forall|j: int| 0 <= j < before.len() ==> !claimable(#[trigger] before[j], now)
        },
        Some(i) => {
            &&& i < before.len()
            &&& claimable(before[i as int], now)
            &&& forall|j: int|
                0 <= j < before.len() && claimable(#[trigger] before[j], now) ==> !runs_before(
                    before[j],
                    before[i as int],
                )
            &&& after.len() == before.len()
            &&& after[i as int] == GitHubSyncJob {
                status: JobStatus::Processing,
                started_at: Some(now),
                ..before[i as int]
            }
            &&& forall|j: int| 0 <= j < before.len() && j != i ==> after[j] == #[trigger] before[j]
        },
    }
}

/// Claims the next job at `now`: among the pending jobs scheduled by then,
/// one of highest priority and, among those, of earliest schedule; marks it
/// processing and returns its index.
pub fn claim_next_job(jobs: &mut Vec<GitHubSyncJob>, now: u64) -> (r: Option<usize>)
    ensures
        claim_post(old(jobs)@, final(jobs)@, now, r),
{
    let n = jobs.len();
    let mut best: Option<usize> = None;
    let mut i: usize = 0;
    while i < n
        invariant
            n == jobs@.len(),
            i <= n,
            best matches Some(b) ==> b < i && claimable(jobs@[b as int], now),
            best is None ==> forall|j: int| 0 <= j < i ==> !claimable(#[trigger] jobs@[j], now),
            best matches Some(b) ==> forall|j: int|
                0 <= j < i && claimable(#[trigger] jobs@[j], now) ==> !runs_before(
                    jobs@[j],
                    jobs@[b as int],
                ),
        decreases n - i,
    {
        let ready = jobs[i].status == JobStatus::Pending && jobs[i].scheduled_at <= now;
        if ready {
            match best {
                None => {
                    best = Some(i);
                },
                Some(b) => {
                    if jobs[i].priority > jobs[b].priority || (jobs[i].priority == jobs[b].priority
                        && jobs[i].scheduled_at < jobs[b].scheduled_at) {
                        best = Some(i);
                    }
                },
            }
        }
        i = i + 1;
    }
    match best {
        None => None,
        Some(b) => {
            let ghost before = jobs@;
            let mut job = jobs.remove(b);
            job.status = JobStatus::Processing;
            job.started_at = Some(now);
            jobs.insert(b, job);
            assert forall|j: int| 0 <= j < before.len() && j != b implies jobs@[j] == #[trigger] before[j] by {
                if j < b {
                } else {
                }
            }
            Some(b)
        },
    }
}

/// Two claims, one after the other, never hand out the same job.
pub proof fn lemma_claims_exclusive(
    q0: Seq<GitHubSyncJob>,
    q1: Seq<GitHubSyncJob>,
    q2: Seq<GitHubSyncJob>,
    now1: u64,
    now2: u64,
    i: usize,
    k: usize,
)
    requires
        claim_post(q0, q1, now1, Some(i)),
        claim_post(q1, q2, now2, Some(k)),
    ensures
        i != k,
        q2[i as int].status == JobStatus::Processing,
        q2[k as int].status == JobStatus::Processing,
{
}

/// `5^n`.
pub open spec fn pow5(n: nat) -> nat
    decreases n,
{
    if n == 0 {
        1
    } else {
        5 * pow5((n - 1) as nat)
    }
}

/// `x` capped at `u64::MAX`.
pub open spec fn saturate(x: int) -> u64 {
    if x > u64::MAX {
        u64::MAX
    } else {
        x as u64
    }
}

/// The wait after the `n`-th failure: `5^n` seconds, in milliseconds, capped
/// at `u64::MAX`.
pub fn backoff_ms(n: u32) -> (r: u64)
    ensures
        r == saturate((pow5(n as nat) * 1000) as int),
{
    let mut v: u64 = 1000;
    let mut k: u32 = 0;
    while k < n
        invariant
            k <= n,
            v == saturate((pow5(k as nat) * 1000) as int),
        decreases n - k,
    {
        proof {
            assert(pow5((k + 1) as nat) * 1000 == 5 * (pow5(k as nat) * 1000)) by (nonlinear_arith)
                requires
                    pow5((k + 1) as nat) == 5 * pow5(k as nat),
            ;
        }
        if v > u64::MAX / 5 {
            v = u64::MAX;
        } else {
            v = v * 5;
        }
        k = k + 1;
    }
    v
}

/// What a failure at `now` makes of a job.
pub open spec fn failed_post(before: GitHubSyncJob, after: GitHubSyncJob, error: Seq<char>, now: u64) -> bool {
    let n = before.retry_count + 1;
    &&& after.id == before.id
    &&& after.job_type == before.job_type
    &&& after.issue_id == before.issue_id
    &&& after.github_repo_id == before.github_repo_id
    &&& after.priority == before.priority
    &&& after.max_retries == before.max_retries
    &&& after.started_at == before.started_at
    &&& after.completed_at == before.completed_at
    &&& after.retry_count == n
    &&& after.status == (if n >= before.max_retries {
        JobStatus::Dead
    } else {
        JobStatus::Pending
    })
    &&& after.scheduled_at == saturate(now + pow5(n as nat) * 1000)
    &&& after.last_error matches Some(e) && e@ == error
}

/// Records a failed run: counts the attempt; a job that has used up its
/// retries is dead, any other is rescheduled `5^attempts` seconds after
/// `now` with the error kept.
pub fn fail_job(job: &mut GitHubSyncJob, error: String, now: u64)
    requires
        old(job).retry_count < u32::MAX,
    ensures
        failed_post(*old(job), *final(job), error@, now),
{
    let n = job.retry_count + 1;
    let wait = backoff_ms(n);
    job.status = if n >= job.max_retries {
        JobStatus::Dead
    } else {
        JobStatus::Pending
    };
    job.retry_count = n;
    job.scheduled_at = if now > u64::MAX - wait {
        u64::MAX
    } else {
        now + wait
    };
    job.last_error = Some(error);
}

/// A job that keeps failing is dead exactly when the failure it records
/// brings its attempts to its retry limit, and pending before that.
pub proof fn lemma_dead_exactly_at_limit(before: GitHubSyncJob, after: GitHubSyncJob, error: Seq<char>, now: u64)
    requires
        before.retry_count < u32::MAX,
        failed_post(before, after, error, now),
    ensures
        (after.status == JobStatus::Dead) <==> before.retry_count + 1 >= before.max_retries,
        (after.status == JobStatus::Pending) <==> before.retry_count + 1 < before.max_retries,
{
}

/// Records a successful run at `now`.
pub fn complete_job(job: &mut GitHubSyncJob, now: u64)
    ensures
        *final(job) == (GitHubSyncJob {
            status: JobStatus::Completed,
            completed_at: Some(now),
            ..*old(job)
        }),
{
    job.status = JobStatus::Completed;
    job.completed_at = Some(now);
}

/// The kinds of sync job that producers enqueue.
#[derive(Clone, Copy, Debug, PartialEq, Eq, Structural)]
pub enum JobKind {
    SyncIssueToGithub,
    SyncIssueFromGithub,
    SyncPr,
    SyncCommentToGithub,
    SyncCommentFromGithub,
    SyncStatus,
    InitialImport,
    FullResync,
}

pub open spec fn job_kind_of(t: Seq<char>) -> Option<JobKind> {
    if t == "sync_issue_to_github"@ {
        Some(JobKind::SyncIssueToGithub)
    } else if t == "sync_issue_from_github"@ {
        Some(JobKind::SyncIssueFromGithub)
    } else if t == "sync_pr"@ {
        Some(JobKind::SyncPr)
    } else if t == "sync_comment_to_github"@ {
        Some(JobKind::SyncCommentToGithub)
    } else if t == "sync_comment_from_github"@ {
        Some(JobKind::SyncCommentFromGithub)
    } else if t == "sync_status"@ {
        Some(JobKind::SyncStatus)
    } else if t == "initial_import"@ {
        Some(JobKind::InitialImport)
    } else if t == "full_resync"@ {
        Some(JobKind::FullResync)
    } else {
        None
    }
}

/// The kind that a job type names, if it names one.
pub fn job_kind(job_type: &str) -> (r: Option<JobKind>)
    ensures
        r == job_kind_of(job_type@),
{
    let t = job_type.to_owned();
    if t == "sync_issue_to_github".to_owned() {
        Some(JobKind::SyncIssueToGithub)
    } else if t == "sync_issue_from_github".to_owned() {
        Some(JobKind::SyncIssueFromGithub)
    } else if t == "sync_pr".to_owned() {
        Some(JobKind::SyncPr)
    } else if t == "sync_comment_to_github".to_owned() {
        Some(JobKind::SyncCommentToGithub)
    } else if t == "sync_comment_from_github".to_owned() {
        Some(JobKind::SyncCommentFromGithub)
    } else if t == "sync_status".to_owned() {
        Some(JobKind::SyncStatus)
    } else if t == "initial_import".to_owned() {
        Some(JobKind::InitialImport)
    } else if t == "full_resync".to_owned() {
        Some(JobKind::FullResync)
    } else {
        None
    }
}

/// Runs a job of the given kind. Every kind, and a type that names none, is
/// acknowledged at once: the synchronisation engine behind them is left to
/// a later extension.
pub fn execute_job(kind: Option<JobKind>) -> (r: Result<(), String>)
    ensures
        r is Ok,
{
    Ok(())
}

/// What the runner does after a pass that found nothing to drain.
#[derive(Clone, Copy, Debug, PartialEq, Eq, Structural)]
pub enum RunnerStep {
    /// Poll again at once.
    PollAgain,
    /// Sleep this many milliseconds, then poll.
    Sleep(u64),
}

pub const IDLE_SLEEP_MS: u64 = 2000;

pub const ERROR_SLEEP_MS: u64 = 5000;

/// How many pending webhook events one retry pass takes up.
pub const RETRY_BATCH: u64 = 5;

/// After the retry pass: when it found events, poll again at once and skip
/// the job pass; otherwise (none found, or the pass failed) go on to it.
pub fn retry_pass_drains(found: &Result<u64, String>) -> (r: bool)
    ensures
        r == (found matches Ok(n) && n > 0),
{
    match found {
        Ok(n) => *n > 0,
        Err(_) => false,
    }
}

/// After the job pass: poll again at once when a job was claimed, sleep two
/// seconds when there was none, five after an error.
pub fn after_job_pass(claimed: &Result<bool, String>) -> (r: RunnerStep)
    ensures
        claimed matches Ok(true) ==> r == RunnerStep::PollAgain,
        claimed matches Ok(false) ==> r == RunnerStep::Sleep(IDLE_SLEEP_MS),
        claimed is Err ==> r == RunnerStep::Sleep(ERROR_SLEEP_MS),
{
    match claimed {
        Ok(true) => RunnerStep::PollAgain,
        Ok(false) => RunnerStep::Sleep(IDLE_SLEEP_MS),
        Err(_) => RunnerStep::Sleep(ERROR_SLEEP_MS),
    }
}

} // verus!
