use baaton_api::jobs::{
    after_job_pass, backoff_ms, claim_next_job, complete_job, execute_job, fail_job, job_kind,
    retry_pass_drains, JobKind, JobStatus, RunnerStep, GitHubSyncJob,
};
use baaton_api::links::{
    pr_link_row, pr_mapping_key, pr_state, records_merge, review_status, GitHubCommitLink,
    CommitLinkTable, PrLinkTable, PrState, PullRequestEvent, ReviewStatus,
};
use baaton_api::processor::{issues_mapping_key, pr_sync_enabled, GitHubRepoMapping};
use baaton_api::status::{apply_status_mapping, status_target, MappingKey, StatusMapping, StatusOutcome, WorkItem};
use baaton_api::token::{token_expiry, ConfigError, GitHubClient, TokenCache};

fn job(id: u128, priority: i32, scheduled_at: u64) -> GitHubSyncJob {
    GitHubSyncJob {
        id,
        job_type: "sync_pr".to_string(),
        issue_id: None,
        github_repo_id: None,
        priority,
        status: JobStatus::Pending,
        retry_count: 0,
        max_retries: 3,
        scheduled_at,
        started_at: None,
        completed_at: None,
        last_error: None,
    }
}

#[test]
fn claims_follow_priority_then_schedule_and_never_repeat() {
    let mut q = vec![job(1, 0, 10), job(2, 5, 30), job(3, 5, 20), job(4, 9, 500)];
    let a = claim_next_job(&mut q, 100).unwrap();
    assert_eq!(q[a].id, 3);
    assert_eq!((q[a].status, q[a].started_at), (JobStatus::Processing, Some(100)));
    let b = claim_next_job(&mut q, 100).unwrap();
    assert_eq!(q[b].id, 2);
    let c = claim_next_job(&mut q, 100).unwrap();
    assert_eq!(q[c].id, 1);
    assert_eq!(claim_next_job(&mut q, 100), None);
    assert_eq!(q.iter().filter(|j| j.status == JobStatus::Processing).count(), 3);
}

#[test]
fn failing_job_dies_exactly_at_its_limit() {
    let mut j = job(1, 0, 0);
    fail_job(&mut j, "e1".to_string(), 1_000);
    assert_eq!((j.status, j.retry_count, j.scheduled_at), (JobStatus::Pending, 1, 6_000));
    assert_eq!(j.last_error.as_deref(), Some("e1"));
    fail_job(&mut j, "e2".to_string(), 1_000);
    assert_eq!((j.status, j.retry_count, j.scheduled_at), (JobStatus::Pending, 2, 26_000));
    fail_job(&mut j, "e3".to_string(), 1_000);
    assert_eq!((j.status, j.retry_count), (JobStatus::Dead, 3));
}

#[test]
fn backoff_grows_by_five_and_saturates() {
    assert_eq!(backoff_ms(0), 1_000);
    assert_eq!(backoff_ms(1), 5_000);
    assert_eq!(backoff_ms(3), 125_000);
    assert_eq!(backoff_ms(40), u64::MAX);
    let mut j = job(1, 0, 0);
    j.retry_count = 30;
    j.max_retries = 100;
    fail_job(&mut j, "e".to_string(), 5);
    assert_eq!(j.scheduled_at, u64::MAX);
}

#[test]
fn completed_jobs_and_kinds() {
    let mut j = job(1, 0, 0);
    complete_job(&mut j, 77);
    assert_eq!((j.status, j.completed_at), (JobStatus::Completed, Some(77)));
    assert_eq!(job_kind("full_resync"), Some(JobKind::FullResync));
    assert_eq!(job_kind("sync_comment_from_github"), Some(JobKind::SyncCommentFromGithub));
    assert_eq!(job_kind("nope"), None);
    assert!(execute_job(None).is_ok());
}

#[test]
fn runner_pacing() {
    assert!(retry_pass_drains(&Ok(2)));
    assert!(!retry_pass_drains(&Ok(0)));
    assert!(!retry_pass_drains(&Err("db".to_string())));
    assert_eq!(after_job_pass(&Ok(true)), RunnerStep::PollAgain);
    assert_eq!(after_job_pass(&Ok(false)), RunnerStep::Sleep(2000));
    assert_eq!(after_job_pass(&Err("db".to_string())), RunnerStep::Sleep(5000));
}

fn mapping() -> StatusMapping {
    StatusMapping {
        entries: vec![
            ("pr_opened".to_string(), Some("in_review".to_string())),
            ("pr_merged".to_string(), Some("done".to_string())),
            ("pr_closed".to_string(), None),
        ],
    }
}

fn item() -> WorkItem {
    WorkItem { id: 1, status: "todo".to_string(), sync_source: None, sync_lock_until: None, updated_at: 0 }
}

#[test]
fn anti_echo_lock_allows_one_change_in_five_seconds() {
    let mut it = item();
    assert_eq!(apply_status_mapping(&mut it, &mapping(), "pr_opened", 10_000), StatusOutcome::Applied);
    assert_eq!(it.status, "in_review");
    assert_eq!(it.sync_source.as_deref(), Some("github"));
    assert_eq!(it.sync_lock_until, Some(15_000));
    assert_eq!(apply_status_mapping(&mut it, &mapping(), "pr_merged", 14_999), StatusOutcome::Locked);
    assert_eq!(it.status, "in_review");
    assert_eq!(apply_status_mapping(&mut it, &mapping(), "pr_merged", 15_001), StatusOutcome::Applied);
    assert_eq!(it.status, "done");
}

#[test]
fn unmapped_tags_change_nothing() {
    let mut it = item();
    assert_eq!(apply_status_mapping(&mut it, &mapping(), "pr_closed", 1), StatusOutcome::Unmapped);
    assert_eq!(apply_status_mapping(&mut it, &mapping(), "issue_closed", 1), StatusOutcome::Unmapped);
    assert_eq!(it.status, "todo");
    assert_eq!(status_target(&mapping(), "pr_merged"), Some("done".to_string()));
    assert_eq!(MappingKey::IssueClosed.as_str(), "issue_closed");
}

#[test]
fn pr_states() {
    assert_eq!(pr_state("closed", Some(true), false), PrState::Merged);
    assert_eq!(pr_state("closed", Some(false), false), PrState::Closed);
    assert_eq!(pr_state("closed", None, true), PrState::Closed);
    assert_eq!(pr_state("opened", None, true), PrState::Draft);
    assert_eq!(pr_state("opened", Some(false), false), PrState::Open);
    assert_eq!(pr_mapping_key(PrState::Draft), MappingKey::PrOpened);
    assert_eq!(pr_mapping_key(PrState::Merged), MappingKey::PrMerged);
    assert_eq!(pr_mapping_key(PrState::Closed), MappingKey::PrClosed);
}

fn pr_event(action: &str, title: &str) -> PullRequestEvent {
    PullRequestEvent {
        action: action.to_string(),
        repo_id: Some(5),
        number: 12,
        pr_id: 900,
        title: title.to_string(),
        body: String::new(),
        html_url: "https://github.com/o/r/pull/12".to_string(),
        head_ref: "feature/BAA-7-x".to_string(),
        base_ref: None,
        author_login: None,
        author_id: Some(3),
        merged: Some(true),
        draft: false,
        additions: Some(10),
        deletions: Some(2),
        changed_files: Some(1),
        merged_at: None,
        merged_by: None,
    }
}

#[test]
fn pr_upsert_twice_changes_only_update_time() {
    let mut t = PrLinkTable::new();
    t.upsert(pr_link_row(&pr_event("opened", "T"), 5, 77, 100));
    t.upsert(pr_link_row(&pr_event("opened", "T"), 5, 77, 200));
    assert_eq!(t.rows.len(), 1);
    let r = &t.rows[0];
    assert_eq!((r.pr_title.as_str(), r.pr_state, r.updated_at), ("T", PrState::Open, 200));
    assert_eq!((r.base_branch.as_str(), r.author_login.as_str()), ("main", "unknown"));
    t.upsert(pr_link_row(&pr_event("closed", "T2"), 5, 77, 300));
    assert_eq!(t.rows.len(), 1);
    assert_eq!((t.rows[0].pr_title.as_str(), t.rows[0].pr_state), ("T2", PrState::Merged));
    assert!(records_merge(&pr_event("closed", "T2")));
    assert!(!records_merge(&pr_event("opened", "T2")));
    t.set_review_status(5, 12, ReviewStatus::Approved, 400);
    assert_eq!(t.rows[0].review_status, Some(ReviewStatus::Approved));
    assert_eq!(review_status("changes_requested"), Some(ReviewStatus::ChangesRequested));
    assert_eq!(review_status("dismissed"), None);
}

#[test]
fn commit_links_are_inserted_once() {
    let link = |msg: &str| GitHubCommitLink {
        issue_id: 1,
        github_repo_id: 5,
        sha: "abc".to_string(),
        message: msg.to_string(),
        author_login: None,
        author_email: None,
        committed_at: String::new(),
        url: String::new(),
    };
    let mut t = CommitLinkTable::new();
    assert!(t.insert_once(link("first")));
    assert!(!t.insert_once(link("second")));
    assert_eq!(t.rows.len(), 1);
    assert_eq!(t.rows[0].message, "first");
}

fn repo_mapping(direction: &str, sync_issues: bool) -> GitHubRepoMapping {
    GitHubRepoMapping {
        id: 1,
        project_id: 2,
        github_repo_id: 5,
        is_active: true,
        sync_direction: direction.to_string(),
        sync_issues,
        sync_prs: true,
        sync_comments: false,
        auto_create_issues: false,
        status_mapping: mapping(),
    }
}

#[test]
fn issue_events_respect_direction() {
    let m = repo_mapping("bidirectional", true);
    assert_eq!(issues_mapping_key(&m, "closed"), Some(MappingKey::IssueClosed));
    assert_eq!(issues_mapping_key(&m, "reopened"), Some(MappingKey::IssueOpened));
    assert_eq!(issues_mapping_key(&m, "edited"), None);
    assert_eq!(issues_mapping_key(&repo_mapping("baaton_to_github", true), "closed"), None);
    assert_eq!(issues_mapping_key(&repo_mapping("bidirectional", false), "closed"), None);
    assert!(pr_sync_enabled(&Some(m)));
    assert!(!pr_sync_enabled(&None));
}

#[test]
fn token_cache_reuses_only_fresh_tokens() {
    let mut c = TokenCache::new();
    assert_eq!(c.fresh_token(1, 0), None);
    c.store(1, "tok".to_string(), 1_000);
    assert_eq!(c.fresh_token(1, 600), Some("tok".to_string()));
    assert_eq!(c.fresh_token(1, 700), None);
    assert_eq!(token_expiry(Some("2024-01-01T00:00:00Z"), 5), 1_704_067_200);
    assert_eq!(token_expiry(Some("not a date"), 5), 3_305);
    assert_eq!(token_expiry(None, 0), 3_300);
}

#[test]
fn client_rejects_a_bad_key() {
    assert_eq!(GitHubClient::new(7, b"not a key".to_vec()).err(), Some(ConfigError::InvalidPrivateKey));
}

#[test]
fn client_key_must_be_base64_of_a_pem_key() {
    assert_eq!(GitHubClient::from_key_base64(7, "!!!").err(), Some(ConfigError::KeyNotBase64));
    assert_eq!(
        GitHubClient::from_key_base64(7, "  bm90IGEga2V5\n").err(),
        Some(ConfigError::InvalidPrivateKey)
    );
}
