//! Decisions of the webhook processor: how each kind of stored event is
//! read, and what its outcome does to the stored event.
use vstd::prelude::*;
use crate::status::{MappingKey, StatusMapping};
use crate::text::{chars_of, same_text, string_of, strip_prefix, strip_prefix_spec};

verus! {

/// The webhook event types that the processor handles.
#[derive(Clone, Copy, Debug, PartialEq, Eq, Structural)]
pub enum EventKind {
    Installation,
    InstallationRepositories,
    PullRequest,
    PullRequestReview,
    Push,
    Issues,
    /// Any other type: acknowledged and left alone.
    Other,
}

pub open spec fn event_kind_of(t: Seq<char>) -> EventKind {
    if t == "installation"@ {
        EventKind::Installation
    } else if t == "installation_repositories"@ {
        EventKind::InstallationRepositories
    } else if t == "pull_request"@ {
        EventKind::PullRequest
    } else if t == "pull_request_review"@ {
        EventKind::PullRequestReview
    } else if t == "push"@ {
        EventKind::Push
    } else if t == "issues"@ {
        EventKind::Issues
    } else {
        EventKind::Other
    }
}

/// The kind of a stored event, from its `X-GitHub-Event` type.
pub fn event_kind(event_type: &str) -> (r: EventKind)
    ensures
        r == event_kind_of(event_type@),
{
    if same_text(event_type, "installation") {
        EventKind::Installation
    } else if same_text(event_type, "installation_repositories") {
        EventKind::InstallationRepositories
    } else if same_text(event_type, "pull_request") {
        EventKind::PullRequest
    } else if same_text(event_type, "pull_request_review") {
        EventKind::PullRequestReview
    } else if same_text(event_type, "push") {
        EventKind::Push
    } else if same_text(event_type, "issues") {
        EventKind::Issues
    } else {
        EventKind::Other
    }
}

/// Why processing an event failed.
#[derive(Clone, Copy, Debug, PartialEq, Eq, Structural)]
pub enum ProcessError {
    /// An `installation.deleted` event without `installation.id`.
    MissingInstallationId,
    /// A `pull_request` event without `repository.id`.
    MissingRepositoryId,
}

#[derive(Clone, Copy, Debug, PartialEq, Eq, Structural)]
pub enum InstallationStatus {
    Active,
    Suspended,
    Removed,
}

/// The status an `installation` event sets, and on which installation.
#[derive(Clone, Copy, Debug, PartialEq, Eq, Structural)]
pub struct InstallationChange {
    pub installation_id: i64,
    pub status: InstallationStatus,
    /// The mappings of the installation's repositories are deactivated too.
    pub deactivate_mappings: bool,
}

pub open spec fn installation_change_of(action: Seq<char>, installation_id: Option<i64>) -> Result<
    Option<InstallationChange>,
    ProcessError,
> {
    let id = match installation_id {
        Some(i) => i,
        None => 0,
    };
    if action == "deleted"@ {
        match installation_id {
            None => Err(ProcessError::MissingInstallationId),
            Some(i) => Ok(
                Some(
                    InstallationChange {
                        installation_id: i,
                        status: InstallationStatus::Removed,
                        deactivate_mappings: true,
                    },
                ),
            ),
        }
    } else if action == "suspend"@ {
        Ok(
            Some(
                InstallationChange {
                    installation_id: id,
                    status: InstallationStatus::Suspended,
                    deactivate_mappings: false,
                },
            ),
        )
    } else if action == "unsuspend"@ {
        Ok(
            Some(
                InstallationChange {
                    installation_id: id,
                    status: InstallationStatus::Active,
                    deactivate_mappings: false,
                },
            ),
        )
    } else {
        Ok(None)
    }
}

/// What an `installation` event changes: `deleted` removes the installation
/// and deactivates its mappings (and needs the installation id); `suspend`
/// and `unsuspend` toggle its status (id 0 when absent); other actions
/// change nothing.
pub fn installation_change(action: &str, installation_id: Option<i64>) -> (r: Result<
    Option<InstallationChange>,
    ProcessError,
>)
    ensures
        r == installation_change_of(action@, installation_id),
{
    let id = match installation_id {
        Some(i) => i,
        None => 0,
    };
    if same_text(action, "deleted") {
        match installation_id {
            None => Err(ProcessError::MissingInstallationId),
            Some(i) => Ok(
                Some(
                    InstallationChange {
                        installation_id: i,
                        status: InstallationStatus::Removed,
                        deactivate_mappings: true,
                    },
                ),
            ),
        }
    } else if same_text(action, "suspend") {
        Ok(
            Some(
                InstallationChange {
                    installation_id: id,
                    status: InstallationStatus::Suspended,
                    deactivate_mappings: false,
                },
            ),
        )
    } else if same_text(action, "unsuspend") {
        Ok(
            Some(
                InstallationChange {
                    installation_id: id,
                    status: InstallationStatus::Active,
                    deactivate_mappings: false,
                },
            ),
        )
    } else {
        Ok(None)
    }
}

/// The part of `s` before its first `/`, or all of it.
pub open spec fn before_slash(s: Seq<char>) -> Seq<char>
    decreases s.len(),
{
    if s.len() == 0 || s[0] == '/' {
        seq![]
    } else {
        seq![s[0]] + before_slash(s.drop_first())
    }
}

/// The owner of a repository: its full name up to the first `/`.
pub fn repo_owner(full_name: &str) -> (r: String)
    ensures
        r@ == before_slash(full_name@),
{
    let v = chars_of(full_name);
    let n = v.len();
    let mut i: usize = 0;
    assert(v@.skip(0) =~= v@);
    assert(v@.take(0) + before_slash(v@) =~= before_slash(v@));
    while i < n && v[i] != '/'
        invariant
            n == v@.len(),
            i <= n,
            before_slash(v@) == v@.take(i as int) + before_slash(v@.skip(i as int)),
        decreases n - i,
    {
        assert(v@.skip(i as int).drop_first() =~= v@.skip(i + 1));
        assert(v@.take(i + 1) =~= v@.take(i as int) + seq![v@[i as int]]);
        i = i + 1;
    }
    let mut out: Vec<char> = Vec::new();
    let mut k: usize = 0;
    while k < i
        invariant
            i <= n == v@.len(),
            k <= i,
            out@ == v@.take(k as int),
        decreases i - k,
    {
        out.push(v[k]);
        k = k + 1;
        assert(out@ =~= v@.take(k as int));
    }
    assert(before_slash(v@.skip(i as int)) =~= Seq::<char>::empty());
    assert(v@.take(i as int) + Seq::<char>::empty() =~= v@.take(i as int));
    string_of(&out)
}

/// A repository mapping: which project a repository syncs with, and how.
pub struct GitHubRepoMapping {
    pub id: u128,
    pub project_id: u128,
    pub github_repo_id: i64,
    pub is_active: bool,
    pub sync_direction: String,
    pub sync_issues: bool,
    pub sync_prs: bool,
    pub sync_comments: bool,
    pub auto_create_issues: bool,
    pub status_mapping: StatusMapping,
}

/// Pull requests of the repository are synced: it has an active mapping
/// with PR sync on.
pub fn pr_sync_enabled(mapping: &Option<GitHubRepoMapping>) -> (r: bool)
    ensures
        r == (mapping matches Some(m) && m.is_active && m.sync_prs),
{
    match mapping {
        Some(m) => m.is_active && m.sync_prs,
        None => false,
    }
}

/// The direction of a mapping that never takes changes from GitHub.
pub open spec fn outbound_only() -> Seq<char> {
    "baaton_to_github"@
}

/// The tag that a GitHub `issues` event applies to the linked work item:
/// only with issue sync on and a direction that takes changes from GitHub,
/// and only for `closed` and `reopened`.
pub open spec fn issues_key_of(mapping: GitHubRepoMapping, action: Seq<char>) -> Option<MappingKey> {
    if !mapping.is_active || !mapping.sync_issues || mapping.sync_direction@ == outbound_only() {
        None
    } else if action == "closed"@ {
        Some(MappingKey::IssueClosed)
    } else if action == "reopened"@ {
        Some(MappingKey::IssueOpened)
    } else {
        None
    }
}

pub fn issues_mapping_key(mapping: &GitHubRepoMapping, action: &str) -> (r: Option<MappingKey>)
    ensures
        r == issues_key_of(*mapping, action@),
{
    if !mapping.is_active || !mapping.sync_issues || same_text(
        mapping.sync_direction.as_str(),
        "baaton_to_github",
    ) {
        None
    } else if same_text(action, "closed") {
        Some(MappingKey::IssueClosed)
    } else if same_text(action, "reopened") {
        Some(MappingKey::IssueOpened)
    } else {
        None
    }
}

/// The branch that a push ref names: the ref without `refs/heads/`, or the
/// ref itself.
pub open spec fn branch_of_ref(git_ref: Seq<char>) -> Seq<char> {
    match strip_prefix_spec(git_ref, "refs/heads/"@) {
        Some(b) => b,
        None => git_ref,
    }
}

pub fn branch_from_ref(git_ref: &str) -> (r: String)
    ensures
        r@ == branch_of_ref(git_ref@),
{
    match strip_prefix(git_ref, "refs/heads/") {
        Some(b) => string_of(&b),
        None => git_ref.to_owned(),
    }
}

#[derive(Clone, Copy, Debug, PartialEq, Eq, Structural)]
pub enum EventStatus {
    Pending,
    Processing,
    Completed,
    Failed,
}

/// Processing attempts after which an event is given up.
pub const MAX_EVENT_ATTEMPTS: u32 = 3;

/// What the outcome of processing does to a stored event.
pub struct EventUpdate {
    pub status: EventStatus,
    pub retry_count: u32,
    pub error_message: Option<String>,
}

/// After processing an event that had `retry_count` failed attempts: on
/// success it is completed; on failure the attempt is counted and the event
/// fails for good at `MAX_EVENT_ATTEMPTS`, else waits as pending for a retry,
/// with the error kept.
pub fn event_outcome(result: Result<(), String>, retry_count: u32) -> (r: EventUpdate)
    requires
        retry_count < u32::MAX,
    ensures
        result is Ok ==> r.status == EventStatus::Completed && r.retry_count == retry_count
            && r.error_message is None,
        result matches Err(e) ==> {
            &&& r.retry_count == retry_count + 1
            &&& r.status == if retry_count + 1 >= MAX_EVENT_ATTEMPTS {
                EventStatus::Failed
            } else {
                EventStatus::Pending
            }
            &&& r.error_message matches Some(m) && m@ == e@
        },
{
    match result {
        Ok(()) => EventUpdate { status: EventStatus::Completed, retry_count, error_message: None },
        Err(e) => {
            let n = retry_count + 1;
            let status = if n >= MAX_EVENT_ATTEMPTS {
                EventStatus::Failed
            } else {
                EventStatus::Pending
            };
            EventUpdate { status, retry_count: n, error_message: Some(e) }
        },
    }
}

/// A stored event that the retry pass takes up.
pub fn retry_eligible(status: EventStatus, retry_count: u32) -> (r: bool)
    ensures
        r == (status == EventStatus::Pending && retry_count > 0),
{
    status == EventStatus::Pending && retry_count > 0
}

} // verus!
