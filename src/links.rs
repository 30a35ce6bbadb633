//! The links between work items and GitHub pull requests and commits: how a
//! pull request event becomes a link row, and the tables that hold them
//! (pull requests upserted by repository and number, commits inserted once
//! by repository and SHA).
use vstd::prelude::*;
use crate::status::MappingKey;
use crate::text::same_text;

verus! {

#[derive(Clone, Copy, Debug, PartialEq, Eq, Structural)]
pub enum PrState {
    Draft,
    Open,
    Merged,
    Closed,
}

/// The state of a pull request after an event: a `closed` action is a merge
/// when the PR is flagged merged, else a close; otherwise a draft PR is a
/// draft and any other is open.
pub open spec fn pr_state_of(action: Seq<char>, merged: Option<bool>, draft: bool) -> PrState {
    if action == "closed"@ {
        if merged == Some(true) {
            PrState::Merged
        } else {
            PrState::Closed
        }
    } else if draft {
        PrState::Draft
    } else {
        PrState::Open
    }
}

pub fn pr_state(action: &str, merged: Option<bool>, draft: bool) -> (r: PrState)
    ensures
        r == pr_state_of(action@, merged, draft),
{
    if same_text(action, "closed") {
        if merged == Some(true) {
            PrState::Merged
        } else {
            PrState::Closed
        }
    } else if draft {
        PrState::Draft
    } else {
        PrState::Open
    }
}

/// The status-mapping tag of a pull request state.
pub fn pr_mapping_key(state: PrState) -> (r: MappingKey)
    ensures
        (state == PrState::Open || state == PrState::Draft) ==> r == MappingKey::PrOpened,
        state == PrState::Merged ==> r == MappingKey::PrMerged,
        state == PrState::Closed ==> r == MappingKey::PrClosed,
{
    match state {
        PrState::Open | PrState::Draft => MappingKey::PrOpened,
        PrState::Merged => MappingKey::PrMerged,
        PrState::Closed => MappingKey::PrClosed,
    }
}

#[derive(Clone, Copy, Debug, PartialEq, Eq, Structural)]
pub enum ReviewStatus {
    Approved,
    ChangesRequested,
    Commented,
}

pub open spec fn review_status_of(state: Seq<char>) -> Option<ReviewStatus> {
    if state == "approved"@ {
        Some(ReviewStatus::Approved)
    } else if state == "changes_requested"@ {
        Some(ReviewStatus::ChangesRequested)
    } else if state == "commented"@ {
        Some(ReviewStatus::Commented)
    } else {
        None
    }
}

/// The review status that a review state records; other states record
/// nothing.
pub fn review_status(state: &str) -> (r: Option<ReviewStatus>)
    ensures
        r == review_status_of(state@),
{
    if same_text(state, "approved") {
        Some(ReviewStatus::Approved)
    } else if same_text(state, "changes_requested") {
        Some(ReviewStatus::ChangesRequested)
    } else if same_text(state, "commented") {
        Some(ReviewStatus::Commented)
    } else {
        None
    }
}

/// The fields of a `pull_request` event that the processor reads, with the
/// payload's absent strings given as empty.
pub struct PullRequestEvent {
    pub action: String,
    pub repo_id: Option<i64>,
    pub number: i32,
    pub pr_id: i64,
    pub title: String,
    pub body: String,
    pub html_url: String,
    pub head_ref: String,
    pub base_ref: Option<String>,
    pub author_login: Option<String>,
    pub author_id: Option<i64>,
    pub merged: Option<bool>,
    pub draft: bool,
    pub additions: Option<i32>,
    pub deletions: Option<i32>,
    pub changed_files: Option<i32>,
    pub merged_at: Option<String>,
    pub merged_by: Option<String>,
}

/// A link between a work item and a pull request.
pub struct GitHubPrLink {
    pub issue_id: u128,
    pub github_repo_id: i64,
    pub pr_number: i32,
    pub pr_id: i64,
    pub pr_title: String,
    pub pr_url: String,
    pub pr_state: PrState,
    pub head_branch: String,
    pub base_branch: String,
    pub author_login: String,
    pub author_id: Option<i64>,
    pub additions: Option<i32>,
    pub deletions: Option<i32>,
    pub changed_files: Option<i32>,
    pub review_status: Option<ReviewStatus>,
    pub merged_at: Option<String>,
    pub merged_by: Option<String>,
    /// How the link was found.
    pub link_method: String,
    pub updated_at: u64,
}

pub open spec fn or_default(o: Option<String>, d: Seq<char>) -> Seq<char> {
    match o {
        Some(s) => s@,
        None => d,
    }
}

fn string_or(o: &Option<String>, d: &str) -> (r: String)
    ensures
        r@ == or_default(*o, d@),
{
    match o {
        Some(s) => s.clone(),
        None => d.to_owned(),
    }
}

/// The link row that a pull request event writes for work item `issue_id`
/// in repository `repo_id` at `now`: base branch `main` and author
/// `unknown` when the payload has none.
pub fn pr_link_row(ev: &PullRequestEvent, repo_id: i64, issue_id: u128, now: u64) -> (r: GitHubPrLink)
    ensures
        r.issue_id == issue_id,
        r.github_repo_id == repo_id,
        r.pr_number == ev.number,
        r.pr_id == ev.pr_id,
        r.pr_title@ == ev.title@,
        r.pr_url@ == ev.html_url@,
        r.pr_state == pr_state_of(ev.action@, ev.merged, ev.draft),
        r.head_branch@ == ev.head_ref@,
        r.base_branch@ == or_default(ev.base_ref, "main"@),
        r.author_login@ == or_default(ev.author_login, "unknown"@),
        r.author_id == ev.author_id,
        r.additions == ev.additions,
        r.deletions == ev.deletions,
        r.changed_files == ev.changed_files,
        r.review_status is None,
        r.merged_at is None,
        r.merged_by is None,
        r.link_method@ == "branch_name"@,
        r.updated_at == now,
{
    GitHubPrLink {
        issue_id,
        github_repo_id: repo_id,
        pr_number: ev.number,
        pr_id: ev.pr_id,
        pr_title: ev.title.clone(),
        pr_url: ev.html_url.clone(),
        pr_state: pr_state(ev.action.as_str(), ev.merged, ev.draft),
        head_branch: ev.head_ref.clone(),
        base_branch: string_or(&ev.base_ref, "main"),
        author_login: string_or(&ev.author_login, "unknown"),
        author_id: ev.author_id,
        additions: ev.additions,
        deletions: ev.deletions,
        changed_files: ev.changed_files,
        review_status: None,
        merged_at: None,
        merged_by: None,
        link_method: "branch_name".to_owned(),
        updated_at: now,
    }
}

/// The event merged its pull request, so the merge is recorded.
pub fn records_merge(ev: &PullRequestEvent) -> (r: bool)
    ensures
        r == (ev.action@ == "closed"@ && ev.merged == Some(true)),
{
    same_text(ev.action.as_str(), "closed") && ev.merged == Some(true)
}

/// The pull-request links, at most one per repository and number.
pub struct PrLinkTable {
    pub rows: Vec<GitHubPrLink>,
}

pub open spec fn pr_key_is(l: GitHubPrLink, repo_id: i64, pr_number: i32) -> bool {
    l.github_repo_id == repo_id && l.pr_number == pr_number
}

impl PrLinkTable {
    /// No two rows share a repository and number.
    pub open spec fn wf(&self) -> bool {
        forall|i: int, j: int|
            0 <= i < j < self.rows@.len() ==> !pr_key_is(
                #[trigger] self.rows@[i],
                #[trigger] self.rows@[j].github_repo_id,
                self.rows@[j].pr_number,
            )
    }

    pub fn new() -> (r: PrLinkTable)
        ensures
            r.wf(),
            r.rows@.len() == 0,
    {
        PrLinkTable { rows: Vec::new() }
    }

    /// The index of the row of a repository and number.
    pub fn find(&self, repo_id: i64, pr_number: i32) -> (r: Option<usize>)
        ensures
            r matches Some(i) ==> i < self.rows@.len() && pr_key_is(
                self.rows@[i as int],
                repo_id,
                pr_number,
            ),
            r is None ==> forall|j: int|
                0 <= j < self.rows@.len() ==> !pr_key_is(#[trigger] self.rows@[j], repo_id, pr_number),
    {
        let mut i: usize = 0;
        while i < self.rows.len()
            invariant
                i <= self.rows@.len(),
                forall|j: int| 0 <= j < i ==> !pr_key_is(#[trigger] self.rows@[j], repo_id, pr_number),
            decreases self.rows@.len() - i,
        {
            if self.rows[i].github_repo_id == repo_id && self.rows[i].pr_number == pr_number {
                return Some(i);
            }
            i = i + 1;
        }
        None
    }
}

/// What an upsert of `row` does: a row with its repository and number has
/// its title, state, diff stats and update time refreshed, all else kept;
/// without one, `row` is added.
pub open spec fn upsert_post(before: Seq<GitHubPrLink>, after: Seq<GitHubPrLink>, row: GitHubPrLink) -> bool {
    if exists|i: int| 0 <= i < before.len() && pr_key_is(#[trigger] before[i], row.github_repo_id, row.pr_number) {
        &&& after.len() == before.len()
        &&& forall|i: int|
            0 <= i < before.len() ==> #[trigger] after[i] == if pr_key_is(
                before[i],
                row.github_repo_id,
                row.pr_number,
            ) {
                GitHubPrLink {
                    pr_title: row.pr_title,
                    pr_state: row.pr_state,
                    additions: row.additions,
                    deletions: row.deletions,
                    changed_files: row.changed_files,
                    updated_at: row.updated_at,
                    ..before[i]
                }
            } else {
                before[i]
            }
    } else {
        after == before.push(row)
    }
}

impl PrLinkTable {
    /// Inserts the link, or refreshes the one of its repository and number.
    pub fn upsert(&mut self, row: GitHubPrLink)
        requires
            old(self).wf(),
        ensures
            final(self).wf(),
            upsert_post(old(self).rows@, final(self).rows@, row),
    {
        match self.find(row.github_repo_id, row.pr_number) {
            None => {
                self.rows.push(row);
                assert(forall|j: int| 0 <= j < self.rows@.len() - 1 ==> #[trigger] self.rows@[j] == old(self).rows@[j]);
            },
            Some(i) => {
                let ghost before = self.rows@;
                let mut cur = self.rows.remove(i);
                cur.pr_title = row.pr_title;
                cur.pr_state = row.pr_state;
                cur.additions = row.additions;
                cur.deletions = row.deletions;
                cur.changed_files = row.changed_files;
                cur.updated_at = row.updated_at;
                self.rows.insert(i, cur);
                assert forall|j: int| 0 <= j < before.len() && j != i implies #[trigger] self.rows@[j]
                    == before[j] by {
                    if j < i {
                    } else {
                    }
                }
                assert forall|j: int| 0 <= j < before.len() && j != i implies !pr_key_is(
                    #[trigger] before[j],
                    row.github_repo_id,
                    row.pr_number,
                ) by {
                    if j < i {
                        assert(!pr_key_is(before[j], before[i as int].github_repo_id, before[i as int].pr_number));
                    } else {
                        assert(!pr_key_is(before[i as int], before[j].github_repo_id, before[j].pr_number));
                    }
                }
            },
        }
    }

    /// Records a review status on the link of a repository and number, if
    /// there is one.
    pub fn set_review_status(&mut self, repo_id: i64, pr_number: i32, status: ReviewStatus, now: u64)
        requires
            old(self).wf(),
        ensures
            final(self).wf(),
            final(self).rows@.len() == old(self).rows@.len(),
            forall|i: int|
                0 <= i < old(self).rows@.len() ==> #[trigger] final(self).rows@[i] == if pr_key_is(
                    old(self).rows@[i],
                    repo_id,
                    pr_number,
                ) {
                    GitHubPrLink { review_status: Some(status), updated_at: now, ..old(self).rows@[i] }
                } else {
                    old(self).rows@[i]
                },
    {
        match self.find(repo_id, pr_number) {
            None => {},
            Some(i) => {
                let ghost before = self.rows@;
                let mut cur = self.rows.remove(i);
                cur.review_status = Some(status);
                cur.updated_at = now;
                self.rows.insert(i, cur);
                assert forall|j: int| 0 <= j < before.len() && j != i implies #[trigger] self.rows@[j]
                    == before[j] by {
                    if j < i {
                    } else {
                    }
                }
                assert forall|j: int| 0 <= j < before.len() && j != i implies !pr_key_is(
                    #[trigger] before[j],
                    repo_id,
                    pr_number,
                ) by {
                    if j < i {
                        assert(!pr_key_is(before[j], before[i as int].github_repo_id, before[i as int].pr_number));
                    } else {
                        assert(!pr_key_is(before[i as int], before[j].github_repo_id, before[j].pr_number));
                    }
                }
            },
        }
    }
}

/// Upserting the same pull request twice leaves the table as the first
/// upsert left it, but for the update time of that pull request's row.
pub proof fn lemma_upsert_round_trip(
    t0: Seq<GitHubPrLink>,
    t1: Seq<GitHubPrLink>,
    t2: Seq<GitHubPrLink>,
    row1: GitHubPrLink,
    row2: GitHubPrLink,
)
    requires
        row2 == (GitHubPrLink { updated_at: row2.updated_at, ..row1 }),
        upsert_post(t0, t1, row1),
        upsert_post(t1, t2, row2),
    ensures
        t2.len() == t1.len(),
        forall|i: int|
            0 <= i < t1.len() ==> #[trigger] t2[i] == if pr_key_is(t1[i], row1.github_repo_id, row1.pr_number) {
                GitHubPrLink { updated_at: row2.updated_at, ..t1[i] }
            } else {
                t1[i]
            },
{
    let k = t0.len() as int;
    if !(exists|i: int| 0 <= i < t0.len() && pr_key_is(#[trigger] t0[i], row1.github_repo_id, row1.pr_number)) {
        assert(pr_key_is(t1[k], row1.github_repo_id, row1.pr_number));
    } else {
        let i = choose|i: int| 0 <= i < t0.len() && pr_key_is(#[trigger] t0[i], row1.github_repo_id, row1.pr_number);
        assert(pr_key_is(t1[i], row1.github_repo_id, row1.pr_number));
    }
    assert forall|i: int| 0 <= i < t1.len() implies #[trigger] t2[i] == if pr_key_is(
        t1[i],
        row1.github_repo_id,
        row1.pr_number,
    ) {
        GitHubPrLink { updated_at: row2.updated_at, ..t1[i] }
    } else {
        t1[i]
    } by {
        if pr_key_is(t1[i], row1.github_repo_id, row1.pr_number) {
            if i < k && !pr_key_is(t0[i], row1.github_repo_id, row1.pr_number) {
                assert(t1[i] == t0[i]);
            }
            assert(t1[i].pr_title == row1.pr_title);
        }
    }
}

/// A link between a work item and a commit. Commits do not change, so the
/// first link of a repository and SHA stays.
pub struct GitHubCommitLink {
    pub issue_id: u128,
    pub github_repo_id: i64,
    pub sha: String,
    pub message: String,
    pub author_login: Option<String>,
    pub author_email: Option<String>,
    /// The commit time, RFC 3339 text as the payload gives it.
    pub committed_at: String,
    pub url: String,
}

pub struct CommitLinkTable {
    pub rows: Vec<GitHubCommitLink>,
}

pub open spec fn commit_key_is(l: GitHubCommitLink, repo_id: i64, sha: Seq<char>) -> bool {
    l.github_repo_id == repo_id && l.sha@ == sha
}

/// What inserting `link` once does: added when no row has its repository
/// and SHA, else nothing.
pub open spec fn insert_once_post(
    before: Seq<GitHubCommitLink>,
    after: Seq<GitHubCommitLink>,
    link: GitHubCommitLink,
    r: bool,
) -> bool {
    &&& r == !exists|i: int|
        0 <= i < before.len() && commit_key_is(#[trigger] before[i], link.github_repo_id, link.sha@)
    &&& r ==> after == before.push(link)
    &&& !r ==> after == before
}

/// Recording the same commit twice leaves the links as the first record
/// left them.
pub proof fn lemma_commit_insert_idempotent(
    t0: Seq<GitHubCommitLink>,
    t1: Seq<GitHubCommitLink>,
    t2: Seq<GitHubCommitLink>,
    link: GitHubCommitLink,
    r1: bool,
    r2: bool,
)
    requires
        insert_once_post(t0, t1, link, r1),
        insert_once_post(t1, t2, link, r2),
    ensures
        !r2,
        t2 == t1,
{
    if r1 {
        assert(commit_key_is(t1[t0.len() as int], link.github_repo_id, link.sha@));
    } else {
        let i = choose|i: int|
            0 <= i < t0.len() && commit_key_is(#[trigger] t0[i], link.github_repo_id, link.sha@);
        assert(commit_key_is(t1[i], link.github_repo_id, link.sha@));
    }
}

impl CommitLinkTable {
    /// No two rows share a repository and SHA.
    pub open spec fn wf(&self) -> bool {
        forall|i: int, j: int|
            0 <= i < j < self.rows@.len() ==> !commit_key_is(
                #[trigger] self.rows@[i],
                #[trigger] self.rows@[j].github_repo_id,
                self.rows@[j].sha@,
            )
    }

    pub fn new() -> (r: CommitLinkTable)
        ensures
            r.wf(),
            r.rows@.len() == 0,
    {
        CommitLinkTable { rows: Vec::new() }
    }

    /// Adds the link unless one of its repository and SHA is there; returns
    /// whether it was added.
    pub fn insert_once(&mut self, link: GitHubCommitLink) -> (r: bool)
        requires
            old(self).wf(),
        ensures
            final(self).wf(),
            insert_once_post(old(self).rows@, final(self).rows@, link, r),
    {
        let mut i: usize = 0;
        while i < self.rows.len()
            invariant
                self.wf(),
                self.rows@ == old(self).rows@,
                i <= self.rows@.len(),
                forall|j: int|
                    0 <= j < i ==> !commit_key_is(#[trigger] self.rows@[j], link.github_repo_id, link.sha@),
            decreases self.rows@.len() - i,
        {
            if self.rows[i].github_repo_id == link.github_repo_id && self.rows[i].sha == link.sha {
                return false;
            }
            i = i + 1;
        }
        let ghost before = self.rows@;
        self.rows.push(link);
        assert forall|a: int, b: int| 0 <= a < b < self.rows@.len() implies !commit_key_is(
            #[trigger] self.rows@[a],
            #[trigger] self.rows@[b].github_repo_id,
            self.rows@[b].sha@,
        ) by {
            if b < before.len() {
                assert(self.rows@[a] == before[a] && self.rows@[b] == before[b]);
            }
        }
        true
    }
}

} // verus!
