//! The status mapper: moves a work item to the status that a repository's
//! mapping assigns to a GitHub event, unless the anti-echo lock is held.
use vstd::prelude::*;

verus! {

/// How long a status written from GitHub locks the item against the next
/// write from GitHub, in milliseconds.
pub const ANTI_ECHO_MS: u64 = 5000;

/// The event tags that a status mapping is keyed by.
#[derive(Clone, Copy, Debug, PartialEq, Eq, Structural)]
pub enum MappingKey {
    PrOpened,
    PrMerged,
    PrClosed,
    IssueOpened,
    IssueClosed,
}

impl MappingKey {
    /// The tag as it is written in a status mapping.
    pub fn as_str(&self) -> (r: &'static str)
        ensures
            r@ == self.name(),
    {
        match self {
            MappingKey::PrOpened => "pr_opened",
            MappingKey::PrMerged => "pr_merged",
            MappingKey::PrClosed => "pr_closed",
            MappingKey::IssueOpened => "issue_opened",
            MappingKey::IssueClosed => "issue_closed",
        }
    }

    pub open spec fn name(&self) -> Seq<char> {
        match self {
            MappingKey::PrOpened => "pr_opened"@,
            MappingKey::PrMerged => "pr_merged"@,
            MappingKey::PrClosed => "pr_closed"@,
            MappingKey::IssueOpened => "issue_opened"@,
            MappingKey::IssueClosed => "issue_closed"@,
        }
    }
}

/// A repository mapping's status mapping: each event tag with its target
/// status, or `None` where the tag maps to null (or to anything but a
/// string), which leaves the status alone.
pub struct StatusMapping {
    pub entries: Vec<(String, Option<String>)>,
}

pub open spec fn opt_string_view(o: Option<String>) -> Option<Seq<char>> {
    match o {
        Some(s) => Some(s@),
        None => None,
    }
}

/// The target status of tag `key`: that of its first entry; `None` when the
/// tag is absent or maps to no status.
pub open spec fn target_of(entries: Seq<(String, Option<String>)>, key: Seq<char>) -> Option<
    Seq<char>,
>
    decreases entries.len(),
{
    if entries.len() == 0 {
        None
    } else if entries[0].0@ == key {
        opt_string_view(entries[0].1)
    } else {
        target_of(entries.drop_first(), key)
    }
}

/// The status that tag `key` maps to, if any.
pub fn status_target(mapping: &StatusMapping, key: &str) -> (r: Option<String>)
    ensures
        opt_string_view(r) == target_of(mapping.entries@, key@),
{
    let k = key.to_owned();
    let n = mapping.entries.len();
    let mut i: usize = 0;
    assert(mapping.entries@.subrange(0, n as int) =~= mapping.entries@);
    while i < n
        invariant
            n == mapping.entries@.len(),
            i <= n,
            k@ == key@,
            target_of(mapping.entries@, key@) == target_of(
                mapping.entries@.subrange(i as int, n as int),
                key@,
            ),
        decreases n - i,
    {
        let ghost rest = mapping.entries@.subrange(i as int, n as int);
        assert(rest.drop_first() =~= mapping.entries@.subrange(i + 1, n as int));
        assert(rest[0] == mapping.entries@[i as int]);
        if mapping.entries[i].0 == k {
            return mapping.entries[i].1.clone();
        }
        i = i + 1;
    }
    None
}

/// The synchronisation fields of a work item.
pub struct WorkItem {
    pub id: u128,
    pub status: String,
    pub sync_source: Option<String>,
    pub sync_lock_until: Option<u64>,
    pub updated_at: u64,
}

/// The item's anti-echo lock is not held at `now`.
pub open spec fn lock_free(item: WorkItem, now: u64) -> bool {
    match item.sync_lock_until {
        None => true,
        Some(t) => t < now,
    }
}

#[derive(Clone, Copy, Debug, PartialEq, Eq, Structural)]
pub enum StatusOutcome {
    /// The tag maps to no status: nothing to do.
    Unmapped,
    /// The anti-echo lock is held: nothing was written.
    Locked,
    /// The status was written and the lock taken.
    Applied,
}

pub open spec fn github_source() -> Seq<char> {
    "github"@
}

/// What applying tag `key` at `now` does to an item.
pub open spec fn apply_post(
    before: WorkItem,
    after: WorkItem,
    entries: Seq<(String, Option<String>)>,
    key: Seq<char>,
    now: u64,
    r: StatusOutcome,
) -> bool {
    match target_of(entries, key) {
        None => r == StatusOutcome::Unmapped && after == before,
        Some(t) => if lock_free(before, now) {
            &&& r == StatusOutcome::Applied
            &&& after.id == before.id
            &&& after.status@ == t
            &&& opt_string_view(after.sync_source) == Some(github_source())
            &&& after.sync_lock_until == Some((now + ANTI_ECHO_MS) as u64)
            &&& after.updated_at == now
        } else {
            r == StatusOutcome::Locked && after == before
        },
    }
}

/// Applies the status that tag `key` maps to, at time `now` in milliseconds:
/// when the item's lock is free, writes the status with GitHub as its source
/// and locks the item for `ANTI_ECHO_MS`; when the lock is held, or the tag
/// maps to no status, leaves the item alone.
pub fn apply_status_mapping(item: &mut WorkItem, mapping: &StatusMapping, key: &str, now: u64) -> (r:
    StatusOutcome)
    requires
        now <= u64::MAX - ANTI_ECHO_MS,
    ensures
        apply_post(*old(item), *final(item), mapping.entries@, key@, now, r),
{
    match status_target(mapping, key) {
        None => StatusOutcome::Unmapped,
        Some(t) => {
            let free = match item.sync_lock_until {
                None => true,
                Some(until) => until < now,
            };
            if free {
                item.status = t;
                item.sync_source = Some("github".to_owned());
                item.sync_lock_until = Some(now + ANTI_ECHO_MS);
                item.updated_at = now;
                StatusOutcome::Applied
            } else {
                StatusOutcome::Locked
            }
        },
    }
}

/// Two applications of a mapped tag to one item less than `ANTI_ECHO_MS`
/// apart change its status once: the first writes, the second finds the lock
/// held and leaves the item as the first left it.
pub proof fn lemma_anti_echo(
    i0: WorkItem,
    i1: WorkItem,
    i2: WorkItem,
    entries: Seq<(String, Option<String>)>,
    key: Seq<char>,
    t1: u64,
    t2: u64,
    r1: StatusOutcome,
    r2: StatusOutcome,
)
    requires
        target_of(entries, key) is Some,
        lock_free(i0, t1),
        t1 <= t2,
        t2 < t1 + ANTI_ECHO_MS,
        t1 <= u64::MAX - ANTI_ECHO_MS,
        apply_post(i0, i1, entries, key, t1, r1),
        apply_post(i1, i2, entries, key, t2, r2),
    ensures
        r1 == StatusOutcome::Applied,
        r2 == StatusOutcome::Locked,
        i2 == i1,
{
}

} // verus!
