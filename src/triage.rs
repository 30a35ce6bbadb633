//! Classification of work items by their free-text priority and status, as
//! the project review ranks them.
use vstd::prelude::*;
use crate::text::{lowercase_of, same_text, to_lowercase, trim, trim_spec};

verus! {

/// A value compared without surrounding whitespace and without case.
pub open spec fn normalized(value: Seq<char>) -> Seq<char> {
    lowercase_of(trim_spec(value))
}

pub fn normalize(value: &str) -> (r: String)
    ensures
        r@ == normalized(value@),
{
    let t = trim(value);
    to_lowercase(t.as_str())
}

/// The rank of an already normalised priority.
pub open spec fn rank_of(n: Seq<char>) -> i32 {
    if n == "urgent"@ {
        0
    } else if n == "high"@ {
        1
    } else if n == "medium"@ {
        2
    } else if n == "low"@ {
        3
    } else {
        4
    }
}

pub open spec fn priority_rank_of(priority: Option<Seq<char>>) -> i32 {
    match priority {
        Some(p) => rank_of(normalized(p)),
        None => 4,
    }
}

/// The rank of a normalised priority: urgent 0, high 1, medium 2, low 3,
/// anything else 4.
pub fn rank_normalized(n: &str) -> (r: i32)
    ensures
        r == rank_of(n@),
{
    if same_text(n, "urgent") {
        0
    } else if same_text(n, "high") {
        1
    } else if same_text(n, "medium") {
        2
    } else if same_text(n, "low") {
        3
    } else {
        4
    }
}

/// The rank of a priority, most pressing first: urgent, high, medium, low,
/// then anything else or none.
pub fn priority_rank(priority: Option<&str>) -> (r: i32)
    ensures
        r == priority_rank_of(crate::receiver::opt_view(priority)),
{
    match priority {
        Some(p) => {
            let n = normalize(p);
            rank_normalized(n.as_str())
        },
        None => 4,
    }
}

/// A normalised status of work under way: in progress or in review.
pub fn active_normalized(n: &str) -> (r: bool)
    ensures
        r == (n@ == "in_progress"@ || n@ == "in_review"@),
{
    same_text(n, "in_progress") || same_text(n, "in_review")
}

/// A normalised status of work not started: todo or backlog.
pub fn backlog_normalized(n: &str) -> (r: bool)
    ensures
        r == (n@ == "todo"@ || n@ == "backlog"@),
{
    same_text(n, "todo") || same_text(n, "backlog")
}

/// Work under way: in progress or in review.
pub fn is_active_status(status: &str) -> (r: bool)
    ensures
        r == (normalized(status@) == "in_progress"@ || normalized(status@) == "in_review"@),
{
    let n = normalize(status);
    active_normalized(n.as_str())
}

/// Work not started: todo or backlog.
pub fn is_backlog_status(status: &str) -> (r: bool)
    ensures
        r == (normalized(status@) == "todo"@ || normalized(status@) == "backlog"@),
{
    let n = normalize(status);
    backlog_normalized(n.as_str())
}

} // verus!
