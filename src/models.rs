//! Request and response bodies of the tracker's API that the GitHub
//! integration and its neighbours exchange.
use vstd::prelude::*;
use crate::text::{strip_prefix, strip_prefix_spec};

verus! {

/// The query of the GitHub App's installation callback. `state` carries the
/// organisation id through the round trip.
pub struct CallbackParams {
    pub installation_id: Option<i64>,
    pub setup_action: Option<String>,
    pub state: Option<String>,
}

/// The body of an API error.
pub struct ApiErrorBody {
    pub code: String,
    pub message: String,
}

pub struct ApiError {
    pub error: ApiErrorBody,
}

pub struct CreateProject {
    pub name: String,
    pub slug: String,
    pub description: Option<String>,
    pub prefix: String,
    pub auto_assign_mode: Option<String>,
    pub default_assignee_id: Option<String>,
}

pub struct CreateProjectTag {
    pub name: String,
    pub color: Option<String>,
}

pub struct CreateComment {
    pub author_id: String,
    pub author_name: String,
    pub body: String,
}

/// A summary that an agent leaves on a work item.
pub struct CreateTldr {
    pub agent_name: String,
    pub summary: String,
    pub files_changed: Option<Vec<String>>,
    pub tests_status: Option<String>,
    pub pr_url: Option<String>,
}

pub struct CreateApiKeyRequest {
    pub name: String,
    pub permissions: Vec<String>,
}

/// The permissions of an API key created without any: read and write.
pub fn default_permissions() -> (r: Vec<String>)
    ensures
        r@.len() == 2,
        r@[0]@ == "read"@,
        r@[1]@ == "write"@,
{
    let mut v: Vec<String> = Vec::new();
    v.push("read".to_owned());
    v.push("write".to_owned());
    v
}

pub struct InviteRequest {
    pub email_address: String,
    pub role: Option<String>,
}

pub struct InviteResponse {
    pub id: String,
    pub email_address: String,
    pub status: String,
    pub role: Option<String>,
    pub url: Option<String>,
    /// The short link of the invitation.
    pub short_url: Option<String>,
}

/// The short code of an invitation: the first eight characters of its id
/// after the `orginv_` prefix (or of the whole id without it).
pub open spec fn short_code_of(invite_id: Seq<char>) -> Seq<char> {
    let id = match strip_prefix_spec(invite_id, "orginv_"@) {
        Some(rest) => rest,
        None => invite_id,
    };
    if id.len() > 8 {
        id.take(8)
    } else {
        id
    }
}

pub fn make_short_code(invite_id: &str) -> (r: String)
    ensures
        r@ == short_code_of(invite_id@),
{
    let id = match strip_prefix(invite_id, "orginv_") {
        Some(rest) => rest,
        None => crate::text::chars_of(invite_id),
    };
    let mut out: Vec<char> = Vec::new();
    let mut k: usize = 0;
    while k < id.len() && k < 8
        invariant
            k <= id@.len(),
            k <= 8,
            out@ == id@.take(k as int),
        decreases 8 - k,
    {
        out.push(id[k]);
        k = k + 1;
        assert(out@ =~= id@.take(k as int));
    }
    assert(id@.len() <= 8 ==> id@.take(id@.len() as int) =~= id@);
    crate::text::string_of(&out)
}

} // verus!
