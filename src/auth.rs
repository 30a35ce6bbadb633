//! Identity types of the authentication layer, and the label by which a
//! signed-in user is recorded as the author of what they create.
use vstd::prelude::*;
use crate::text::{trim, trim_spec};

verus! {

/// One key of the identity provider's JWKS document.
pub struct JwkKey {
    pub kid: String,
    pub kty: String,
    pub n: String,
    pub e: String,
    pub alg: Option<String>,
}

/// The identity provider's JWKS document.
pub struct JwkSet {
    pub keys: Vec<JwkKey>,
}

/// The organisation claim of a session token.
pub struct OrgClaim {
    pub id: String,
    pub slg: Option<String>,
    pub rol: Option<String>,
    pub per: Option<Vec<String>>,
}

/// The claims of a session token.
pub struct ClerkClaims {
    pub sub: String,
    pub v: Option<u8>,
    pub o: Option<OrgClaim>,
    pub org_id: Option<String>,
    pub org_slug: Option<String>,
    pub org_role: Option<String>,
    pub email: Option<String>,
    pub first_name: Option<String>,
    pub last_name: Option<String>,
    pub username: Option<String>,
    /// The authorised party (the frontend's origin).
    pub azp: Option<String>,
    /// The session status; `pending` before the user has joined an
    /// organisation.
    pub sts: Option<String>,
}

/// The signed-in user of a request.
pub struct AuthUser {
    pub user_id: String,
    pub org_id: Option<String>,
    pub org_slug: Option<String>,
    pub org_role: Option<String>,
    pub email: Option<String>,
    pub display_name: Option<String>,
}

/// The label of a user: the trimmed display name when it is not blank, else
/// the trimmed email when it is not blank, else none.
pub open spec fn label_of(display_name: Option<String>, email: Option<String>) -> Option<Seq<char>> {
    if display_name matches Some(n) && trim_spec(n@).len() > 0 {
        Some(trim_spec(display_name->Some_0@))
    } else if email matches Some(e) && trim_spec(e@).len() > 0 {
        Some(trim_spec(email->Some_0@))
    } else {
        None
    }
}

impl AuthUser {
    pub fn created_by_label(&self) -> (r: Option<String>)
        ensures
            crate::status::opt_string_view(r) == label_of(self.display_name, self.email),
    {
        if let Some(name) = &self.display_name {
            let t = trim(name.as_str());
            if t.as_str().unicode_len() > 0 {
                return Some(t);
            }
        }
        if let Some(email) = &self.email {
            let t = trim(email.as_str());
            if t.as_str().unicode_len() > 0 {
                return Some(t);
            }
        }
        None
    }
}

} // verus!
