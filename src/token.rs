//! The installation token manager: the GitHub App's credentials, the claims
//! of the App's JWT, and the per-process cache of installation tokens.
//! Times are Unix seconds.
use vstd::prelude::*;
use std::collections::HashMap;
use base64::Engine;

verus! {

/// How far the JWT's issue time is set back, against clock drift.
pub const JWT_BACKDATE_SECS: i64 = 60;

/// How long the JWT is valid; GitHub accepts at most ten minutes.
pub const JWT_LIFETIME_SECS: i64 = 540;

/// A cached token is reused only with more than this much validity left.
pub const TOKEN_MIN_VALIDITY_SECS: i64 = 300;

/// The validity assumed for a token whose expiry cannot be read.
pub const TOKEN_FALLBACK_SECS: i64 = 3300;

/// Whether the bytes are an RSA private key in PEM form.
pub uninterp spec fn rsa_pem_parses(pem: Seq<u8>) -> bool;

/// The Unix time of an RFC 3339 timestamp, if the text is one.
pub uninterp spec fn rfc3339_seconds(s: Seq<char>) -> Option<i64>;

/// Relies on `jsonwebtoken::EncodingKey::from_rsa_pem`: succeeds exactly
/// when the bytes parse as an RSA private key in PEM form.
#[verifier::external_body]
fn rsa_pem_is_valid(pem: &[u8]) -> (r: bool)
    ensures
        r == rsa_pem_parses(pem@),
{
    jsonwebtoken::EncodingKey::from_rsa_pem(pem).is_ok()
}

/// The bytes that a text in standard, padded base64 encodes, if it is such
/// a text.
pub uninterp spec fn base64_decoded(s: Seq<char>) -> Option<Seq<u8>>;

/// Relies on `base64::engine::general_purpose::STANDARD.decode`.
#[verifier::external_body]
fn base64_decode(s: &str) -> (r: Option<Vec<u8>>)
    ensures
        r matches Some(v) ==> base64_decoded(s@) == Some(v@),
        r is None ==> base64_decoded(s@) is None,
{
    base64::engine::general_purpose::STANDARD.decode(s).ok()
}

/// Relies on `chrono::DateTime::parse_from_rfc3339` and `timestamp`.
#[verifier::external_body]
fn parse_rfc3339(s: &str) -> (r: Option<i64>)
    ensures
        r == rfc3339_seconds(s@),
{
    chrono::DateTime::parse_from_rfc3339(s).map(|dt| dt.timestamp()).ok()
}

#[derive(Clone, Copy, Debug, PartialEq, Eq, Structural)]
pub enum ConfigError {
    /// The configured private key is not base64 text.
    KeyNotBase64,
    /// The App's private key is not an RSA key in PEM form.
    InvalidPrivateKey,
}

/// The GitHub App's identity: its id and private key.
pub struct GitHubClient {
    pub app_id: u64,
    pub private_key_pem: Vec<u8>,
}

/// The claims of the App's JWT.
pub struct AppJwtClaims {
    pub iat: i64,
    pub exp: i64,
    pub iss: String,
}

/// The decimal digits of `n`.
pub open spec fn decimal_of(n: nat) -> Seq<char>
    decreases n,
{
    if n < 10 {
        seq![((n + 48) as u8) as char]
    } else {
        decimal_of(n / 10).push((((n % 10) + 48) as u8) as char)
    }
}

fn push_decimal(out: &mut Vec<char>, n: u64)
    ensures
        final(out)@ == old(out)@ + decimal_of(n as nat),
    decreases n,
{
    if n >= 10 {
        push_decimal(out, n / 10);
    }
    out.push(((n % 10) as u8 + 48) as char);
    assert(final(out)@ =~= old(out)@ + decimal_of(n as nat));
}

impl GitHubClient {
    /// A client for the App, once its key is known to parse, so that a bad
    /// key fails at startup.
    pub fn new(app_id: u64, private_key_pem: Vec<u8>) -> (r: Result<GitHubClient, ConfigError>)
        ensures
            r is Ok <==> rsa_pem_parses(private_key_pem@),
            r matches Ok(c) ==> c.app_id == app_id && c.private_key_pem@ == private_key_pem@,
            r matches Err(e) ==> e == ConfigError::InvalidPrivateKey,
    {
        if rsa_pem_is_valid(private_key_pem.as_slice()) {
            Ok(GitHubClient { app_id, private_key_pem })
        } else {
            Err(ConfigError::InvalidPrivateKey)
        }
    }

    /// A client from the App id and the configured private key, PEM in
    /// base64, surrounding whitespace ignored.
    pub fn from_key_base64(app_id: u64, key_base64: &str) -> (r: Result<GitHubClient, ConfigError>)
        ensures
            r matches Err(e) ==> (e == ConfigError::KeyNotBase64) == (base64_decoded(
                crate::text::trim_spec(key_base64@),
            ) is None),
            r matches Ok(c) ==> c.app_id == app_id && base64_decoded(
                crate::text::trim_spec(key_base64@),
            ) == Some(c.private_key_pem@) && rsa_pem_parses(c.private_key_pem@),
            base64_decoded(crate::text::trim_spec(key_base64@)) matches Some(pem) ==> (r is Ok
                <==> rsa_pem_parses(pem)),
    {
        let trimmed = crate::text::trim(key_base64);
        match base64_decode(trimmed.as_str()) {
            None => Err(ConfigError::KeyNotBase64),
            Some(pem) => GitHubClient::new(app_id, pem),
        }
    }

    /// The GitHub App id.
    pub fn app_id(&self) -> (r: u64)
        ensures
            r == self.app_id,
    {
        self.app_id
    }

    /// The claims of a JWT issued at `now`: issued a minute back, expiring
    /// nine minutes ahead, issued by the App id in decimal.
    pub fn app_jwt_claims(&self, now: i64) -> (r: AppJwtClaims)
        requires
            i64::MIN + JWT_BACKDATE_SECS <= now <= i64::MAX - JWT_LIFETIME_SECS,
        ensures
            r.iat == now - JWT_BACKDATE_SECS,
            r.exp == now + JWT_LIFETIME_SECS,
            r.iss@ == decimal_of(self.app_id as nat),
    {
        let mut digits: Vec<char> = Vec::new();
        push_decimal(&mut digits, self.app_id);
        assert(digits@ =~= decimal_of(self.app_id as nat));
        AppJwtClaims {
            iat: now - JWT_BACKDATE_SECS,
            exp: now + JWT_LIFETIME_SECS,
            iss: crate::text::string_of(&digits),
        }
    }
}

/// The expiry of a freshly issued installation token: the one the provider
/// stated, or `TOKEN_FALLBACK_SECS` after `now` when it is absent or does not
/// parse.
pub open spec fn token_expiry_of(expires_at: Option<Seq<char>>, now: i64) -> int {
    match expires_at {
        Some(s) => match rfc3339_seconds(s) {
            Some(t) => t as int,
            None => now + TOKEN_FALLBACK_SECS,
        },
        None => now + TOKEN_FALLBACK_SECS,
    }
}

pub fn token_expiry(expires_at: Option<&str>, now: i64) -> (r: i64)
    requires
        now <= i64::MAX - TOKEN_FALLBACK_SECS,
    ensures
        r == token_expiry_of(crate::receiver::opt_view(expires_at), now),
{
    match expires_at {
        Some(s) => match parse_rfc3339(s) {
            Some(t) => t,
            None => now + TOKEN_FALLBACK_SECS,
        },
        None => now + TOKEN_FALLBACK_SECS,
    }
}

/// An installation token and its expiry.
pub struct CachedToken {
    pub token: String,
    pub expires_at: i64,
}

/// A token may still be used at `now`: more than `TOKEN_MIN_VALIDITY_SECS`
/// of validity remain.
pub open spec fn still_fresh(t: CachedToken, now: i64) -> bool {
    t.expires_at > now + TOKEN_MIN_VALIDITY_SECS
}

/// Installation tokens by installation id, kept for the life of the process.
pub struct TokenCache {
    pub tokens: HashMap<u64, CachedToken>,
}

impl TokenCache {
    pub fn new() -> (r: TokenCache)
        ensures
            r.tokens@ == Map::<u64, CachedToken>::empty(),
    {
        TokenCache { tokens: HashMap::new() }
    }

    /// The cached token of an installation, when there is one that is still
    /// fresh at `now`.
    pub fn fresh_token(&self, installation_id: u64, now: i64) -> (r: Option<String>)
        requires
            now <= i64::MAX - TOKEN_MIN_VALIDITY_SECS,
        ensures
            r matches Some(t) ==> self.tokens@.contains_key(installation_id) && still_fresh(
                self.tokens@[installation_id],
                now,
            ) && t@ == self.tokens@[installation_id].token@,
            r is None ==> !self.tokens@.contains_key(installation_id) || !still_fresh(
                self.tokens@[installation_id],
                now,
            ),
    {
        broadcast use vstd::std_specs::hash::group_hash_axioms;

        match self.tokens.get(&installation_id) {
            Some(c) => {
                if c.expires_at > now + TOKEN_MIN_VALIDITY_SECS {
                    Some(c.token.clone())
                } else {
                    None
                }
            },
            None => None,
        }
    }

    /// Caches a token for an installation, replacing any earlier one.
    pub fn store(&mut self, installation_id: u64, token: String, expires_at: i64)
        ensures
            final(self).tokens@ == old(self).tokens@.insert(
                installation_id,
                CachedToken { token, expires_at },
            ),
    {
        broadcast use vstd::std_specs::hash::group_hash_axioms;

        self.tokens.insert(installation_id, CachedToken { token, expires_at });
    }
}

} // verus!
