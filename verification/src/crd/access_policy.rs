//! Authentication and authorization of lease requests.

use crate::text;
use vstd::prelude::*;

verus! {

/// One authentication method with its authorization rules.
#[derive(Debug, Clone, PartialEq, Eq)]
pub struct AccessPolicySpec {
    pub auth: AuthMethod,
    /// Identity template over the token's claims.
    pub identity: String,
    /// The first matching rule decides.
    pub rules: Vec<AccessRule>,
}

/// The authentication method; exactly one field should be set.
#[derive(Debug, Clone, PartialEq, Eq)]
pub struct AuthMethod {
    pub oidc: Option<OidcAuth>,
    pub token: Option<TokenAuth>,
    pub service_account: Option<ServiceAccountAuth>,
    pub ssh: Option<SshAuth>,
}

/// Validation of tokens from an OpenID Connect provider.
#[derive(Debug, Clone, PartialEq, Eq)]
pub struct OidcAuth {
    pub issuer: String,
    /// Where signing keys are fetched.
    pub jwks_url: Option<String>,
    /// Expected audiences; no check where empty.
    pub audience: Vec<String>,
    /// Expected authorized parties; no check where empty.
    pub authorized_parties: Vec<String>,
    /// Accepted signing algorithms.
    pub algorithms: Vec<String>,
    /// Client that interactive logins use.
    pub client_id: Option<String>,
}

/// A static bearer token held in a Secret.
#[derive(Debug, Clone, PartialEq, Eq)]
pub struct TokenAuth {
    pub secret_ref: String,
}

/// Ed25519 public keys.
#[derive(Debug, Clone, PartialEq, Eq)]
pub struct SshAuth {
    pub authorized_keys: Vec<String>,
    /// Keys that are refused although authorized.
    pub revoked_keys: Vec<String>,
}

/// A Kubernetes service account.
#[derive(Debug, Clone, PartialEq, Eq)]
pub struct ServiceAccountAuth {
    pub name: String,
    pub namespace: String,
}

/// What an authenticated caller may do.
#[derive(Debug, Clone, PartialEq, Eq)]
pub struct AccessRule {
    /// The rule applies only where this claim matches.
    pub match_clause: Option<ClaimMatch>,
    /// Pool name patterns.
    pub pools: Vec<String>,
    pub max_ttl: String,
    pub max_concurrent_leases: u32,
    pub max_extensions: u32,
}

/// A claim and the value it must have.
#[derive(Debug, Clone, PartialEq, Eq)]
pub struct ClaimMatch {
    pub claim: String,
    pub value: String,
}

/// Identity template of a policy that names none: the subject claim.
pub fn default_identity() -> (template: String)
    ensures
        template@ == "{sub}"@,
{
    "{sub}".to_owned()
}

/// Signing algorithms of a provider that names none.
pub fn default_algorithms() -> (algorithms: Vec<String>)
    ensures
        text::texts(algorithms@) == seq!["RS256"@],
{
    let algorithms = vec!["RS256".to_owned()];
    assert(text::texts(algorithms@) =~= seq!["RS256"@]);
    algorithms
}

/// Extensions of a lease under a rule that names no number.
pub fn default_max_extensions() -> (count: u32)
    ensures
        count == 2,
{
    2
}

} // verus!
