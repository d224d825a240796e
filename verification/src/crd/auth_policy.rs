//! OpenID Connect providers with role extraction and a policy for each role.

use crate::keyed;
use crate::text;
use vstd::prelude::*;

verus! {

/// One identity provider.
#[derive(Debug, Clone, PartialEq, Eq)]
pub struct AuthPolicySpec {
    /// Name of the provider, the first half of a requester's type.
    pub name: String,
    pub issuer: String,
    pub jwks_url: Option<String>,
    pub audience: Vec<String>,
    pub authorized_parties: Vec<String>,
    pub algorithms: Vec<String>,
    /// Template of the identity over the token's claims.
    pub identity_template: String,
    pub role_extraction: RoleExtractionConfig,
    /// The policy of each role.
    pub policies: Vec<(String, PolicySpec)>,
}

impl AuthPolicySpec {
    /// Whether each role, and each value of the claim that gives a role, is
    /// mapped once.
    pub open spec fn is_keyed(self) -> bool {
        &&& keyed::keys_are_distinct(
            self.policies@.map_values(|entry: (String, PolicySpec)| (entry.0@, entry.1)),
        )
        &&& self.role_extraction matches RoleExtractionConfig::Mapping { values, .. }
            ==> keyed::keys_are_distinct(text::pair_texts(values@))
    }
}

/// How a role is read from a token's claims.
#[derive(Debug, Clone, PartialEq, Eq)]
pub enum RoleExtractionConfig {
    /// Every token has the same role.
    Static { role: String },
    /// The claim's value is the role.
    Claim { claim: String, default: Option<String> },
    /// The claim's value is looked up.
    Mapping { claim: String, values: Vec<(String, String)>, default: Option<String> },
    /// The first rule that matches gives the role.
    Conditional { rules: Vec<ConditionalRule>, default: Option<String> },
}

/// A role for tokens whose claim has a certain value.
#[derive(Debug, Clone, PartialEq, Eq)]
pub struct ConditionalRule {
    pub claim: String,
    pub value: String,
    pub role: String,
}

/// What a role may do.
#[derive(Debug, Clone, PartialEq, Eq)]
pub struct PolicySpec {
    /// Profile name patterns.
    pub allowed_profiles: Vec<String>,
    pub max_ttl: String,
    pub max_concurrent_claims: u32,
    pub default_priority: u32,
    pub max_extensions: u32,
}

/// Signing algorithms of a provider that names none.
pub fn default_algorithms() -> (algorithms: Vec<String>)
    ensures
        text::texts(algorithms@) == seq!["RS256"@],
{
    let algorithms = vec!["RS256".to_owned()];
    assert(text::texts(algorithms@) =~= seq!["RS256"@]);
    algorithms
}

/// Identity template of a provider that names none: the subject claim.
pub fn default_identity_template() -> (template: String)
    ensures
        template@ == "{sub}"@,
{
    "{sub}".to_owned()
}

/// Priority of a role's claims where none is named.
pub fn default_priority() -> (priority: u32)
    ensures
        priority == 50,
{
    50
}

/// Extensions of a role's claims where no number is named.
pub fn default_max_extensions() -> (count: u32)
    ensures
        count == 2,
{
    2
}

} // verus!
