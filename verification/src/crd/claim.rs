//! Cluster claims.

use vstd::prelude::*;

verus! {

/// A request for a cluster out of a profile's pool.
#[derive(Debug, Clone, PartialEq, Eq)]
pub struct ClusterClaimSpec {
    pub profile_ref: String,
    /// Requested time to live.
    pub ttl: String,
    pub requester: Requester,
    /// Higher values are served first.
    pub priority: u32,
}

/// Who asks.
#[derive(Debug, Clone, PartialEq, Eq)]
pub struct Requester {
    /// `provider:role`.
    pub requester_type: String,
    pub identity: String,
}

/// What became of a claim.
#[derive(Debug, Clone, PartialEq, Eq)]
pub struct ClusterClaimStatus {
    pub phase: ClaimPhase,
    pub cluster_name: Option<String>,
    pub bound_at: Option<String>,
    pub expires_at: Option<String>,
    /// Place in the queue; zero where not queued.
    pub queue_position: u32,
    pub diagnostics_url: Option<String>,
    pub extensions_count: u32,
    pub max_extensions: u32,
}

impl Default for ClusterClaimStatus {
    fn default() -> (status: Self)
        ensures
            status == (ClusterClaimStatus {
                phase: ClaimPhase::Pending,
                cluster_name: None,
                bound_at: None,
                expires_at: None,
                queue_position: 0,
                diagnostics_url: None,
                extensions_count: 0,
                max_extensions: 0,
            }),
    {
        ClusterClaimStatus {
            phase: ClaimPhase::Pending,
            cluster_name: None,
            bound_at: None,
            expires_at: None,
            queue_position: 0,
            diagnostics_url: None,
            extensions_count: 0,
            max_extensions: 0,
        }
    }
}

/// Claim lifecycle.
#[derive(Debug, Clone, Copy, PartialEq, Eq, Structural)]
pub enum ClaimPhase {
    /// Waiting for a warm cluster.
    Pending,
    /// Bound to a cluster.
    Bound,
    /// Released by the user.
    Released,
    /// Its time ran out.
    Expired,
    /// Its cluster is being replaced.
    Recycling,
}

impl Default for ClaimPhase {
    fn default() -> (phase: Self)
        ensures
            phase == ClaimPhase::Pending,
    {
        ClaimPhase::Pending
    }
}

impl ClaimPhase {
    /// The phase's name.
    pub open spec fn name_text(self) -> Seq<char> {
        match self {
            ClaimPhase::Pending => "Pending"@,
            ClaimPhase::Bound => "Bound"@,
            ClaimPhase::Released => "Released"@,
            ClaimPhase::Expired => "Expired"@,
            ClaimPhase::Recycling => "Recycling"@,
        }
    }

    /// The name under which the phase is shown.
    pub fn name(self) -> (name: &'static str)
        ensures
            name@ == self.name_text(),
    {
        match self {
            ClaimPhase::Pending => "Pending",
            ClaimPhase::Bound => "Bound",
            ClaimPhase::Released => "Released",
            ClaimPhase::Expired => "Expired",
            ClaimPhase::Recycling => "Recycling",
        }
    }
}

/// Priority of a claim that names none.
pub fn default_priority() -> (priority: u32)
    ensures
        priority == 50,
{
    50
}

} // verus!
