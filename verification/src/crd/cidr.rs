//! Address ranges claimed by guest clusters.

use vstd::prelude::*;

verus! {

/// A request for a slice of the operator's address space.
#[derive(Debug, Clone, PartialEq, Eq)]
pub struct CIDRClaimSpec {
    /// Service range to bind exactly.
    pub requested_service_cidr: Option<String>,
    /// Cluster range to bind exactly.
    pub requested_cluster_cidr: Option<String>,
}

/// What was allocated to a claim.
#[derive(Debug, Clone, PartialEq, Eq)]
pub struct CIDRClaimStatus {
    pub phase: CIDRClaimPhase,
    pub service_cidr: Option<String>,
    pub cluster_cidr: Option<String>,
    pub bound_at: Option<String>,
    pub message: Option<String>,
}

impl Default for CIDRClaimStatus {
    fn default() -> (status: Self)
        ensures
            status == (CIDRClaimStatus {
                phase: CIDRClaimPhase::Pending,
                service_cidr: None,
                cluster_cidr: None,
                bound_at: None,
                message: None,
            }),
    {
        CIDRClaimStatus {
            phase: CIDRClaimPhase::Pending,
            service_cidr: None,
            cluster_cidr: None,
            bound_at: None,
            message: None,
        }
    }
}

/// Where a claim is.
#[derive(Debug, Clone, Copy, PartialEq, Eq, Structural)]
pub enum CIDRClaimPhase {
    /// Not reconciled yet.
    Pending,
    /// Allocated: both ranges are set.
    Bound,
    /// The request cannot be met.
    Conflict,
}

impl Default for CIDRClaimPhase {
    fn default() -> (phase: Self)
        ensures
            phase == CIDRClaimPhase::Pending,
    {
        CIDRClaimPhase::Pending
    }
}

/// The address plan that claims are served from.
#[derive(Debug, Clone, PartialEq, Eq)]
pub struct CIDRPoolSpec {
    /// Parent range of service ranges.
    pub service_cidr: String,
    /// Prefix length of one service range.
    pub service_slot_prefix: u8,
    /// Parent range of cluster ranges.
    pub cluster_cidr: String,
    /// Prefix length of one cluster range.
    pub cluster_slot_prefix: u8,
}

/// Whether a plan is in effect.
#[derive(Debug, Clone, PartialEq, Eq)]
pub struct CIDRPoolStatus {
    pub phase: CIDRPoolPhase,
    /// Slots that the plan yields.
    pub capacity: Option<u32>,
    pub message: Option<String>,
}

impl Default for CIDRPoolStatus {
    fn default() -> (status: Self)
        ensures
            status == (CIDRPoolStatus {
                phase: CIDRPoolPhase::Pending,
                capacity: None,
                message: None,
            }),
    {
        CIDRPoolStatus { phase: CIDRPoolPhase::Pending, capacity: None, message: None }
    }
}

/// Where an address plan is.
#[derive(Debug, Clone, Copy, PartialEq, Eq, Structural)]
pub enum CIDRPoolPhase {
    /// Not evaluated yet.
    Pending,
    /// The plan in effect.
    Active,
    /// Rejected; the built-in plan is in effect.
    Invalid,
}

impl Default for CIDRPoolPhase {
    fn default() -> (phase: Self)
        ensures
            phase == CIDRPoolPhase::Pending,
    {
        CIDRPoolPhase::Pending
    }
}

} // verus!
