//! Cluster instances: the inventory record of one provisioned cluster.

use crate::crd::profile::{
    Addon, BackendConfig, BackendType, BootstrapRef, ClusterConfig, HealthCheckConfig,
    ReadinessGate, SnapshotConfig,
};
use crate::text::{self, same_opt_text, same_text};
use vstd::prelude::*;

verus! {

/// Reference to another resource in the same namespace. The UID, where it is
/// known, tells a resource from a later one of the same name.
#[derive(Debug, Clone, PartialEq, Eq)]
pub struct ResourceRef {
    pub name: String,
    pub uid: Option<String>,
}

impl View for ResourceRef {
    type V = (Seq<char>, Option<Seq<char>>);

    open spec fn view(&self) -> (Seq<char>, Option<Seq<char>>) {
        (self.name@, text::opt_text(self.uid))
    }
}

impl ResourceRef {
    /// Whether both name the same resource.
    pub fn same(&self, other: &ResourceRef) -> (result: bool)
        ensures
            result == (self@ == other@),
    {
        same_text(self.name.as_str(), other.name.as_str()) && same_opt_text(&self.uid, &other.uid)
    }
}

/// One provisioned cluster, of a pool or on its own.
#[derive(Debug, Clone, PartialEq, Eq)]
pub struct ClusterInstanceSpec {
    /// The owning pool; absent where the instance stands alone.
    pub pool_ref: Option<ResourceRef>,
    pub backend: Option<BackendConfig>,
    pub cluster: Option<ClusterConfig>,
    pub addons: Vec<Addon>,
    pub bootstraps: Vec<BootstrapRef>,
    pub health_check: Option<HealthCheckConfig>,
    pub readiness_gates: Vec<ReadinessGate>,
    pub snapshot: Option<SnapshotConfig>,
}

/// Where an instance is.
#[derive(Debug, Clone, Copy, PartialEq, Eq, Structural)]
pub enum ClusterInstancePhase {
    Creating,
    Ready,
    Leased,
    Recycling,
    Unhealthy,
    Failed,
}

impl Default for ClusterInstancePhase {
    fn default() -> (phase: Self)
        ensures
            phase == ClusterInstancePhase::Creating,
    {
        ClusterInstancePhase::Creating
    }
}

/// Network ranges reserved for one instance.
#[derive(Debug, Clone, PartialEq, Eq)]
pub struct ClusterInstanceNetwork {
    /// Range of in-cluster Service addresses.
    pub service_cidr: String,
    /// Range of in-cluster pod addresses.
    pub cluster_cidr: String,
}

impl Default for ClusterInstanceNetwork {
    fn default() -> (network: Self)
        ensures
            network.service_cidr@ == Seq::<char>::empty(),
            network.cluster_cidr@ == Seq::<char>::empty(),
    {
        ClusterInstanceNetwork { service_cidr: String::new(), cluster_cidr: String::new() }
    }
}

/// Runtime status of an instance.
#[derive(Debug, Clone, PartialEq, Eq)]
pub struct ClusterInstanceStatus {
    pub phase: ClusterInstancePhase,
    /// Whether backend resources exist.
    pub provisioned: bool,
    /// Whether every bootstrap step succeeded.
    pub bootstrapped: bool,
    /// Lease attached to the instance.
    pub lease_ref: Option<ResourceRef>,
    /// Bootstrap that is running.
    pub active_bootstrap: Option<String>,
    /// Since when the instance is idle.
    pub idle_since: Option<String>,
    /// Since when the instance is in its phase.
    pub state_since: Option<String>,
    pub health_failures: u32,
    /// Hash of the pool spec that the instance was made from.
    pub spec_hash: Option<String>,
    pub network: Option<ClusterInstanceNetwork>,
    /// Which operator made the instance.
    pub created_with: Option<ClusterInstanceProvenance>,
    pub message: Option<String>,
    pub conditions: Vec<ClusterInstanceCondition>,
}

impl Default for ClusterInstanceStatus {
    fn default() -> (status: Self)
        ensures
            status.phase == ClusterInstancePhase::Creating,
            !status.provisioned,
            !status.bootstrapped,
            status.lease_ref is None,
            status.active_bootstrap is None,
            status.idle_since is None,
            status.state_since is None,
            status.health_failures == 0,
            status.spec_hash is None,
            status.network is None,
            status.created_with is None,
            status.message is None,
            status.conditions@.len() == 0,
    {
        ClusterInstanceStatus {
            phase: ClusterInstancePhase::Creating,
            provisioned: false,
            bootstrapped: false,
            lease_ref: None,
            active_bootstrap: None,
            idle_since: None,
            state_since: None,
            health_failures: 0,
            spec_hash: None,
            network: None,
            created_with: None,
            message: None,
            conditions: Vec::new(),
        }
    }
}

/// One status condition of an instance.
#[derive(Debug, Clone, PartialEq, Eq)]
pub struct ClusterInstanceCondition {
    pub condition_type: String,
    /// `True`, `False` or `Unknown`.
    pub status: String,
    pub reason: String,
    pub message: String,
    pub last_transition_time: Option<String>,
}

impl Default for ClusterInstanceCondition {
    fn default() -> (condition: Self)
        ensures
            condition.condition_type@ == Seq::<char>::empty(),
            condition.status@ == Seq::<char>::empty(),
            condition.reason@ == Seq::<char>::empty(),
            condition.message@ == Seq::<char>::empty(),
            condition.last_transition_time is None,
    {
        ClusterInstanceCondition {
            condition_type: String::new(),
            status: String::new(),
            reason: String::new(),
            message: String::new(),
            last_transition_time: None,
        }
    }
}

/// Which components made an instance.
#[derive(Debug, Clone, PartialEq, Eq)]
pub struct ClusterInstanceProvenance {
    pub operator_version: String,
    pub kobe_sync_image: Option<String>,
    /// Backend that the instance was provisioned with.
    pub backend_type: Option<BackendType>,
}

impl Default for ClusterInstanceProvenance {
    fn default() -> (provenance: Self)
        ensures
            provenance.operator_version@ == Seq::<char>::empty(),
            provenance.kobe_sync_image is None,
            provenance.backend_type is None,
    {
        ClusterInstanceProvenance {
            operator_version: String::new(),
            kobe_sync_image: None,
            backend_type: None,
        }
    }
}

} // verus!
