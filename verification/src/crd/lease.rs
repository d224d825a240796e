//! Cluster leases.

use crate::crd::instance::ResourceRef;
use crate::crd::profile::BackendType;
use crate::crd::receipt::{TeardownAcknowledgement, TeardownEvidenceReference};
use crate::crd::teardown::{
    CleanupMode, KubernetesResourceIdentity, TeardownCreationManifest, TeardownReceipt,
};
use crate::json::Json;
use vstd::prelude::*;

verus! {

/// A request for a cluster.
#[derive(Debug, Clone, PartialEq, Eq)]
pub struct ClusterLeaseSpec {
    pub pool_ref: String,
    /// Requested time to live.
    pub ttl: String,
    pub requester: Requester,
    /// The caller's own description, never acted upon.
    pub metadata: Option<Json>,
    /// Higher values are served first.
    pub priority: u32,
    /// How the capacity must be torn down; standard where absent.
    pub cleanup_mode: Option<CleanupMode>,
}

/// Who asks.
#[derive(Debug, Clone, PartialEq, Eq)]
pub struct Requester {
    /// `provider:role`.
    pub requester_type: String,
    pub identity: String,
}

/// The instance side of a binding.
#[derive(Debug, Clone, PartialEq, Eq)]
pub struct BoundInstance {
    pub name: String,
    pub uid: String,
    pub observed_generation: i64,
}

/// The backend side of a binding.
#[derive(Debug, Clone, PartialEq, Eq)]
pub struct BoundBackend {
    pub backend_type: BackendType,
    pub config_digest: String,
}

/// Reciprocal binding of a lease and an instance.
#[derive(Debug, Clone, PartialEq, Eq)]
pub struct LeaseBinding {
    pub binding_id: String,
    pub lease: ResourceRef,
    pub instance: BoundInstance,
    pub pool: ResourceRef,
    pub backend: BoundBackend,
    pub instance_spec_digest: String,
    pub cleanup_mode: CleanupMode,
    pub creation_manifest_digest: Option<String>,
    pub creation_manifest: Option<TeardownCreationManifest>,
    pub connect_token: Option<KubernetesResourceIdentity>,
}

/// What became of a lease.
#[derive(Debug, Clone, PartialEq, Eq)]
pub struct ClusterLeaseStatus {
    pub phase: LeasePhase,
    pub cluster_name: Option<String>,
    pub binding: Option<LeaseBinding>,
    pub bound_at: Option<String>,
    pub expires_at: Option<String>,
    /// Proof that the lease's capacity was destroyed.
    pub teardown_receipt: Option<TeardownReceipt>,
    pub teardown_evidence: Option<TeardownEvidenceReference>,
    /// Nonce stored before the first destructive request.
    pub teardown_attempt_id: Option<String>,
    pub connect_token_creation: Option<ConnectTokenCreation>,
    pub unbound_release_verified_at: Option<String>,
    pub teardown_acknowledgement: Option<TeardownAcknowledgement>,
    /// Place in the queue; zero where not queued.
    pub queue_position: u32,
    pub diagnostics_url: Option<String>,
    pub extensions_count: u32,
    pub max_extensions: u32,
    pub message: Option<String>,
    pub conditions: Vec<ClusterLeaseCondition>,
}

impl Default for ClusterLeaseStatus {
    fn default() -> (status: Self)
        ensures
            status.phase == LeasePhase::Pending,
            status.cluster_name is None,
            status.binding is None,
            status.bound_at is None,
            status.expires_at is None,
            status.teardown_receipt is None,
            status.teardown_evidence is None,
            status.teardown_attempt_id is None,
            status.connect_token_creation is None,
            status.unbound_release_verified_at is None,
            status.teardown_acknowledgement is None,
            status.queue_position == 0,
            status.diagnostics_url is None,
            status.extensions_count == 0,
            status.max_extensions == 0,
            status.message is None,
            status.conditions@.len() == 0,
    {
        ClusterLeaseStatus {
            phase: LeasePhase::Pending,
            cluster_name: None,
            binding: None,
            bound_at: None,
            expires_at: None,
            teardown_receipt: None,
            teardown_evidence: None,
            teardown_attempt_id: None,
            connect_token_creation: None,
            unbound_release_verified_at: None,
            teardown_acknowledgement: None,
            queue_position: 0,
            diagnostics_url: None,
            extensions_count: 0,
            max_extensions: 0,
            message: None,
            conditions: Vec::new(),
        }
    }
}

/// The only operation that may create a connect token.
#[derive(Debug, Clone, PartialEq, Eq)]
pub struct ConnectTokenCreation {
    pub attempt_id: String,
    pub phase: ConnectTokenCreationPhase,
    pub identity: Option<KubernetesResourceIdentity>,
    pub verified_absent_at: Option<String>,
}

/// States of a connect token's creation.
#[derive(Debug, Clone, Copy, PartialEq, Eq, Structural)]
pub enum ConnectTokenCreationPhase {
    /// Nothing was dispatched yet.
    Prepared,
    /// The one create may be in flight.
    Creating,
    /// The Secret's UID is stored.
    Reserved,
    /// The Secret holds its token.
    Ready,
    /// The Secret is being deleted.
    Closing,
    /// The Secret was seen absent.
    Closed,
}

/// One status condition of a lease.
#[derive(Debug, Clone, PartialEq, Eq)]
pub struct ClusterLeaseCondition {
    pub condition_type: String,
    /// `True`, `False` or `Unknown`.
    pub status: String,
    pub reason: String,
    pub message: String,
    pub last_transition_time: Option<String>,
}

impl Default for ClusterLeaseCondition {
    fn default() -> (condition: Self)
        ensures
            condition.condition_type@ == Seq::<char>::empty(),
            condition.status@ == Seq::<char>::empty(),
            condition.reason@ == Seq::<char>::empty(),
            condition.message@ == Seq::<char>::empty(),
            condition.last_transition_time is None,
    {
        ClusterLeaseCondition {
            condition_type: String::new(),
            status: String::new(),
            reason: String::new(),
            message: String::new(),
            last_transition_time: None,
        }
    }
}

/// Lease lifecycle.
#[derive(Debug, Clone, Copy, PartialEq, Eq, Structural)]
pub enum LeasePhase {
    /// Waiting for a warm cluster.
    Pending,
    /// Bound to a cluster.
    Bound,
    /// Released by the user.
    Released,
    /// Its time ran out.
    Expired,
    /// Its cluster is being replaced.
    Recycling,
    /// Teardown could not be proven complete.
    Quarantined,
}

impl Default for LeasePhase {
    fn default() -> (phase: Self)
        ensures
            phase == LeasePhase::Pending,
    {
        LeasePhase::Pending
    }
}

impl LeasePhase {
    /// The phase's name.
    pub open spec fn name_text(self) -> Seq<char> {
        match self {
            LeasePhase::Pending => "Pending"@,
            LeasePhase::Bound => "Bound"@,
            LeasePhase::Released => "Released"@,
            LeasePhase::Expired => "Expired"@,
            LeasePhase::Recycling => "Recycling"@,
            LeasePhase::Quarantined => "Quarantined"@,
        }
    }

    /// The name under which the phase is shown.
    pub fn name(self) -> (name: &'static str)
        ensures
            name@ == self.name_text(),
    {
        match self {
            LeasePhase::Pending => "Pending",
            LeasePhase::Bound => "Bound",
            LeasePhase::Released => "Released",
            LeasePhase::Expired => "Expired",
            LeasePhase::Recycling => "Recycling",
            LeasePhase::Quarantined => "Quarantined",
        }
    }
}

/// Priority of a lease that names none.
pub fn default_priority() -> (priority: u32)
    ensures
        priority == 50,
{
    50
}

} // verus!
