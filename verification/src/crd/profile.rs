//! Cluster pools: what a pool is asked to keep warm and how its clusters are built.

use crate::crd::instance::ClusterInstanceNetwork;
use crate::json::Json;
use crate::keyed;
use crate::text::{self, concat3};
use vstd::prelude::*;
use vstd::string::*;

verus! {

/// Which backend provisions a cluster.
#[derive(Debug, Clone, Copy, PartialEq, Eq, Structural)]
pub enum BackendType {
    /// k3s StatefulSets, optionally with a shared PostgreSQL datastore.
    K3s,
    /// k0s clusters.
    K0s,
    /// Cluster API with a pluggable infrastructure provider.
    Capi,
    /// The in-house virtual cluster runtime.
    Vkobe,
    /// Upstream vcluster.
    Vcluster,
}

impl Default for BackendType {
    fn default() -> (backend: Self)
        ensures
            backend == BackendType::K3s,
    {
        BackendType::K3s
    }
}

impl BackendType {
    /// The name under which the backend is stored.
    pub open spec fn wire_text(self) -> Seq<char> {
        match self {
            BackendType::K3s => "k3s"@,
            BackendType::K0s => "k0s"@,
            BackendType::Capi => "capi"@,
            BackendType::Vkobe => "vkobe"@,
            BackendType::Vcluster => "vcluster"@,
        }
    }

    /// The name under which the backend is stored.
    pub fn wire_name(self) -> (name: &'static str)
        ensures
            name@ == self.wire_text(),
    {
        match self {
            BackendType::K3s => "k3s",
            BackendType::K0s => "k0s",
            BackendType::Capi => "capi",
            BackendType::Vkobe => "vkobe",
            BackendType::Vcluster => "vcluster",
        }
    }
}

/// Reference to a `KobeStore` in the same namespace.
#[derive(Debug, Clone, PartialEq, Eq)]
pub struct KobeStoreRef {
    pub name: String,
}

/// Kube-controller-manager configuration.
#[derive(Debug, Clone, PartialEq, Eq)]
pub struct KcmConfig {
    /// Controllers to enable in the virtual controller manager.
    pub controllers: Vec<String>,
}

/// Configuration of the in-house virtual cluster backend.
#[derive(Debug, Clone, PartialEq, Eq)]
pub struct VkobeConfig {
    pub data_store_ref: KobeStoreRef,
    /// Kubernetes version of the virtual API server.
    pub version: String,
    pub kcm: Option<KcmConfig>,
    /// Resource syncers to enable.
    pub syncers: Vec<String>,
    /// Port of the virtual API server proxy.
    pub proxy_port: u16,
    /// Port of the health and metrics endpoints.
    pub metrics_port: u16,
}

/// Kubernetes version of a virtual cluster that names none.
pub fn default_k8s_version() -> (version: String)
    ensures
        version@ == "1.32"@,
{
    "1.32".to_owned()
}

/// The controllers that a virtual controller manager runs unless told otherwise.
pub open spec fn kcm_controllers() -> Seq<Seq<char>> {
    seq![
        "deployment"@,
        "replicaset"@,
        "statefulset"@,
        "daemonset"@,
        "job"@,
        "cronjob"@,
        "namespace"@,
        "serviceaccount"@,
        "garbagecollector"@,
    ]
}

/// Controllers of a virtual controller manager that names none.
pub fn default_kcm_controllers() -> (controllers: Vec<String>)
    ensures
        text::texts(controllers@) == kcm_controllers(),
{
    let controllers = vec![
        "deployment".to_owned(),
        "replicaset".to_owned(),
        "statefulset".to_owned(),
        "daemonset".to_owned(),
        "job".to_owned(),
        "cronjob".to_owned(),
        "namespace".to_owned(),
        "serviceaccount".to_owned(),
        "garbagecollector".to_owned(),
    ];
    assert(text::texts(controllers@) =~= kcm_controllers());
    controllers
}

/// The syncers that a user may opt out of. Those that a virtual cluster cannot
/// work without are not in the list.
pub open spec fn vkobe_syncers() -> Seq<Seq<char>> {
    seq!["pods"@, "services"@, "configmaps"@, "secrets"@, "endpoints"@, "ingresses"@]
}

/// Syncers of a virtual cluster that names none.
pub fn default_vkobe_syncers() -> (syncers: Vec<String>)
    ensures
        text::texts(syncers@) == vkobe_syncers(),
{
    let syncers = vec![
        "pods".to_owned(),
        "services".to_owned(),
        "configmaps".to_owned(),
        "secrets".to_owned(),
        "endpoints".to_owned(),
        "ingresses".to_owned(),
    ];
    assert(text::texts(syncers@) =~= vkobe_syncers());
    syncers
}

/// Proxy port of a virtual cluster that names none.
pub fn default_proxy_port() -> (port: u16)
    ensures
        port == 8443,
{
    8443
}

/// Metrics port of a virtual cluster that names none.
pub fn default_metrics_port() -> (port: u16)
    ensures
        port == 9090,
{
    9090
}

/// Shared PostgreSQL datastore of the k3s backend.
#[derive(Debug, Clone, PartialEq, Eq)]
pub struct DatastoreConfig {
    /// Secret that holds the connection URL.
    pub secret_ref: String,
    /// Key in that Secret.
    pub secret_key: String,
    /// Whether golden images are kept as template databases.
    pub golden_templates: bool,
}

/// Secret key of a datastore that names none.
pub fn default_secret_key() -> (key: String)
    ensures
        key@ == "connection-url"@,
{
    "connection-url".to_owned()
}

/// Cluster API backend configuration.
#[derive(Debug, Clone, PartialEq, Eq)]
pub struct CapiConfig {
    pub infrastructure_api_version: String,
    pub infrastructure_kind: String,
    /// Provider-specific object, passed through as it is.
    pub infrastructure_spec: Option<Json>,
    /// Plural form of the kind, where it is irregular.
    pub infrastructure_plural: Option<String>,
}

/// A pool of pre-warmed virtual clusters.
#[derive(Debug, Clone, PartialEq, Eq)]
pub struct ClusterPoolSpec {
    /// Desired number of warm clusters; ignored where `scaling` is set.
    pub size: u32,
    /// Default time to live of claims against this pool.
    pub ttl: String,
    pub backend: BackendConfig,
    pub cluster: ClusterConfig,
    /// Addons to install once a cluster is running.
    pub addons: Vec<Addon>,
    /// Bootstrap bundles to apply into each cluster.
    pub bootstraps: Vec<BootstrapRef>,
    pub resources: Option<ResourceRequirements>,
    pub health_check: Option<HealthCheckConfig>,
    /// Gates that must pass before a cluster enters the warm pool.
    pub readiness_gates: Vec<ReadinessGate>,
    /// Autoscaling; where set, it overrides `size`.
    pub scaling: Option<ScalingConfig>,
    pub upgrade_policy: Option<UpgradePolicy>,
    pub diagnostics: Option<DiagnosticsConfig>,
    pub snapshot: Option<SnapshotConfig>,
}

/// The backend of a pool and its backend-specific settings.
#[derive(Debug, Clone, PartialEq, Eq)]
pub struct BackendConfig {
    pub backend_type: BackendType,
    pub datastore: Option<DatastoreConfig>,
    pub capi: Option<CapiConfig>,
    pub vkobe: Option<VkobeConfig>,
    pub vcluster: Option<VclusterConfig>,
}

impl Default for BackendConfig {
    fn default() -> (config: Self)
        ensures
            config == (BackendConfig {
                backend_type: BackendType::K3s,
                datastore: None,
                capi: None,
                vkobe: None,
                vcluster: None,
            }),
    {
        BackendConfig {
            backend_type: BackendType::K3s,
            datastore: None,
            capi: None,
            vkobe: None,
            vcluster: None,
        }
    }
}

/// Configuration of the upstream vcluster backend.
#[derive(Debug, Clone, PartialEq, Eq)]
pub struct VclusterConfig {
    /// Helm chart version; the operator's pinned one where absent.
    pub chart_version: Option<String>,
    /// Helm values merged over the operator's defaults.
    pub values: Option<String>,
}

impl Default for VclusterConfig {
    fn default() -> (config: Self)
        ensures
            config == (VclusterConfig { chart_version: None, values: None }),
    {
        VclusterConfig { chart_version: None, values: None }
    }
}

/// Mirror endpoints for one source registry.
#[derive(Debug, Clone, PartialEq, Eq)]
pub struct RegistryMirror {
    /// Source registry host name.
    pub registry: String,
    /// Endpoints to try before the source.
    pub endpoints: Vec<String>,
}

/// Whether mirrors are in the order of their registries, each registry once.
pub open spec fn mirrors_are_keyed(mirrors: Seq<RegistryMirror>) -> bool {
    keyed::in_key_order(
        mirrors.map_values(|mirror: RegistryMirror| (mirror.registry@, mirror.endpoints)),
    )
}

/// Which containers share the host's kubelet tree.
#[derive(Debug, Clone, Copy, PartialEq, Eq, Structural)]
pub struct KubeletSharedMountConfig {
    pub server: bool,
    pub agents: bool,
}

/// Backend-agnostic cluster configuration.
#[derive(Debug, Clone, PartialEq, Eq)]
pub struct ClusterConfig {
    /// Kubernetes distribution version.
    pub version: String,
    /// Number of control plane servers.
    pub servers: u32,
    /// Number of agents, which then run in a Deployment of their own.
    pub agents: Option<u32>,
    /// Extra server arguments.
    pub server_args: Vec<String>,
    pub persistence: Option<PersistenceConfig>,
    pub expose: Option<ExposeConfig>,
    /// Node taints: the backend's own where absent, none where empty.
    pub taints: Option<Vec<NodeTaint>>,
    pub node_placement: Option<NodePlacement>,
    /// Cluster DNS domain.
    pub cluster_domain: Option<String>,
    /// Registry mirrors of the cluster's container runtime, `mirrors_are_keyed`.
    pub registry_mirrors: Option<Vec<RegistryMirror>>,
    /// Host kubelet tree shared into the cluster's containers.
    pub kubelet_shared_mount: Option<KubeletSharedMountConfig>,
    /// Network ranges allocated to the instance; never part of the stored resource.
    pub allocated_network: Option<ClusterInstanceNetwork>,
    /// Pool-level resource limits; never part of the stored resource.
    pub resources: Option<ResourceRequirements>,
}

impl Default for ClusterConfig {
    fn default() -> (config: Self)
        ensures
            config.version@ == Seq::<char>::empty(),
            config.servers == 0,
            config.agents is None,
            config.server_args@.len() == 0,
            config.persistence is None,
            config.expose is None,
            config.taints is None,
            config.node_placement is None,
            config.cluster_domain is None,
            config.registry_mirrors is None,
            config.kubelet_shared_mount is None,
            config.allocated_network is None,
            config.resources is None,
    {
        ClusterConfig {
            version: String::new(),
            servers: 0,
            agents: None,
            server_args: Vec::new(),
            persistence: None,
            expose: None,
            taints: None,
            node_placement: None,
            cluster_domain: None,
            registry_mirrors: None,
            kubelet_shared_mount: None,
            allocated_network: None,
            resources: None,
        }
    }
}

/// A single taint applied to cluster nodes.
#[derive(Debug, Clone, PartialEq, Eq)]
pub struct NodeTaint {
    pub key: String,
    pub value: Option<String>,
    pub effect: TaintEffect,
}

/// What a taint does to pods that do not tolerate it.
#[derive(Debug, Clone, Copy, PartialEq, Eq, Structural)]
pub enum TaintEffect {
    NoSchedule,
    PreferNoSchedule,
    NoExecute,
}

impl TaintEffect {
    /// The effect's Kubernetes name.
    pub open spec fn name_text(self) -> Seq<char> {
        match self {
            TaintEffect::NoSchedule => "NoSchedule"@,
            TaintEffect::PreferNoSchedule => "PreferNoSchedule"@,
            TaintEffect::NoExecute => "NoExecute"@,
        }
    }

    /// The effect's Kubernetes name.
    pub fn name(self) -> (name: &'static str)
        ensures
            name@ == self.name_text(),
    {
        match self {
            TaintEffect::NoSchedule => "NoSchedule",
            TaintEffect::PreferNoSchedule => "PreferNoSchedule",
            TaintEffect::NoExecute => "NoExecute",
        }
    }
}

impl NodeTaint {
    /// `key=value:effect`, or `key:effect` where no value is set.
    pub open spec fn kubelet_text(self) -> Seq<char> {
        match self.value {
            Some(value) => self.key@ + "="@ + value@ + ":"@ + self.effect.name_text(),
            None => self.key@ + ":"@ + self.effect.name_text(),
        }
    }

    /// The taint in the form that node registration takes.
    pub fn to_kubelet_arg(&self) -> (argument: String)
        ensures
            argument@ == self.kubelet_text(),
    {
        match &self.value {
            Some(value) => {
                let head = concat3(self.key.as_str(), "=", value.as_str());
                concat3(head.as_str(), ":", self.effect.name())
            },
            None => concat3(self.key.as_str(), ":", self.effect.name()),
        }
    }
}

/// Node placement of a cluster's pods.
#[derive(Debug, Clone, Copy, PartialEq, Eq, Structural)]
pub struct NodePlacement {
    /// Placement of the agents relative to the server of the same cluster.
    pub mode: NodePlacementMode,
    /// Placement of pool members relative to each other.
    pub spread: Option<InstanceSpread>,
}

impl Default for NodePlacement {
    fn default() -> (placement: Self)
        ensures
            placement == (NodePlacement { mode: NodePlacementMode::Any, spread: None }),
    {
        NodePlacement { mode: NodePlacementMode::Any, spread: None }
    }
}

/// Placement of agents relative to their server.
#[derive(Debug, Clone, Copy, PartialEq, Eq, Structural)]
pub enum NodePlacementMode {
    /// Any eligible node for each pod.
    Any,
    /// The agents on the server's host.
    SameHost,
}

impl Default for NodePlacementMode {
    fn default() -> (mode: Self)
        ensures
            mode == NodePlacementMode::Any,
    {
        NodePlacementMode::Any
    }
}

/// Strength of the spread between pool members.
#[derive(Debug, Clone, Copy, PartialEq, Eq, Structural)]
pub enum InstanceSpread {
    /// A soft hint.
    Preferred,
    /// At most one pool member per host.
    Required,
}

/// Storage of a cluster's servers.
#[derive(Debug, Clone, PartialEq, Eq)]
pub struct PersistenceConfig {
    /// Storage type, such as `emptyDir` or `dynamic`.
    pub storage_type: Option<String>,
    pub storage_class_name: Option<String>,
    pub storage_request_size: Option<String>,
}

/// How a cluster's API is exposed.
#[derive(Debug, Clone, PartialEq, Eq)]
pub struct ExposeConfig {
    /// `ingress`, `NodePort` or `LoadBalancer`.
    pub expose_type: String,
    pub ingress_class_name: Option<String>,
    pub node_port: Option<i32>,
}

/// Number of servers of a cluster that names none.
pub fn default_servers() -> (servers: u32)
    ensures
        servers == 1,
{
    1
}

/// A manifest to apply once a cluster is ready.
#[derive(Debug, Clone, PartialEq, Eq)]
pub struct Addon {
    pub name: String,
    /// Inline manifest.
    pub manifest: Option<String>,
    /// Where to fetch the manifest from instead.
    pub url: Option<String>,
}

/// Reference to a bootstrap bundle in the same namespace.
#[derive(Debug, Clone, PartialEq, Eq)]
pub struct BootstrapRef {
    pub name: String,
    /// Renderer parameters.
    pub params: Vec<(String, String)>,
}

impl BootstrapRef {
    /// Whether the parameters are in key order.
    pub open spec fn is_keyed(self) -> bool {
        keyed::in_key_order(text::pair_texts(self.params@))
    }
}

impl Default for BootstrapRef {
    fn default() -> (reference: Self)
        ensures
            reference.name@ == Seq::<char>::empty(),
            reference.params@.len() == 0,
            reference.is_keyed(),
    {
        BootstrapRef { name: String::new(), params: Vec::new() }
    }
}

/// Resource limits and requests.
#[derive(Debug, Clone, PartialEq, Eq)]
pub struct ResourceRequirements {
    pub limits: Vec<(String, String)>,
    pub requests: Vec<(String, String)>,
}

/// Resource requirements as a container carries them: a side that is not
/// constrained is left out.
#[derive(Debug, Clone, PartialEq, Eq)]
pub struct ContainerResourceRequirements {
    pub limits: Option<Vec<(String, String)>>,
    pub requests: Option<Vec<(String, String)>>,
}

impl ContainerResourceRequirements {
    /// Whether both sides are in the order of the resources' names.
    pub open spec fn is_keyed(self) -> bool {
        &&& keyed::opt_in_key_order(text::opt_pairs(self.limits))
        &&& keyed::opt_in_key_order(text::opt_pairs(self.requests))
    }
}

/// A side of the requirements as a container carries it.
pub open spec fn constrained(
    pairs: Seq<(String, String)>,
    carried: Option<Vec<(String, String)>>,
) -> bool {
    match carried {
        Some(carried) => pairs.len() > 0 && text::pair_texts(carried@) == text::pair_texts(pairs),
        None => pairs.len() == 0,
    }
}

impl ResourceRequirements {
    /// Whether both sides are in the order of the resources' names, each once.
    pub open spec fn is_keyed(self) -> bool {
        &&& keyed::in_key_order(text::pair_texts(self.limits@))
        &&& keyed::in_key_order(text::pair_texts(self.requests@))
    }

    /// The requirements as a container carries them; nothing at all where
    /// neither side is constrained.
    pub fn to_k8s(&self) -> (requirements: Option<ContainerResourceRequirements>)
        ensures
            requirements is None <==> self.limits@.len() == 0 && self.requests@.len() == 0,
            requirements matches Some(carried) ==> constrained(self.limits@, carried.limits)
                && constrained(self.requests@, carried.requests),
            requirements matches Some(carried) ==> self.is_keyed() ==> carried.is_keyed(),
    {
        if self.limits.len() == 0 && self.requests.len() == 0 {
            return None;
        }
        let limits = if self.limits.len() == 0 {
            None
        } else {
            Some(text::copy_pairs(&self.limits))
        };
        let requests = if self.requests.len() == 0 {
            None
        } else {
            Some(text::copy_pairs(&self.requests))
        };
        Some(ContainerResourceRequirements { limits, requests })
    }
}

/// Health probing of warm clusters.
#[derive(Debug, Clone, Copy, PartialEq, Eq, Structural)]
pub struct HealthCheckConfig {
    /// Seconds between two probes.
    pub interval_seconds: u32,
    /// Consecutive failures before a cluster is recycled.
    pub failure_threshold: u32,
}

/// A condition that must hold before a cluster enters the warm pool.
#[derive(Debug, Clone, PartialEq, Eq)]
pub enum ReadinessGate {
    /// A custom resource definition is registered.
    CrdExists { name: String },
    /// A Deployment has a ready replica.
    DeploymentReady { name: String, namespace: String },
    /// A DaemonSet has all pods ready.
    DaemonSetReady { name: String, namespace: String },
    /// A URL answers with success.
    UrlHealthy { url: String },
    /// A probe Pod is scheduled and runs.
    SchedulingProbe { namespace: Option<String> },
}

/// Autoscaling of a pool.
#[derive(Debug, Clone, PartialEq, Eq)]
pub struct ScalingConfig {
    /// Warm clusters to keep.
    pub min_ready: u32,
    /// Ceiling on all clusters of the pool.
    pub max_clusters: u32,
    /// Ready clusters at which the pool scales up.
    pub scale_up_threshold: u32,
    /// How long a surplus cluster may be idle.
    pub scale_down_after: String,
    /// How long a claim may wait at full capacity.
    pub queue_timeout: String,
    pub failure_backoff: Option<FailureBackoffConfig>,
}

/// Backoff between consecutive provision failures.
#[derive(Debug, Clone, PartialEq, Eq)]
pub struct FailureBackoffConfig {
    /// Delay after the first failure.
    pub base: String,
    /// Factor between one delay and the next.
    pub multiplier: u32,
    /// Upper bound on the delay.
    pub max: String,
}

/// Bounds on replacing pool members that drifted from the current profile.
#[derive(Debug, Clone, Copy, PartialEq, Eq, Structural)]
pub struct UpgradePolicy {
    /// Drifted members recycled per pass; zero pauses recycling.
    pub max_recycling: u32,
    /// Extra clusters allowed above the warm target meanwhile.
    pub max_surge: u32,
    /// Floor on ready members; the warm target where absent.
    pub min_ready_during_upgrade: Option<u32>,
}

/// Recycling bound of a policy that names none.
pub fn default_max_recycling() -> (count: u32)
    ensures
        count == 1,
{
    1
}

/// Surge bound of a policy that names none.
pub fn default_max_surge() -> (count: u32)
    ensures
        count == 1,
{
    1
}

/// Diagnostic capture when a claim ends.
#[derive(Debug, Clone, PartialEq, Eq)]
pub struct DiagnosticsConfig {
    pub enabled: bool,
    /// S3 bucket URI.
    pub storage: String,
    /// Days that a bundle is kept.
    pub retention_days: u32,
    /// Log lines captured per container.
    pub log_lines: u32,
    pub include_secrets: bool,
}

/// Summary of a pool's current state.
#[derive(Debug, Clone, Copy, PartialEq, Eq, Structural)]
pub enum ClusterPoolPhase {
    /// At or above the warm target, or serving leases.
    Healthy,
    /// Creating clusters towards the warm target.
    ScalingUp,
    /// Shrinking towards the warm target.
    ScalingDown,
    /// Waiting after consecutive provision failures.
    Backoff,
    /// Failing repeatedly.
    Failing,
    /// Scaled to zero by design.
    Idle,
}

/// Runtime status of a cluster pool.
#[derive(Debug, Clone, PartialEq, Eq)]
pub struct ClusterPoolStatus {
    pub phase: Option<ClusterPoolPhase>,
    /// Idle clusters ready for claims.
    pub ready: u32,
    pub leased: u32,
    pub creating: u32,
    pub recycling: u32,
    pub unhealthy: u32,
    /// Claims waiting for clusters.
    pub queue_depth: u32,
    /// Name of the current golden backup.
    pub golden_backup: Option<String>,
    /// Profile generation that the golden backup was made from.
    pub golden_generation: Option<i64>,
    /// Template database for golden images.
    pub golden_template_db: Option<String>,
    /// Provision attempts that failed since a cluster was last ready.
    pub consecutive_failures: u32,
    /// Earliest time of the next attempt.
    pub next_attempt_at: Option<String>,
    pub last_failure_reason: Option<String>,
    /// Highest cluster index ever attempted.
    pub max_attempted_index: u32,
    /// Highest cluster index that was ever ready.
    pub last_ready_max_index: u32,
}

impl Default for ClusterPoolStatus {
    fn default() -> (status: Self)
        ensures
            status == (ClusterPoolStatus {
                phase: None,
                ready: 0,
                leased: 0,
                creating: 0,
                recycling: 0,
                unhealthy: 0,
                queue_depth: 0,
                golden_backup: None,
                golden_generation: None,
                golden_template_db: None,
                consecutive_failures: 0,
                next_attempt_at: None,
                last_failure_reason: None,
                max_attempted_index: 0,
                last_ready_max_index: 0,
            }),
    {
        ClusterPoolStatus {
            phase: None,
            ready: 0,
            leased: 0,
            creating: 0,
            recycling: 0,
            unhealthy: 0,
            queue_depth: 0,
            golden_backup: None,
            golden_generation: None,
            golden_template_db: None,
            consecutive_failures: 0,
            next_attempt_at: None,
            last_failure_reason: None,
            max_attempted_index: 0,
            last_ready_max_index: 0,
        }
    }
}

/// Warm clusters of a pool that names no number.
pub fn default_size() -> (size: u32)
    ensures
        size == 3,
{
    3
}

/// Time to live of a claim against a pool that names none.
pub fn default_ttl() -> (ttl: String)
    ensures
        ttl@ == "2h"@,
{
    "2h".to_owned()
}

/// Seconds between two health probes where none are named.
pub fn default_health_interval() -> (seconds: u32)
    ensures
        seconds == 30,
{
    30
}

/// Tolerated health failures where none are named.
pub fn default_failure_threshold() -> (count: u32)
    ensures
        count == 3,
{
    3
}

/// Warm target of an autoscaled pool that names none.
pub fn default_min_ready() -> (count: u32)
    ensures
        count == 1,
{
    1
}

/// Ceiling of an autoscaled pool that names none.
pub fn default_max_clusters() -> (count: u32)
    ensures
        count == 8,
{
    8
}

/// Idle time before scaling down where none is named.
pub fn default_scale_down_after() -> (duration: String)
    ensures
        duration@ == "5m"@,
{
    "5m".to_owned()
}

/// Queue timeout where none is named.
pub fn default_queue_timeout() -> (duration: String)
    ensures
        duration@ == "5m"@,
{
    "5m".to_owned()
}

/// First backoff delay where none is named.
pub fn default_backoff_base() -> (duration: String)
    ensures
        duration@ == "5s"@,
{
    "5s".to_owned()
}

/// Backoff factor where none is named.
pub fn default_backoff_multiplier() -> (factor: u32)
    ensures
        factor == 2,
{
    2
}

/// Longest backoff delay where none is named.
pub fn default_backoff_max() -> (duration: String)
    ensures
        duration@ == "2m"@,
{
    "2m".to_owned()
}

/// Days that a diagnostic bundle is kept where none are named.
pub fn default_retention_days() -> (days: u32)
    ensures
        days == 7,
{
    7
}

/// Log lines per container where none are named.
pub fn default_log_lines() -> (lines: u32)
    ensures
        lines == 1000,
{
    1000
}

/// Golden image snapshots of a pool.
#[derive(Debug, Clone, PartialEq, Eq)]
pub struct SnapshotConfig {
    pub enabled: bool,
    /// Namespace of the Velero server.
    pub velero_namespace: String,
    /// Backup storage location to use.
    pub storage_location: String,
    /// Prefix of the golden backup's name.
    pub golden_prefix: String,
    /// How long a backup is kept.
    pub ttl: String,
    pub refresh_on: SnapshotRefreshTrigger,
}

/// When a golden image is refreshed.
#[derive(Debug, Clone, Copy, PartialEq, Eq, Structural)]
pub enum SnapshotRefreshTrigger {
    /// Whenever the profile changes.
    ProfileChange,
    /// Only on request.
    Manual,
}

impl Default for SnapshotRefreshTrigger {
    fn default() -> (trigger: Self)
        ensures
            trigger == SnapshotRefreshTrigger::ProfileChange,
    {
        SnapshotRefreshTrigger::ProfileChange
    }
}

/// Velero namespace where none is named.
pub fn default_velero_ns() -> (namespace: String)
    ensures
        namespace@ == "velero"@,
{
    "velero".to_owned()
}

/// Backup storage location where none is named.
pub fn default_storage_location() -> (location: String)
    ensures
        location@ == "default"@,
{
    "default".to_owned()
}

/// Golden backup prefix where none is named.
pub fn default_golden_prefix() -> (prefix: String)
    ensures
        prefix@ == "golden"@,
{
    "golden".to_owned()
}

/// Backup retention where none is named.
pub fn default_backup_ttl() -> (ttl: String)
    ensures
        ttl@ == "720h"@,
{
    "720h".to_owned()
}

} // verus!
