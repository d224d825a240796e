//! Cluster pools, leases, instances, stores and teardown evidence.

use kobe::crd::access_policy;
use kobe::crd::auth_policy;
use kobe::crd::cidr::{CIDRClaimPhase, CIDRClaimStatus, CIDRPoolPhase, CIDRPoolStatus};
use kobe::crd::claim::{self, ClaimPhase, ClusterClaimStatus};
use kobe::crd::datastore::{KobeStoreCondition, KobeStoreStatus};
use kobe::crd::instance::{ClusterInstancePhase, ClusterInstanceStatus, ResourceRef};
use kobe::crd::lease::{self, ClusterLeaseStatus, LeasePhase};
use kobe::crd::profile::{
    self, default_vkobe_syncers, BackendType, BootstrapRef, ClusterPoolStatus, NodeTaint,
    ResourceRequirements, SnapshotRefreshTrigger, TaintEffect,
};
use kobe::crd::receipt::{
    verified_teardown_evidence_labels, verified_teardown_evidence_name, TeardownAcknowledgedProof,
    TeardownAcknowledgedProofKind, TeardownEvidenceReference,
    TEARDOWN_EVIDENCE_ATTEMPT_DIGEST_LABEL, TEARDOWN_EVIDENCE_LEASE_DIGEST_LABEL,
    TEARDOWN_EVIDENCE_PRODUCER_LABEL,
};

#[test]
fn test_status_golden_fields_default() {
    let status = ClusterPoolStatus::default();
    assert!(status.golden_backup.is_none());
    assert!(status.golden_generation.is_none());
}

#[test]
fn test_snapshot_refresh_trigger_default() {
    let trigger = SnapshotRefreshTrigger::default();
    assert!(matches!(trigger, SnapshotRefreshTrigger::ProfileChange));
}

#[test]
fn test_claim_status_defaults() {
    let status = ClusterLeaseStatus::default();
    assert_eq!(status.phase, LeasePhase::Pending);
    assert!(status.cluster_name.is_none());
    assert!(status.bound_at.is_none());
    assert!(status.expires_at.is_none());
    assert_eq!(status.queue_position, 0);
    assert!(status.diagnostics_url.is_none());
    assert_eq!(status.extensions_count, 0);
    assert_eq!(status.max_extensions, 0);
}

#[test]
fn test_claim_phase_display() {
    assert_eq!(LeasePhase::Pending.name(), "Pending");
    assert_eq!(LeasePhase::Bound.name(), "Bound");
    assert_eq!(LeasePhase::Released.name(), "Released");
    assert_eq!(LeasePhase::Expired.name(), "Expired");
    assert_eq!(LeasePhase::Recycling.name(), "Recycling");
}

#[test]
fn test_cluster_instance_status_defaults() {
    let status = ClusterInstanceStatus::default();
    assert_eq!(status.phase, ClusterInstancePhase::Creating);
    assert!(!status.provisioned);
    assert!(status.lease_ref.is_none());
    assert!(status.idle_since.is_none());
    assert!(status.state_since.is_none());
    assert_eq!(status.health_failures, 0);
    assert!(status.spec_hash.is_none());
}

#[test]
fn default_vkobe_syncers_matches_canonical_list() {
    assert_eq!(
        default_vkobe_syncers(),
        vec![
            "pods".to_string(),
            "services".to_string(),
            "configmaps".to_string(),
            "secrets".to_string(),
            "endpoints".to_string(),
            "ingresses".to_string(),
        ]
    );
}

#[test]
fn name_is_bound_to_exact_lease_uid_and_attempt() {
    let first = verified_teardown_evidence_name("uid-a", "attempt-a");
    assert_eq!(first, verified_teardown_evidence_name("uid-a", "attempt-a"));
    assert_ne!(first, verified_teardown_evidence_name("uid-b", "attempt-a"));
    assert_ne!(first, verified_teardown_evidence_name("uid-a", "attempt-b"));
    assert!(first.len() <= 63);
}

#[test]
fn identity_labels_are_bounded_and_bind_both_inputs() {
    let first = verified_teardown_evidence_labels("uid-a", "attempt-a");
    let other_lease = verified_teardown_evidence_labels("uid-b", "attempt-a");
    let other_attempt = verified_teardown_evidence_labels("uid-a", "attempt-b");
    fn value<'a>(labels: &'a [(String, String)], key: &str) -> &'a str {
        labels.iter().find(|label| label.0 == key).unwrap().1.as_str()
    }
    assert_ne!(
        value(&first, TEARDOWN_EVIDENCE_LEASE_DIGEST_LABEL),
        value(&other_lease, TEARDOWN_EVIDENCE_LEASE_DIGEST_LABEL)
    );
    assert_ne!(
        value(&first, TEARDOWN_EVIDENCE_ATTEMPT_DIGEST_LABEL),
        value(&other_attempt, TEARDOWN_EVIDENCE_ATTEMPT_DIGEST_LABEL)
    );
    assert!(first.iter().all(|label| label.1.len() <= 63));
    assert_eq!(
        value(&first, TEARDOWN_EVIDENCE_PRODUCER_LABEL),
        "teardown-authority"
    );
}

#[test]
fn labels_come_in_the_order_of_their_keys() {
    let labels = verified_teardown_evidence_labels("uid", "attempt");
    let mut sorted = labels.clone();
    sorted.sort();
    assert_eq!(labels, sorted);
    assert_eq!(labels.len(), 3);
    for digest in [&labels[0].1, &labels[2].1] {
        assert_eq!(digest.len(), 40);
        assert!(digest.chars().all(|c| c.is_ascii_digit() || ('a'..='f').contains(&c)));
    }
}

#[test]
fn the_separator_keeps_the_name_inputs_apart() {
    assert_ne!(
        verified_teardown_evidence_name("ab", "c"),
        verified_teardown_evidence_name("a", "bc")
    );
}

#[test]
fn acknowledged_proofs_carry_one_payload() {
    let evidence = TeardownEvidenceReference {
        name: "vte-a".into(),
        uid: "uid".into(),
        generation: 1,
        resource_version: "7".into(),
    };
    let receipt = TeardownAcknowledgedProof::receipt("token".into(), evidence.clone());
    assert_eq!(receipt.kind, TeardownAcknowledgedProofKind::Receipt);
    assert_eq!(receipt.receipt_token.as_deref(), Some("token"));
    assert_eq!(receipt.evidence, Some(evidence));
    assert_eq!(receipt.unbound_release_verified_at, None);
    let unbound = TeardownAcknowledgedProof::never_bound("then".into());
    assert_eq!(unbound.kind, TeardownAcknowledgedProofKind::NeverBound);
    assert_eq!(unbound.unbound_release_verified_at.as_deref(), Some("then"));
    assert_eq!(unbound.receipt_token, None);
    assert_eq!(unbound.evidence, None);
}

#[test]
fn taints_are_written_for_the_kubelet() {
    let mut taint = NodeTaint {
        key: "dedicated".into(),
        value: Some("ci".into()),
        effect: TaintEffect::NoSchedule,
    };
    assert_eq!(taint.to_kubelet_arg(), "dedicated=ci:NoSchedule");
    taint.value = None;
    taint.effect = TaintEffect::PreferNoSchedule;
    assert_eq!(taint.to_kubelet_arg(), "dedicated:PreferNoSchedule");
    taint.value = Some(String::new());
    taint.effect = TaintEffect::NoExecute;
    assert_eq!(taint.to_kubelet_arg(), "dedicated=:NoExecute");
}

#[test]
fn unconstrained_resources_are_left_out() {
    let pair = |name: &str, quantity: &str| (name.to_string(), quantity.to_string());
    let empty = ResourceRequirements {
        limits: vec![],
        requests: vec![],
    };
    assert!(empty.to_k8s().is_none());
    let limited = ResourceRequirements {
        limits: vec![pair("cpu", "1"), pair("memory", "1Gi")],
        requests: vec![],
    };
    let carried = limited.to_k8s().unwrap();
    assert_eq!(carried.limits, Some(limited.limits));
    assert_eq!(carried.requests, None);
    let requested = ResourceRequirements {
        limits: vec![],
        requests: vec![pair("cpu", "1")],
    };
    let carried = requested.to_k8s().unwrap();
    assert_eq!(carried.limits, None);
    assert_eq!(carried.requests, Some(requested.requests));
}

#[test]
fn only_a_false_health_condition_holds_creates_back() {
    let condition = |condition_type: &str, status: &str| KobeStoreCondition {
        condition_type: condition_type.into(),
        status: status.into(),
        reason: "CrashLoop".into(),
        message: "pod restarts".into(),
        last_transition_time: None,
    };
    let mut store = KobeStoreStatus::default();
    assert!(store.healthy_condition().is_none());
    assert_eq!(store.unhealthy_reason(), None);
    store.conditions = vec![condition("Ready", "False"), condition("Healthy", "Unknown")];
    assert_eq!(store.healthy_condition(), Some(&store.conditions[1]));
    assert_eq!(store.unhealthy_reason(), None);
    store.conditions[1].status = "False".into();
    assert_eq!(
        store.unhealthy_reason().as_deref(),
        Some("CrashLoop: pod restarts")
    );
    store.conditions.insert(0, condition("Healthy", "True"));
    assert_eq!(store.healthy_condition(), Some(&store.conditions[0]));
    assert_eq!(store.unhealthy_reason(), None);
}

#[test]
fn the_most_recent_health_condition_decides() {
    let condition = |status: &str, changed: Option<&str>| KobeStoreCondition {
        condition_type: "Healthy".into(),
        status: status.into(),
        reason: "CrashLoop".into(),
        message: "pod restarts".into(),
        last_transition_time: changed.map(str::to_string),
    };
    let first = Some("2026-01-01T00:00:00Z");
    let second = Some("2026-01-02T00:00:00Z");
    let mut store = KobeStoreStatus::default();
    store.conditions = vec![condition("True", first), condition("False", second)];
    assert_eq!(store.healthy_condition(), Some(&store.conditions[1]));
    assert_eq!(
        store.unhealthy_reason().as_deref(),
        Some("CrashLoop: pod restarts")
    );
    store.conditions.swap(0, 1);
    assert_eq!(store.healthy_condition(), Some(&store.conditions[0]));

    // One instant, written with two offsets.
    store.conditions = vec![
        condition("True", Some("2026-01-02T01:00:00+01:00")),
        condition("False", second),
    ];
    assert_eq!(store.healthy_condition(), Some(&store.conditions[0]));

    for unknown in [None, Some("yesterday")] {
        store.conditions = vec![condition("True", unknown), condition("False", first)];
        assert_eq!(store.healthy_condition(), Some(&store.conditions[1]));
        store.conditions.swap(0, 1);
        assert_eq!(store.healthy_condition(), Some(&store.conditions[0]));
    }
    store.conditions = vec![
        condition("True", first),
        condition("Unknown", None),
        condition("False", second),
        condition("True", second),
    ];
    assert_eq!(store.healthy_condition(), Some(&store.conditions[2]));
}

#[test]
fn references_with_a_uid_tell_reincarnations_apart() {
    let named = |uid: Option<&str>| ResourceRef {
        name: "pool".into(),
        uid: uid.map(str::to_string),
    };
    assert!(named(Some("a")).same(&named(Some("a"))));
    assert!(!named(Some("a")).same(&named(Some("b"))));
    assert!(!named(Some("a")).same(&named(None)));
}

#[test]
fn phases_begin_at_the_beginning() {
    assert_eq!(CIDRClaimStatus::default().phase, CIDRClaimPhase::Pending);
    assert_eq!(CIDRPoolStatus::default().phase, CIDRPoolPhase::default());
    assert_eq!(ClusterClaimStatus::default().phase, ClaimPhase::Pending);
    assert_eq!(ClaimPhase::Bound.name(), "Bound");
    assert_eq!(BackendType::default(), BackendType::K3s);
    assert_eq!(BootstrapRef::default().name, "");
}

#[test]
fn backends_have_wire_names() {
    let named = [
        (BackendType::K3s, "k3s"),
        (BackendType::K0s, "k0s"),
        (BackendType::Capi, "capi"),
        (BackendType::Vkobe, "vkobe"),
        (BackendType::Vcluster, "vcluster"),
    ];
    for (backend, name) in named {
        assert_eq!(backend.wire_name(), name);
    }
}

#[test]
fn what_is_left_out_has_its_default() {
    assert_eq!(profile::default_k8s_version(), "1.32");
    assert_eq!(
        profile::default_kcm_controllers(),
        [
            "deployment",
            "replicaset",
            "statefulset",
            "daemonset",
            "job",
            "cronjob",
            "namespace",
            "serviceaccount",
            "garbagecollector"
        ]
    );
    assert_eq!(profile::default_proxy_port(), 8443);
    assert_eq!(profile::default_metrics_port(), 9090);
    assert_eq!(profile::default_size(), 3);
    assert_eq!(profile::default_ttl(), "2h");
    assert_eq!(profile::default_servers(), 1);
    assert_eq!(profile::default_secret_key(), "connection-url");
    assert_eq!(profile::default_max_recycling(), 1);
    assert_eq!(profile::default_max_surge(), 1);
    assert_eq!(profile::default_health_interval(), 30);
    assert_eq!(profile::default_failure_threshold(), 3);
    assert_eq!(profile::default_min_ready(), 1);
    assert_eq!(profile::default_max_clusters(), 8);
    assert_eq!(profile::default_scale_down_after(), "5m");
    assert_eq!(profile::default_queue_timeout(), "5m");
    assert_eq!(profile::default_backoff_base(), "5s");
    assert_eq!(profile::default_backoff_multiplier(), 2);
    assert_eq!(profile::default_backoff_max(), "2m");
    assert_eq!(profile::default_retention_days(), 7);
    assert_eq!(profile::default_velero_ns(), "velero");
    assert_eq!(profile::default_storage_location(), "default");
    assert_eq!(profile::default_golden_prefix(), "golden");
    assert_eq!(profile::default_backup_ttl(), "720h");
    assert_eq!(auth_policy::default_identity_template(), "{sub}");
    assert_eq!(profile::default_log_lines(), 1000);
    assert_eq!(claim::default_priority(), 50);
    assert_eq!(lease::default_priority(), 50);
    assert_eq!(auth_policy::default_priority(), 50);
    assert_eq!(access_policy::default_max_extensions(), 2);
    assert_eq!(auth_policy::default_max_extensions(), 2);
    assert_eq!(access_policy::default_identity(), "{sub}");
    assert_eq!(access_policy::default_algorithms(), ["RS256"]);
    assert_eq!(auth_policy::default_algorithms(), ["RS256"]);
}
