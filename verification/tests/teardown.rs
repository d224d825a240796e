//! Verified teardown: manifests, receipts, plans and eligibility.

use kobe::crd::instance::ResourceRef;
use kobe::crd::profile::{
    default_log_lines, default_retention_days, default_servers, BackendType, ClusterConfig,
    DiagnosticsConfig, KubeletSharedMountConfig, PersistenceConfig, RegistryMirror,
};
use kobe::crd::teardown::{
    expected_identity_for, k3s_teardown_plan, verified_destroy_eligibility, CheckResult,
    CleanupMode, CreationControlRelation, CreationManifestInvalid, CreationManifestResource,
    DatastoreProvenance, KubernetesResourceIdentity, StorageVolumeProvenance, TeardownCheck,
    TeardownCreationManifest, TeardownOutcome, TeardownReceipt, TeardownScope, TeardownSubject,
    VerifiedDestroyIneligible, TEARDOWN_CREATION_MANIFEST_SCHEMA_VERSION,
    TEARDOWN_RECEIPT_SCHEMA_VERSION,
};

fn cluster() -> ClusterConfig {
    ClusterConfig {
        version: "v1.32.0".to_string(),
        servers: default_servers(),
        ..ClusterConfig::default()
    }
}

fn diagnostics(enabled: bool) -> DiagnosticsConfig {
    DiagnosticsConfig {
        enabled,
        storage: "s3://bucket/".to_string(),
        retention_days: default_retention_days(),
        log_lines: default_log_lines(),
        include_secrets: false,
    }
}

fn manifest_identity(
    api_version: &str,
    kind: &str,
    name: &str,
    uid: &str,
    namespaced: bool,
) -> KubernetesResourceIdentity {
    KubernetesResourceIdentity {
        api_version: api_version.into(),
        kind: kind.into(),
        namespace: if namespaced { Some("test-ns".into()) } else { None },
        name: name.into(),
        uid: uid.into(),
    }
}

fn manifest_entry(
    subject: TeardownSubject,
    api_version: &str,
    kind: &str,
    name: &str,
    uid: &str,
) -> CreationManifestResource {
    let (controller, control_relation) = match subject {
        TeardownSubject::ServerPods => (
            manifest_identity("apps/v1", "StatefulSet", "pool-p-0-server", "sts-uid", true),
            CreationControlRelation::ControllerOwner,
        ),
        _ => (
            manifest_identity(
                "kobe.kunobi.ninja/v1alpha1",
                "ClusterInstance",
                "pool-p-0",
                "instance-uid",
                true,
            ),
            CreationControlRelation::ControllerOwner,
        ),
    };
    CreationManifestResource {
        subject,
        resource: manifest_identity(api_version, kind, name, uid, true),
        controller,
        control_relation,
    }
}

fn minimal_creation_manifest() -> TeardownCreationManifest {
    TeardownCreationManifest {
        schema_version: TEARDOWN_CREATION_MANIFEST_SCHEMA_VERSION,
        instance: ResourceRef {
            name: "pool-p-0".into(),
            uid: Some("instance-uid".into()),
        },
        namespace: "test-ns".into(),
        backend_type: BackendType::K3s,
        config_digest: "a".repeat(64),
        service_cidr: "10.240.0.0/20".into(),
        cluster_cidr: "10.248.0.0/20".into(),
        server_replicas: 1,
        agent_replicas: 0,
        resources: vec![
            manifest_entry(
                TeardownSubject::ServerStatefulSet,
                "apps/v1",
                "StatefulSet",
                "pool-p-0-server",
                "sts-uid",
            ),
            manifest_entry(
                TeardownSubject::Service,
                "v1",
                "Service",
                "pool-p-0-server",
                "service-uid",
            ),
            manifest_entry(
                TeardownSubject::PublisherConfigMap,
                "v1",
                "ConfigMap",
                "pool-p-0-kubeconfig-publisher",
                "publisher-uid",
            ),
            manifest_entry(
                TeardownSubject::TokenSecret,
                "v1",
                "Secret",
                "pool-p-0-token",
                "token-uid",
            ),
            manifest_entry(
                TeardownSubject::KubeconfigSecret,
                "v1",
                "Secret",
                "pool-p-0-kubeconfig",
                "kubeconfig-uid",
            ),
            manifest_entry(
                TeardownSubject::CidrClaim,
                "kobe.kunobi.ninja/v1alpha1",
                "CIDRClaim",
                "pool-p-0",
                "cidr-uid",
            ),
            manifest_entry(
                TeardownSubject::ServerPods,
                "v1",
                "Pod",
                "pool-p-0-server-0",
                "pod-uid",
            ),
        ],
        storage: Vec::new(),
        datastore: DatastoreProvenance::EmbeddedSqlite,
        sealed_at: "2026-01-01T00:00:00Z".into(),
    }
}

#[test]
fn creation_manifest_accepts_absent_optional_footprints() {
    let manifest = minimal_creation_manifest();
    assert!(manifest.validate().is_ok());
    let subjects = manifest.required_subjects();
    for absent in [
        TeardownSubject::AgentDeployment,
        TeardownSubject::PodDisruptionBudget,
        TeardownSubject::RegistriesConfigMap,
        TeardownSubject::ConnectTokenSecret,
        TeardownSubject::DatastoreCredentialSecret,
        TeardownSubject::ServerDataPvcs,
        TeardownSubject::ServerDataVolumes,
        TeardownSubject::Database,
        TeardownSubject::DatabaseRole,
    ] {
        assert!(!subjects.contains(&absent), "{absent:?} was not created");
    }
}

#[test]
fn instance_manifest_rejects_a_lease_scoped_connect_token() {
    let mut manifest = minimal_creation_manifest();
    manifest.resources.push(manifest_entry(
        TeardownSubject::ConnectTokenSecret,
        "v1",
        "Secret",
        "lease-a-connect-token",
        "connect-token-uid",
    ));
    assert_eq!(
        manifest.validate(),
        Err(CreationManifestInvalid::IncompleteIdentity),
        "the lease controller must seal the lazy token under its lease name"
    );
}

#[test]
fn creation_manifest_rejects_omission_duplicate_and_wrong_multiplicity() {
    let mut omitted = minimal_creation_manifest();
    omitted
        .resources
        .retain(|entry| entry.subject != TeardownSubject::TokenSecret);
    assert_eq!(
        omitted.validate(),
        Err(CreationManifestInvalid::MultiplicityMismatch)
    );

    let mut duplicate = minimal_creation_manifest();
    duplicate.resources.push(duplicate.resources[0].clone());
    assert_eq!(
        duplicate.validate(),
        Err(CreationManifestInvalid::DuplicateResource)
    );

    let mut recreated_duplicate = minimal_creation_manifest();
    let mut second_incarnation = recreated_duplicate.resources[0].clone();
    second_incarnation.resource.uid = "replacement-sts-uid".into();
    recreated_duplicate.resources.push(second_incarnation);
    recreated_duplicate.server_replicas = 2;
    assert_eq!(
        recreated_duplicate.validate(),
        Err(CreationManifestInvalid::DuplicateResource),
        "two UIDs for one Kubernetes address are not two replicas"
    );

    let mut wrong_replicas = minimal_creation_manifest();
    wrong_replicas.server_replicas = 2;
    assert_eq!(
        wrong_replicas.validate(),
        Err(CreationManifestInvalid::MultiplicityMismatch)
    );
}

#[test]
fn creation_manifest_requires_complete_dynamic_storage_provenance() {
    let mut manifest = minimal_creation_manifest();
    let pvc = manifest_identity(
        "v1",
        "PersistentVolumeClaim",
        "data-pool-p-0-server-0",
        "pvc-uid",
        true,
    );
    let pv = manifest_identity("v1", "PersistentVolume", "pv-a", "pv-uid", false);
    let storage_class = manifest_identity(
        "storage.k8s.io/v1",
        "StorageClass",
        "fast-delete",
        "sc-uid",
        false,
    );
    manifest.resources.push(CreationManifestResource {
        subject: TeardownSubject::ServerDataPvcs,
        resource: pvc.clone(),
        controller: manifest_identity(
            "kobe.kunobi.ninja/v1alpha1",
            "ClusterInstance",
            "pool-p-0",
            "instance-uid",
            true,
        ),
        control_relation: CreationControlRelation::InstanceUidLabel,
    });
    manifest.resources.push(CreationManifestResource {
        subject: TeardownSubject::ServerDataVolumes,
        resource: pv.clone(),
        controller: pvc.clone(),
        control_relation: CreationControlRelation::ClaimRef,
    });
    manifest.storage.push(StorageVolumeProvenance {
        pvc,
        pv,
        storage_class,
        reclaim_policy: "Delete".into(),
        pv_reclaim_policy: "Delete".into(),
    });
    assert!(manifest.validate().is_ok());

    let mut retained = manifest.clone();
    retained.storage[0].pv_reclaim_policy = "Retain".into();
    assert_eq!(
        retained.validate(),
        Err(CreationManifestInvalid::StorageUnverifiable)
    );

    let mut unrecorded = manifest;
    unrecorded.storage[0].pv.uid = "unrecorded-pv-uid".into();
    assert_eq!(
        unrecorded.validate(),
        Err(CreationManifestInvalid::IncompleteIdentity),
        "the PV claimRef control edge must match the exact recorded PV/PVC pair"
    );
}

#[test]
fn external_datastore_requires_exact_database_role_and_secret() {
    let mut manifest = minimal_creation_manifest();
    manifest.datastore = DatastoreProvenance::ExternalPostgres {
        endpoint_digest: "b".repeat(64),
        system_identifier: "72623859790382856".into(),
        database: "k3s_pool_p_0".into(),
        database_oid: "16384".into(),
        role: "k3s_pool_p_0".into(),
        role_oid: "16385".into(),
    };
    assert_eq!(
        manifest.validate(),
        Err(CreationManifestInvalid::DatastoreUnverifiable)
    );

    manifest.resources.push(manifest_entry(
        TeardownSubject::DatastoreCredentialSecret,
        "v1",
        "Secret",
        "pool-p-0-datastore",
        "datastore-secret-uid",
    ));
    assert!(manifest.validate().is_ok());
    let exact_database_identity = manifest
        .identities_for_subject(TeardownSubject::Database)
        .pop()
        .unwrap();
    assert!(exact_database_identity.starts_with(
        "postgres:72623859790382856:bbbbbbbbbbbbbbbbbbbbbbbbbbbbbbbbbbbbbbbbbbbbbbbbbbbbbbbbbbbbbbbb:database:"
    ));
    assert!(
        manifest
            .required_subjects()
            .contains(&TeardownSubject::Database)
    );
    assert!(
        manifest
            .required_subjects()
            .contains(&TeardownSubject::DatabaseRole)
    );

    let mut missing_cluster_identity = manifest.clone();
    let DatastoreProvenance::ExternalPostgres {
        system_identifier, ..
    } = &mut missing_cluster_identity.datastore
    else {
        unreachable!();
    };
    *system_identifier = "0".into();
    assert_eq!(
        missing_cluster_identity.validate(),
        Err(CreationManifestInvalid::DatastoreUnverifiable)
    );

    let mut replacement_cluster = manifest.clone();
    let DatastoreProvenance::ExternalPostgres {
        system_identifier, ..
    } = &mut replacement_cluster.datastore
    else {
        unreachable!();
    };
    *system_identifier = "72623859790382857".into();
    assert_ne!(
        manifest.digest().unwrap(),
        replacement_cluster.digest().unwrap()
    );
    assert_ne!(
        manifest.identities_for_subject(TeardownSubject::Database),
        replacement_cluster.identities_for_subject(TeardownSubject::Database)
    );
}

#[test]
fn manifest_digest_changes_when_a_same_named_resource_is_recreated() {
    let original = minimal_creation_manifest();
    let mut recreated = original.clone();
    recreated.resources[0].resource.uid = "replacement-sts-uid".into();
    assert_ne!(original.digest().unwrap(), recreated.digest().unwrap());
}

#[test]
fn ephemeral_k3s_with_recorded_datastore_is_eligible() {
    assert!(verified_destroy_eligibility(&BackendType::K3s, &cluster(), None, true).is_ok());
}

#[test]
fn unverifiable_footprints_are_rejected_before_binding() {
    let mut shared_mount = cluster();
    shared_mount.kubelet_shared_mount = Some(KubeletSharedMountConfig {
        server: true,
        agents: true,
    });
    assert_eq!(
        verified_destroy_eligibility(&BackendType::K3s, &shared_mount, None, true).unwrap_err(),
        VerifiedDestroyIneligible::KubeletSharedMount
    );

    let capture = diagnostics(true);
    assert_eq!(
        verified_destroy_eligibility(&BackendType::K3s, &cluster(), Some(&capture), true)
            .unwrap_err(),
        VerifiedDestroyIneligible::DiagnosticsEnabled
    );

    let mut retained = cluster();
    retained.persistence = Some(PersistenceConfig {
        storage_type: Some("hostPath".into()),
        storage_class_name: None,
        storage_request_size: None,
    });
    assert_eq!(
        verified_destroy_eligibility(&BackendType::K3s, &retained, None, true).unwrap_err(),
        VerifiedDestroyIneligible::UnverifiableStorage
    );

    assert_eq!(
        verified_destroy_eligibility(&BackendType::K3s, &cluster(), None, false).unwrap_err(),
        VerifiedDestroyIneligible::DatastoreProvenanceMissing
    );
}

#[test]
fn the_plan_covers_exactly_what_this_config_creates() {
    // Minimal ephemeral cluster, no datastore.
    let minimal = cluster();
    let plan = k3s_teardown_plan(&minimal, false);

    // Always built.
    for required in [
        TeardownSubject::ServerStatefulSet,
        TeardownSubject::ServerPods,
        TeardownSubject::Service,
        TeardownSubject::TokenSecret,
        TeardownSubject::KubeconfigSecret,
        TeardownSubject::CidrClaim,
        TeardownSubject::ConnectTokenSecret,
    ] {
        assert!(plan.contains(&required), "{required:?} is always created");
    }
    // Never built by this config, and therefore not something a receipt
    // has to excuse. Absent from the plan, not marked NotApplicable.
    for absent in [
        TeardownSubject::AgentDeployment,
        TeardownSubject::PodDisruptionBudget,
        TeardownSubject::RegistriesConfigMap,
        TeardownSubject::DatastoreCredentialSecret,
        TeardownSubject::ServerDataPvcs,
        TeardownSubject::ServerDataVolumes,
        TeardownSubject::Database,
        TeardownSubject::DatabaseRole,
    ] {
        assert!(!plan.contains(&absent), "{absent:?} was never created");
    }
}

#[test]
fn paired_footprints_are_never_planned_alone() {
    let mut persistent = cluster();
    persistent.servers = 3;
    persistent.agents = Some(2);
    persistent.persistence = Some(PersistenceConfig {
        storage_type: Some("dynamic".into()),
        storage_class_name: None,
        storage_request_size: None,
    });
    persistent.registry_mirrors = Some(vec![RegistryMirror {
        registry: "docker.io".into(),
        endpoints: vec!["https://mirror.example".into()],
    }]);
    let plan = k3s_teardown_plan(&persistent, true);

    assert!(plan.contains(&TeardownSubject::ServerDataPvcs));
    assert!(
        plan.contains(&TeardownSubject::ServerDataVolumes),
        "a claim without its volume proves only that the pointer is gone"
    );
    assert!(plan.contains(&TeardownSubject::Database));
    assert!(plan.contains(&TeardownSubject::DatastoreCredentialSecret));
    assert!(
        plan.contains(&TeardownSubject::DatabaseRole),
        "a database without its role leaves credentials behind"
    );
    // Config-gated extras now present.
    assert!(plan.contains(&TeardownSubject::AgentDeployment));
    assert!(plan.contains(&TeardownSubject::PodDisruptionBudget));
    assert!(plan.contains(&TeardownSubject::RegistriesConfigMap));
}

#[test]
fn single_server_ephemeral_pools_plan_no_pdb_or_volumes() {
    let mut single = cluster();
    single.servers = 1;
    single.persistence = Some(PersistenceConfig {
        storage_type: Some("emptyDir".into()),
        storage_class_name: None,
        storage_request_size: None,
    });
    let plan = k3s_teardown_plan(&single, false);
    assert!(!plan.contains(&TeardownSubject::PodDisruptionBudget));
    assert!(!plan.contains(&TeardownSubject::ServerDataPvcs));
    assert!(!plan.contains(&TeardownSubject::ServerDataVolumes));
}

#[test]
fn only_k3s_can_promise_verified_teardown() {
    for backend in [
        BackendType::K0s,
        BackendType::Capi,
        BackendType::Vkobe,
        BackendType::Vcluster,
    ] {
        assert_eq!(
            verified_destroy_eligibility(&backend, &cluster(), None, true).unwrap_err(),
            VerifiedDestroyIneligible::UnsupportedBackend,
            "{backend:?} cannot produce a receipt and must be refused"
        );
    }
    assert!(verified_destroy_eligibility(&BackendType::K3s, &cluster(), None, true).is_ok());
}

#[test]
fn disabled_diagnostics_stays_eligible() {
    let disabled = diagnostics(false);
    assert!(
        verified_destroy_eligibility(&BackendType::K3s, &cluster(), Some(&disabled), true)
            .is_ok()
    );
}

#[test]
fn one_unknown_quarantines_the_whole_attempt() {
    let verified = TeardownCheck {
        subject: TeardownSubject::ServerStatefulSet,
        result: CheckResult::Verified,
        reason: None,
        verified: Vec::new(),
    };
    let not_applicable = TeardownCheck {
        subject: TeardownSubject::RegistriesConfigMap,
        result: CheckResult::NotApplicable,
        reason: None,
        verified: Vec::new(),
    };
    let unknown = TeardownCheck {
        subject: TeardownSubject::Database,
        result: CheckResult::Unknown,
        reason: Some("datastore_unreachable".into()),
        verified: Vec::new(),
    };

    assert_eq!(
        TeardownReceipt::outcome_for(&[verified.clone(), not_applicable.clone()]),
        TeardownOutcome::Verified
    );
    assert_eq!(
        TeardownReceipt::outcome_for(&[verified, not_applicable, unknown]),
        TeardownOutcome::Quarantined
    );
}

fn receipt(checks: Vec<TeardownCheck>, outcome: TeardownOutcome) -> TeardownReceipt {
    TeardownReceipt {
        schema_version: TEARDOWN_RECEIPT_SCHEMA_VERSION,
        attempt_id: "attempt-1".into(),
        lease: ResourceRef {
            name: "lease-a".into(),
            uid: Some("lease-uid".into()),
        },
        instance: ResourceRef {
            name: "pool-p-0".into(),
            uid: Some("instance-uid".into()),
        },
        pool: ResourceRef {
            name: "p".into(),
            uid: Some("pool-uid".into()),
        },
        backend_type: "k3s".into(),
        config_digest: "digest".into(),
        instance_spec_digest: "spec-digest".into(),
        creation_manifest_digest: "manifest-digest".into(),
        cleanup_mode: CleanupMode::VerifiedDestroy,
        started_at: "2026-01-01T00:00:00Z".into(),
        completed_at: Some("2026-01-01T00:01:00Z".into()),
        checks,
        retry_count: 0,
        outcome,
    }
}

fn check(subject: TeardownSubject, result: CheckResult) -> TeardownCheck {
    TeardownCheck {
        subject,
        result,
        reason: None,
        // Name what a real provider would have named, so these fixtures
        // satisfy the identity comparison the way production does.
        verified: expected_identity_for(subject, "pool-p-0")
            .into_iter()
            .collect(),
    }
}

type ReceiptMutation = Box<dyn Fn(&mut TeardownReceipt)>;

#[test]
fn acknowledgement_token_is_bound_to_the_entire_verified_receipt() {
    let base = receipt(
        vec![check(
            TeardownSubject::ServerStatefulSet,
            CheckResult::Verified,
        )],
        TeardownOutcome::Verified,
    );
    let token = base
        .acknowledgement_token()
        .expect("a complete verified receipt has an ACK token");

    let mutations: Vec<ReceiptMutation> = vec![
        Box::new(|receipt| receipt.attempt_id = "attempt-2".into()),
        Box::new(|receipt| receipt.creation_manifest_digest = "other-manifest".into()),
        Box::new(|receipt| receipt.lease.uid = Some("other-lease".into())),
        Box::new(|receipt| receipt.instance.uid = Some("other-instance".into())),
        Box::new(|receipt| receipt.pool.uid = Some("other-pool".into())),
        Box::new(|receipt| receipt.checks[0].verified.push("extra-object".into())),
        Box::new(|receipt| receipt.completed_at = Some("2026-01-01T00:02:00Z".into())),
    ];
    for mutate in mutations {
        let mut changed = base.clone();
        mutate(&mut changed);
        assert_ne!(
            changed.acknowledgement_token().as_deref(),
            Some(token.as_str())
        );
    }

    let mut standard = base.clone();
    standard.cleanup_mode = CleanupMode::Standard;
    assert!(standard.acknowledgement_token().is_none());
    let mut quarantined = base;
    quarantined.outcome = TeardownOutcome::Quarantined;
    assert!(quarantined.acknowledgement_token().is_none());
}

#[test]
fn manifest_control_identity_cannot_be_substituted() {
    let manifest = minimal_creation_manifest();
    assert!(manifest.validate().is_ok());

    let mut foreign_controller = manifest.clone();
    foreign_controller.resources[0].controller.uid = "foreign-instance-uid".into();
    assert_eq!(
        foreign_controller.validate(),
        Err(CreationManifestInvalid::IncompleteIdentity)
    );

    let mut wrong_relation = manifest;
    wrong_relation.resources[0].control_relation = CreationControlRelation::InstanceUidLabel;
    assert_eq!(
        wrong_relation.validate(),
        Err(CreationManifestInvalid::IncompleteIdentity)
    );
}

fn lease_ref() -> ResourceRef {
    ResourceRef {
        name: "lease-a".into(),
        uid: Some("lease-uid".into()),
    }
}
fn instance_ref() -> ResourceRef {
    ResourceRef {
        name: "pool-p-0".into(),
        uid: Some("instance-uid".into()),
    }
}
fn pool_ref() -> ResourceRef {
    ResourceRef {
        name: "p".into(),
        uid: Some("pool-uid".into()),
    }
}

fn scope<'a>(
    required: &'a [TeardownSubject],
    refs: &'a (ResourceRef, ResourceRef, ResourceRef),
) -> TeardownScope<'a> {
    TeardownScope {
        lease: &refs.0,
        instance: &refs.1,
        pool: &refs.2,
        backend_type: "k3s",
        config_digest: "digest",
        instance_spec_digest: "spec-digest",
        creation_manifest_digest: "manifest-digest",
        cleanup_mode: CleanupMode::VerifiedDestroy,
        attempt_id: "attempt-1",
        creation_manifest: None,
        connect_token_identity: None,
        required_subjects: required,
        instance_name: "pool-p-0",
        recorded_identities: &[],
    }
}

#[test]
fn concrete_identities_must_be_proven_under_their_own_subject() {
    let manifest = minimal_creation_manifest();
    let required = manifest.required_subjects();
    let recorded = manifest.recorded_identities();
    let manifest_digest = manifest.digest().unwrap();
    let refs = (lease_ref(), manifest.instance.clone(), pool_ref());
    let expected = TeardownScope {
        lease: &refs.0,
        instance: &refs.1,
        pool: &refs.2,
        backend_type: "k3s",
        config_digest: &manifest.config_digest,
        instance_spec_digest: "spec-digest",
        creation_manifest_digest: &manifest_digest,
        cleanup_mode: CleanupMode::VerifiedDestroy,
        attempt_id: "attempt-1",
        creation_manifest: Some(&manifest),
        connect_token_identity: None,
        required_subjects: &required,
        instance_name: "pool-p-0",
        recorded_identities: &recorded,
    };
    let checks: Vec<TeardownCheck> = required
        .iter()
        .map(|subject| TeardownCheck {
            subject: *subject,
            result: CheckResult::Verified,
            reason: None,
            verified: manifest.identities_for_subject(*subject),
        })
        .collect();
    let mut proof = receipt(checks, TeardownOutcome::Verified);
    proof.instance = manifest.instance.clone();
    proof.config_digest = manifest.config_digest.clone();
    proof.creation_manifest_digest = manifest_digest.clone();
    assert!(proof.permits_release_for(&expected));

    let statefulset = proof
        .checks
        .iter()
        .position(|check| check.subject == TeardownSubject::ServerStatefulSet)
        .unwrap();
    let service = proof
        .checks
        .iter()
        .position(|check| check.subject == TeardownSubject::Service)
        .unwrap();
    let statefulset_ids = proof.checks[statefulset].verified.clone();
    proof.checks[statefulset].verified = proof.checks[service].verified.clone();
    proof.checks[service].verified = statefulset_ids;
    assert!(
        !proof.permits_release_for(&expected),
        "flattened coverage must not let identities move between subjects"
    );

    let mut extra = receipt(
        required
            .iter()
            .map(|subject| TeardownCheck {
                subject: *subject,
                result: CheckResult::Verified,
                reason: None,
                verified: manifest.identities_for_subject(*subject),
            })
            .collect(),
        TeardownOutcome::Verified,
    );
    extra.instance = manifest.instance.clone();
    extra.config_digest = manifest.config_digest.clone();
    extra.creation_manifest_digest = manifest_digest.clone();
    extra.checks[0]
        .verified
        .push("invented-extra-identity".into());
    assert!(
        !extra.permits_release_for(&expected),
        "a manifest-bound receipt must prove exactly that subject's identities"
    );
}

#[test]
fn release_requires_the_exact_connect_token_and_cleanup_contract() {
    let manifest = minimal_creation_manifest();
    let manifest_digest = manifest.digest().unwrap();
    let token = manifest_identity(
        "v1",
        "Secret",
        "lease-a-connect-token",
        "connect-token-uid",
        true,
    );
    let mut required = manifest.required_subjects();
    required.push(TeardownSubject::ConnectTokenSecret);
    let mut recorded = manifest.recorded_identities();
    recorded.push(token.canonical_id());
    let refs = (lease_ref(), manifest.instance.clone(), pool_ref());
    let expected = TeardownScope {
        lease: &refs.0,
        instance: &refs.1,
        pool: &refs.2,
        backend_type: "k3s",
        config_digest: &manifest.config_digest,
        instance_spec_digest: "spec-digest",
        creation_manifest_digest: &manifest_digest,
        cleanup_mode: CleanupMode::VerifiedDestroy,
        attempt_id: "attempt-1",
        creation_manifest: Some(&manifest),
        connect_token_identity: Some(&token),
        required_subjects: &required,
        instance_name: "pool-p-0",
        recorded_identities: &recorded,
    };
    let mut checks: Vec<TeardownCheck> = manifest
        .required_subjects()
        .into_iter()
        .map(|subject| TeardownCheck {
            subject,
            result: CheckResult::Verified,
            reason: None,
            verified: manifest.identities_for_subject(subject),
        })
        .collect();
    checks.push(TeardownCheck {
        subject: TeardownSubject::ConnectTokenSecret,
        result: CheckResult::Verified,
        reason: None,
        verified: vec![token.canonical_id()],
    });
    let mut proof = receipt(checks, TeardownOutcome::Verified);
    proof.instance = manifest.instance.clone();
    proof.config_digest = manifest.config_digest.clone();
    proof.creation_manifest_digest = manifest_digest.clone();
    assert!(proof.permits_release_for(&expected));

    let token_check = proof
        .checks
        .iter_mut()
        .find(|check| check.subject == TeardownSubject::ConnectTokenSecret)
        .unwrap();
    token_check.verified = vec!["k8s:v1:Secret:test:lease-a-connect-token:replacement".into()];
    assert!(!proof.permits_release_for(&expected));

    let mut downgraded = expected;
    downgraded.cleanup_mode = CleanupMode::Standard;
    assert!(!proof.permits_release_for(&downgraded));
}

#[test]
fn release_is_bound_to_exact_attempt_manifest_and_ordered_rfc3339_time() {
    let refs = (lease_ref(), instance_ref(), pool_ref());
    let required = [TeardownSubject::ServerStatefulSet];
    let valid = receipt(
        vec![check(
            TeardownSubject::ServerStatefulSet,
            CheckResult::Verified,
        )],
        TeardownOutcome::Verified,
    );
    assert!(valid.permits_release_for(&scope(&required, &refs)));

    let mut wrong_attempt = valid.clone();
    wrong_attempt.attempt_id = "attempt-2".into();
    assert!(!wrong_attempt.permits_release_for(&scope(&required, &refs)));

    let mut wrong_manifest = valid.clone();
    wrong_manifest.creation_manifest_digest = "other-manifest".into();
    assert!(!wrong_manifest.permits_release_for(&scope(&required, &refs)));

    let mut equal = valid.clone();
    equal.completed_at = Some(equal.started_at.clone());
    assert!(!equal.permits_release_for(&scope(&required, &refs)));

    let mut before = valid.clone();
    before.completed_at = Some("2025-12-31T23:59:59Z".into());
    assert!(!before.permits_release_for(&scope(&required, &refs)));

    let mut malformed = valid;
    malformed.completed_at = Some("later".into());
    assert!(!malformed.permits_release_for(&scope(&required, &refs)));
}

#[test]
fn partial_evidence_cannot_release_capacity() {
    let refs = (lease_ref(), instance_ref(), pool_ref());
    let required = [
        TeardownSubject::ServerStatefulSet,
        TeardownSubject::Database,
        TeardownSubject::KubeconfigSecret,
    ];

    // Every required subject positively verified.
    let complete = receipt(
        vec![
            check(TeardownSubject::ServerStatefulSet, CheckResult::Verified),
            check(TeardownSubject::Database, CheckResult::Verified),
            check(TeardownSubject::KubeconfigSecret, CheckResult::Verified),
        ],
        TeardownOutcome::Verified,
    );
    assert!(complete.permits_release_for(&scope(&required, &refs)));

    // NotApplicable must NOT satisfy a subject the scope says was created:
    // otherwise a receipt marks the database "never existed" and releases
    // the lease anyway. A genuinely absent footprint belongs out of the
    // scope, not explained away inside the receipt.
    let excused = receipt(
        vec![
            check(TeardownSubject::ServerStatefulSet, CheckResult::Verified),
            check(TeardownSubject::Database, CheckResult::NotApplicable),
            check(TeardownSubject::KubeconfigSecret, CheckResult::Verified),
        ],
        TeardownOutcome::Verified,
    );
    assert!(
        !excused.permits_release_for(&scope(&required, &refs)),
        "NotApplicable cannot stand in for a subject the scope says was created"
    );

    // One subject simply missing.
    let partial = receipt(
        vec![
            check(TeardownSubject::ServerStatefulSet, CheckResult::Verified),
            check(TeardownSubject::Database, CheckResult::Verified),
        ],
        TeardownOutcome::Verified,
    );
    assert!(
        !partial.permits_release_for(&scope(&required, &refs)),
        "a receipt that omits a required subject must not release capacity"
    );

    // Duplicates must not let a second opinion hide behind the first.
    let duplicated = receipt(
        vec![
            check(TeardownSubject::ServerStatefulSet, CheckResult::Verified),
            check(TeardownSubject::ServerStatefulSet, CheckResult::Verified),
            check(TeardownSubject::Database, CheckResult::Verified),
        ],
        TeardownOutcome::Verified,
    );
    assert!(!duplicated.permits_release_for(&scope(&required, &refs)));

    // An empty plan is not a clean bill of health.
    assert!(!complete.permits_release_for(&scope(&[], &refs)));
}

#[test]
fn a_check_naming_the_wrong_resource_does_not_release() {
    let refs = (lease_ref(), instance_ref(), pool_ref());
    let required = [TeardownSubject::ServerStatefulSet];

    let correct = receipt(
        vec![check(
            TeardownSubject::ServerStatefulSet,
            CheckResult::Verified,
        )],
        TeardownOutcome::Verified,
    );
    assert!(correct.permits_release_for(&scope(&required, &refs)));

    // Right category, wrong object: another instance's StatefulSet.
    let wrong = receipt(
        vec![TeardownCheck {
            subject: TeardownSubject::ServerStatefulSet,
            result: CheckResult::Verified,
            reason: None,
            verified: vec!["some-other-instance-server".into()],
        }],
        TeardownOutcome::Verified,
    );
    assert!(
        !wrong.permits_release_for(&scope(&required, &refs)),
        "a check must name the resource its subject designates"
    );

    // Claiming the category with no identity at all is equally unproven.
    let unnamed = receipt(
        vec![TeardownCheck {
            subject: TeardownSubject::ServerStatefulSet,
            result: CheckResult::Verified,
            reason: None,
            verified: Vec::new(),
        }],
        TeardownOutcome::Verified,
    );
    assert!(!unnamed.permits_release_for(&scope(&required, &refs)));
}

#[test]
fn every_recorded_identity_must_be_proven_absent() {
    let refs = (lease_ref(), instance_ref(), pool_ref());
    let required = [TeardownSubject::ServerDataVolumes];
    let recorded = vec!["pvc-aaa".to_string(), "pvc-bbb".to_string()];

    let volumes_check = |names: Vec<&str>| TeardownCheck {
        subject: TeardownSubject::ServerDataVolumes,
        result: CheckResult::Verified,
        reason: None,
        verified: names.into_iter().map(String::from).collect(),
    };
    let with_recorded = |identities: &'static [String]| TeardownScope {
        lease: &refs.0,
        instance: &refs.1,
        pool: &refs.2,
        backend_type: "k3s",
        config_digest: "digest",
        instance_spec_digest: "spec-digest",
        creation_manifest_digest: "manifest-digest",
        cleanup_mode: CleanupMode::VerifiedDestroy,
        attempt_id: "attempt-1",
        creation_manifest: None,
        connect_token_identity: None,
        required_subjects: &required,
        instance_name: "pool-p-0",
        recorded_identities: identities,
    };
    // Leaked to satisfy the 'static bound in this helper; test-only.
    let recorded_static: &'static [String] = Box::leak(recorded.clone().into_boxed_slice());

    // Both volumes proven: releases.
    let complete = receipt(
        vec![volumes_check(vec!["pvc-aaa", "pvc-bbb"])],
        TeardownOutcome::Verified,
    );
    assert!(complete.permits_release_for(&with_recorded(recorded_static)));

    // One volume unaccounted for: must not release.
    let partial = receipt(
        vec![volumes_check(vec!["pvc-aaa"])],
        TeardownOutcome::Verified,
    );
    assert!(
        !partial.permits_release_for(&with_recorded(recorded_static)),
        "a volume recorded at Ready but never proven absent must block release"
    );
}

#[test]
fn provisioner_assigned_subjects_are_not_name_checked() {
    assert!(expected_identity_for(TeardownSubject::ServerDataVolumes, "pool-p-0").is_none());
    assert!(expected_identity_for(TeardownSubject::ServerPods, "pool-p-0").is_none());
    assert_eq!(
        expected_identity_for(TeardownSubject::Database, "pool-p-0").as_deref(),
        Some("database:k3s_pool-p-0")
    );
}

#[test]
fn a_receipt_cannot_be_replayed_against_another_subject() {
    let refs = (lease_ref(), instance_ref(), pool_ref());
    let required = [TeardownSubject::ServerStatefulSet];
    let valid = receipt(
        vec![check(
            TeardownSubject::ServerStatefulSet,
            CheckResult::Verified,
        )],
        TeardownOutcome::Verified,
    );
    assert!(valid.permits_release_for(&scope(&required, &refs)));

    // Same name, different UID: a replacement object.
    let replaced = (
        lease_ref(),
        ResourceRef {
            name: "pool-p-0".into(),
            uid: Some("replacement-instance-uid".into()),
        },
        pool_ref(),
    );
    assert!(
        !valid.permits_release_for(&scope(&required, &replaced)),
        "a same-named replacement is a different subject"
    );

    // Drifted provenance must also refuse.
    let mut drifted = scope(&required, &refs);
    drifted.config_digest = "other-digest";
    assert!(!valid.permits_release_for(&drifted));

    // A reference with no UID cannot fence anything: two `None`s compare
    // equal, so this would otherwise "match" any same-named object.
    let unfenced_refs = (
        lease_ref(),
        ResourceRef {
            name: "pool-p-0".into(),
            uid: None,
        },
        pool_ref(),
    );
    let mut unfenced = receipt(
        vec![check(
            TeardownSubject::ServerStatefulSet,
            CheckResult::Verified,
        )],
        TeardownOutcome::Verified,
    );
    unfenced.instance = ResourceRef {
        name: "pool-p-0".into(),
        uid: None,
    };
    assert!(
        !unfenced.permits_release_for(&scope(&required, &unfenced_refs)),
        "a receipt without UIDs must never release capacity"
    );
}

#[test]
fn release_requires_evidence_that_matches_the_verdict() {
    let refs = (lease_ref(), instance_ref(), pool_ref());
    let required = [
        TeardownSubject::ServerStatefulSet,
        TeardownSubject::Database,
    ];

    // Verdict claims success while the evidence says otherwise.
    let contradicted = receipt(
        vec![
            check(TeardownSubject::ServerStatefulSet, CheckResult::Verified),
            check(TeardownSubject::Database, CheckResult::Unknown),
        ],
        TeardownOutcome::Verified,
    );
    assert!(
        !contradicted.permits_release_for(&scope(&required, &refs)),
        "a Verified verdict must not override an Unknown check"
    );

    let good = vec![
        check(TeardownSubject::ServerStatefulSet, CheckResult::Verified),
        check(TeardownSubject::Database, CheckResult::Verified),
    ];

    // An unrecognised schema must not be read as complete.
    let mut future = receipt(good.clone(), TeardownOutcome::Verified);
    future.schema_version = TEARDOWN_RECEIPT_SCHEMA_VERSION + 1;
    assert!(!future.permits_release_for(&scope(&required, &refs)));

    // An attempt that never finished is not proof.
    let mut unfinished = receipt(good, TeardownOutcome::Verified);
    unfinished.completed_at = None;
    assert!(!unfinished.permits_release_for(&scope(&required, &refs)));
}

#[test]
fn standard_cleanup_is_the_default_and_needs_no_receipt() {
    assert_eq!(CleanupMode::default(), CleanupMode::Standard);
    assert!(!CleanupMode::Standard.requires_receipt());
    assert!(CleanupMode::VerifiedDestroy.requires_receipt());
}

#[test]
fn the_manifest_text_is_compact_and_leaves_out_what_is_absent() {
    let pod = manifest_identity("v1", "Pod", "pod-\"0\"", "pod-uid", true);
    let volume = manifest_identity("v1", "PersistentVolume", "pv-a", "pv-uid", false);
    let mut manifest = minimal_creation_manifest();
    manifest.config_digest = "abc".into();
    manifest.resources = vec![CreationManifestResource {
        subject: TeardownSubject::ServerPods,
        resource: pod.clone(),
        controller: volume.clone(),
        control_relation: CreationControlRelation::ClaimRef,
    }];
    let text = "{\"schemaVersion\":1,\"instance\":{\"name\":\"pool-p-0\",\"uid\":\"instance-uid\"},\"namespace\":\"test-ns\",\"backendType\":\"k3s\",\"configDigest\":\"abc\",\"serviceCidr\":\"10.240.0.0/20\",\"clusterCidr\":\"10.248.0.0/20\",\"serverReplicas\":1,\"agentReplicas\":0,\"resources\":[{\"subject\":\"serverPods\",\"resource\":{\"apiVersion\":\"v1\",\"kind\":\"Pod\",\"namespace\":\"test-ns\",\"name\":\"pod-\\\"0\\\"\",\"uid\":\"pod-uid\"},\"controller\":{\"apiVersion\":\"v1\",\"kind\":\"PersistentVolume\",\"name\":\"pv-a\",\"uid\":\"pv-uid\"},\"controlRelation\":\"claimRef\"}],\"datastore\":{\"mode\":\"embeddedSqlite\"},\"sealedAt\":\"2026-01-01T00:00:00Z\"}";
    assert_eq!(manifest.to_json(), text);
    assert_eq!(
        manifest.digest().unwrap(),
        kobe::digest::sha256_hex_of(text.as_bytes())
    );

    manifest.resources.clear();
    manifest.instance.uid = None;
    manifest.storage = vec![StorageVolumeProvenance {
        pvc: pod.clone(),
        pv: volume.clone(),
        storage_class: volume.clone(),
        reclaim_policy: "Delete".into(),
        pv_reclaim_policy: "Retain".into(),
    }];
    manifest.datastore = DatastoreProvenance::ExternalPostgres {
        endpoint_digest: "e".into(),
        system_identifier: "s".into(),
        database: "d".into(),
        database_oid: "1".into(),
        role: "r".into(),
        role_oid: "2".into(),
    };
    assert_eq!(manifest.to_json(), "{\"schemaVersion\":1,\"instance\":{\"name\":\"pool-p-0\"},\"namespace\":\"test-ns\",\"backendType\":\"k3s\",\"configDigest\":\"abc\",\"serviceCidr\":\"10.240.0.0/20\",\"clusterCidr\":\"10.248.0.0/20\",\"serverReplicas\":1,\"agentReplicas\":0,\"resources\":[],\"storage\":[{\"pvc\":{\"apiVersion\":\"v1\",\"kind\":\"Pod\",\"namespace\":\"test-ns\",\"name\":\"pod-\\\"0\\\"\",\"uid\":\"pod-uid\"},\"pv\":{\"apiVersion\":\"v1\",\"kind\":\"PersistentVolume\",\"name\":\"pv-a\",\"uid\":\"pv-uid\"},\"storageClass\":{\"apiVersion\":\"v1\",\"kind\":\"PersistentVolume\",\"name\":\"pv-a\",\"uid\":\"pv-uid\"},\"reclaimPolicy\":\"Delete\",\"pvReclaimPolicy\":\"Retain\"}],\"datastore\":{\"mode\":\"externalPostgres\",\"endpoint_digest\":\"e\",\"system_identifier\":\"s\",\"database\":\"d\",\"database_oid\":\"1\",\"role\":\"r\",\"role_oid\":\"2\"},\"sealedAt\":\"2026-01-01T00:00:00Z\"}");
}

#[test]
fn manifests_that_differ_have_different_texts() {
    let base = minimal_creation_manifest();
    let mut texts = vec![base.to_json()];
    let mutations: Vec<Box<dyn Fn(&mut TeardownCreationManifest)>> = vec![
        Box::new(|manifest| manifest.instance.uid = None),
        Box::new(|manifest| manifest.instance.uid = Some(String::new())),
        Box::new(|manifest| manifest.resources[0].resource.namespace = None),
        Box::new(|manifest| manifest.resources[0].resource.namespace = Some(String::new())),
        Box::new(|manifest| manifest.resources[0].subject = TeardownSubject::AgentDeployment),
        Box::new(|manifest| {
            manifest.resources[0].control_relation = CreationControlRelation::InstanceUidLabel
        }),
        Box::new(|manifest| {
            manifest.resources.pop();
        }),
        Box::new(|manifest| manifest.resources.swap(0, 1)),
        Box::new(|manifest| manifest.namespace = "test-ns\",\"backendType\":\"k0s".into()),
        Box::new(|manifest| manifest.server_replicas = 10),
        Box::new(|manifest| manifest.agent_replicas = 10),
        Box::new(|manifest| manifest.backend_type = BackendType::K0s),
    ];
    for mutate in mutations {
        let mut changed = base.clone();
        mutate(&mut changed);
        let text = changed.to_json();
        assert!(!texts.contains(&text), "{text}");
        texts.push(text);
    }
}

#[test]
fn the_receipt_text_is_compact_and_leaves_out_what_is_absent() {
    let mut record = receipt(
        vec![
            TeardownCheck {
                subject: TeardownSubject::ServerStatefulSet,
                result: CheckResult::Verified,
                reason: None,
                verified: vec!["a".into(), "b".into()],
            },
            TeardownCheck {
                subject: TeardownSubject::CidrClaim,
                result: CheckResult::NotApplicable,
                reason: Some("never built".into()),
                verified: vec![],
            },
        ],
        TeardownOutcome::Verified,
    );
    let head = "{\"schemaVersion\":1,\"attemptId\":\"attempt-1\",\"lease\":{\"name\":\"lease-a\",\"uid\":\"lease-uid\"},\"instance\":{\"name\":\"pool-p-0\",\"uid\":\"instance-uid\"},\"pool\":{\"name\":\"p\",\"uid\":\"pool-uid\"},\"backendType\":\"k3s\",\"configDigest\":\"digest\",\"instanceSpecDigest\":\"spec-digest\",\"creationManifestDigest\":\"manifest-digest\",\"cleanupMode\":\"VerifiedDestroy\",\"startedAt\":\"2026-01-01T00:00:00Z\"";
    let checks = "\"checks\":[{\"subject\":\"serverStatefulSet\",\"result\":\"verified\",\"verified\":[\"a\",\"b\"]},{\"subject\":\"cidrClaim\",\"result\":\"notApplicable\",\"reason\":\"never built\"}]";
    let text = format!(
        "{head},\"completedAt\":\"2026-01-01T00:01:00Z\",{checks},\"retryCount\":0,\"outcome\":\"verified\"}}"
    );
    assert_eq!(record.to_json(), text);
    assert_eq!(
        record.acknowledgement_token().unwrap(),
        format!("sha256:{}", kobe::digest::sha256_hex_of(text.as_bytes()))
    );

    record.completed_at = None;
    record.retry_count = 3;
    record.outcome = TeardownOutcome::InProgress;
    assert_eq!(
        record.to_json(),
        format!("{head},{checks},\"retryCount\":3,\"outcome\":\"inProgress\"}}")
    );
}

#[test]
fn refusals_carry_their_code() {
    for (refusal, code) in [
        (VerifiedDestroyIneligible::UnsupportedBackend, "unsupported_backend"),
        (VerifiedDestroyIneligible::KubeletSharedMount, "kubelet_shared_mount"),
        (VerifiedDestroyIneligible::DiagnosticsEnabled, "diagnostics_enabled"),
        (VerifiedDestroyIneligible::UnverifiableStorage, "unverifiable_storage"),
        (
            VerifiedDestroyIneligible::DatastoreProvenanceMissing,
            "datastore_provenance_missing",
        ),
    ] {
        assert_eq!(refusal.reason_code(), code);
    }
}

#[test]
fn each_recorded_object_is_accounted_for_once() {
    let mut external = minimal_creation_manifest();
    external.datastore = DatastoreProvenance::ExternalPostgres {
        endpoint_digest: "b".repeat(64),
        system_identifier: "72623859790382856".into(),
        database: "k3s_pool_p_0".into(),
        database_oid: "16384".into(),
        role: "k3s_pool_p_0".into(),
        role_oid: "16385".into(),
    };
    external.resources.push(manifest_entry(
        TeardownSubject::DatastoreCredentialSecret,
        "v1",
        "Secret",
        "pool-p-0-datastore",
        "datastore-secret-uid",
    ));
    for (manifest, databases) in [(minimal_creation_manifest(), 0), (external, 2)] {
        assert!(manifest.validate().is_ok());
        let mut recorded = manifest.recorded_identities();
        assert_eq!(recorded.len(), manifest.resources.len() + databases);
        let mut of_subjects: Vec<String> = vec![];
        for subject in manifest.required_subjects() {
            of_subjects.extend(manifest.identities_for_subject(subject));
        }
        recorded.sort();
        of_subjects.sort();
        assert_eq!(of_subjects, recorded);
        recorded.dedup();
        assert_eq!(recorded, of_subjects);
    }
}

#[test]
fn entries_bear_the_names_that_checks_are_held_to() {
    let manifest = minimal_creation_manifest();
    for entry in &manifest.resources {
        assert!(manifest.resource_shape_matches(entry));
        if let Some(name) = expected_identity_for(entry.subject, "pool-p-0") {
            assert_eq!(entry.resource.name, name);
        }
        assert_eq!(entry.resource.namespace.as_deref(), Some("test-ns"));
    }
    for at in 0..manifest.resources.len() {
        let mut misnamed = manifest.clone();
        misnamed.resources[at].resource.name = "elsewhere".into();
        assert!(!misnamed.resource_shape_matches(&misnamed.resources[at]));
        assert_eq!(
            misnamed.validate(),
            Err(CreationManifestInvalid::IncompleteIdentity)
        );
        let mut misplaced = manifest.clone();
        misplaced.resources[at].resource.namespace = Some("other-ns".into());
        assert_eq!(
            misplaced.validate(),
            Err(CreationManifestInvalid::IncompleteIdentity)
        );
    }
}

#[test]
fn digests_have_their_form() {
    let lower_hex = |text: &str| {
        text.chars()
            .all(|c| c.is_ascii_digit() || ('a'..='f').contains(&c))
    };
    let verified = receipt(
        vec![check(
            TeardownSubject::ServerStatefulSet,
            CheckResult::Verified,
        )],
        TeardownOutcome::Verified,
    );
    let token = verified.acknowledgement_token().unwrap();
    assert_eq!(token.len(), 71);
    assert!(lower_hex(token.strip_prefix("sha256:").unwrap()));
    let digest = minimal_creation_manifest().digest().unwrap();
    assert_eq!(digest.len(), 64);
    assert!(lower_hex(&digest));
}
