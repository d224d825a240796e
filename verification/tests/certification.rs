//! Certification of a management pool: validators, and each step of an attempt.

use kobe::certification::attempt::{
    attempt_has_live_cleanup, check_release, initialized_status, reconcile_management_pool_certification,
    reduced_validation, validate_teardown_population, Attempt, ManagementPoolCertification,
    ManagementPoolCertificationProgress,
};
use kobe::certification::capacity::{
    identity_for_kind, plan_scale, read_dynamic_exact, reference_absent, scale_outcome, Absence,
    ExactRead, FencedWrite, ScalePlan, Written,
};
use kobe::certification::capture::{capture_claimed_workload, CaptureStage, CaptureStep};
use kobe::certification::captured::{
    captured_references, validate_captured_claim, validate_captured_identity,
    validate_captured_sandbox, validate_captured_storage,
};
use kobe::certification::census::{
    begin_management_population, validate_management_population, CensusAnswer, CensusStage,
    CensusStep, CensusSubject, ValidatedPopulation,
};
use kobe::certification::claim::{
    certification_claim, label_drift, normalize_claim_spec, validate_certification_claim,
};
use kobe::certification::fence::{
    certification_fence, fence_intact, fence_probe, fence_release_patch, read_fence_exact,
    verify_teardown_fence_enforcement,
};
use kobe::certification::fingerprint::certification_fingerprint;
use kobe::certification::identity::{
    dynamic_reference, exact_reference_matches, typed_reference, validate_pool_object_identity,
    validate_pool_objects, PoolProjection,
};
use kobe::certification::names::{
    certification_claim_name, fence_name, has_fence_name, management_object_name,
    upstream_name_hash, SandboxPool, AGENT_SANDBOX_API_VERSION,
    CERTIFICATION_POOL_GENERATION_LABEL, REQUIRED_POOL_ACK_RELEASE, SANDBOX_API_VERSION,
    SANDBOX_HASH_LABEL, SANDBOX_KIND, SANDBOX_TEMPLATE_KIND, SANDBOX_WARM_POOL_KIND,
    TEARDOWN_FENCE_DENIAL_MESSAGE, TEMPLATE_REF_HASH_LABEL,
};
use kobe::certification::opening::{open_pass, plan_survey, survey_identities, Survey};
use kobe::certification::pass::{
    begin_pass, continue_pass, PassAnswer, PassStage, PassStep, PassSubject, Scale,
};
use kobe::certification::population::{
    baseline_uids, check_isolation, check_runtime, expected_pod_spec, idle_sandbox_selector,
    network_policy_name, projected_pod_spec, resolve_idle_pod, resolve_idle_service,
    validate_member, validate_network_policy, validate_pool_convergence,
    validate_population_count, validate_workload_node, validate_workload_pod,
    validate_workload_service, warm_pool_selector, workload_selector, ResolvedSandboxPod,
};
use kobe::certification::receipt::{certified_population, revalidate_certified_management_pool};
use kobe::certification::revalidation::{
    begin_captured_workload, captured_target, revalidate_captured_workload, CapturedAnswer,
    CapturedStage, CapturedStep, TargetStep,
};
use kobe::certification::steps::{
    absence_observed, absence_proven_restores_capacity, canary_finished, canary_finished_at,
    capture_workload, claim_created, claim_deleted, claim_deleting_foreground_deletes,
    claimed_sandbox, claimed_workload, deleted_fence_completes_certification,
    drain_waits_for_the_causal_barrier, fence_absence_certifies_at, fence_created, fence_probed,
    fenced_scale_to_zero_drains, find_claim, find_fence, next_absence, recorded_claim_ready,
    reference_from_resolved, released_fence_is_deleted, replenished_proves_and_releases_the_fence,
    replenishment_listed, replenishment_observed, workload_captured, AbsenceQuery, AbsenceStep,
    CanaryOutcome, ClaimStep, DeleteStep, FenceStep, FreshStep, ObjectStep, Released,
    ReplenishStep,
};
use kobe::certification::storage::{
    capture_volume_claims, capture_volumes, object_has_controller_uid,
};
use kobe::certification::validation::{
    ClusterAnswer, IdleStage, WorkloadStage, WorkloadValidation,
};
use kobe::certification::workload::{
    container_matches, dynamic_ready_at_generation, dynamic_status_count,
    expected_network_policy_spec, expected_service_ports, pod_ready, policy_selects_pod,
    service_ports_match, validate_node, validate_pod_labels, validate_pod_spec, validate_service,
    warm_pool_status_is_current,
};
use kobe::crd::sandbox::{
    SandboxContainerResources, SandboxContainerSpec, SandboxExecutionCanary, SandboxIsolation,
    SandboxObjectReference, SandboxPlacement, SandboxPoolCertificationPhase,
    SandboxPoolCertificationStatus, SandboxPoolSpec, SandboxPoolStatus, SandboxPortSpec,
    SandboxReadinessRequirements, SandboxResourceQuantity, SandboxTemplateSpec,
};
use kobe::json::{Json, JsonNumber};
use kobe::k8s::{
    ApiError, Condition, ConfigMap, Container, DynamicObject, IntOrString, LabelSelector,
    NetworkPolicy, Node, ObjectMeta, OwnerReference, PersistentVolume, Pod, PodSpec, Service,
    ServicePort, ServiceSpec,
};

const NAMESPACE: &str = "kobe-system";
const POOL_UID: &str = "11111111-1111-4111-8111-111111111111";
const MANAGED_BY: &str = "operator-under-test";
const RUNTIME_API: &str = "agents.x-k8s.io/v1beta1";

fn pool(warm_capacity: u32) -> SandboxPool {
    SandboxPool {
        metadata: ObjectMeta {
            name: Some("agents".into()),
            namespace: Some(NAMESPACE.into()),
            uid: Some(POOL_UID.into()),
            generation: Some(7),
            ..ObjectMeta::default()
        },
        spec: SandboxPoolSpec {
            warm_capacity,
            default_ttl: "1h".into(),
            max_ttl: "8h".into(),
            provisioning_timeout: "10m".into(),
            placement: SandboxPlacement::Management {},
            template: SandboxTemplateSpec {
                default_container: "agent".into(),
                containers: vec![SandboxContainerSpec {
                    name: "agent".into(),
                    image: "example.invalid/agent@sha256:abc".into(),
                    command: vec!["/agent".into()],
                    args: vec![],
                    resources: SandboxContainerResources {
                        requests: SandboxResourceQuantity {
                            cpu: "100m".into(),
                            memory: "128Mi".into(),
                            ephemeral_storage: "128Mi".into(),
                        },
                        limits: SandboxResourceQuantity {
                            cpu: "1".into(),
                            memory: "1Gi".into(),
                            ephemeral_storage: "1Gi".into(),
                        },
                    },
                }],
                exposed_ports: vec![SandboxPortSpec {
                    name: "http".into(),
                    container: "agent".into(),
                    port: 3000,
                }],
                runner_path: None,
            },
            isolation: SandboxIsolation::TrustedRunc {},
            readiness: SandboxReadinessRequirements {
                canary: SandboxExecutionCanary {
                    argv: vec!["/agent".into(), "health".into()],
                    timeout: "30s".into(),
                },
            },
        },
        status: None,
    }
}

fn owner(api_version: &str, kind: &str, name: &str, uid: &str) -> OwnerReference {
    OwnerReference {
        api_version: api_version.into(),
        kind: kind.into(),
        name: name.into(),
        uid: uid.into(),
        controller: Some(true),
        block_owner_deletion: Some(true),
    }
}

fn controller_owner(kind: &str, name: &str, uid: &str) -> OwnerReference {
    if kind == "Sandbox" {
        owner(SANDBOX_API_VERSION, kind, name, uid)
    } else {
        owner("kobe.kunobi.ninja/v1alpha1", kind, name, uid)
    }
}

fn text(value: &str) -> Json {
    Json::string(value)
}

fn number(value: u64) -> Json {
    Json::Number(JsonNumber::Unsigned(value))
}

/// Replaces or adds a member, keeping the members in the order of their keys.
fn set(object: &mut Json, key: &str, value: Json) {
    match object {
        Json::Object(members) => {
            members.retain(|member| member.0 != key);
            members.push((key.to_string(), value));
            members.sort_by(|a, b| a.0.cmp(&b.0));
        }
        _ => unreachable!(),
    }
}

fn member<'a>(object: &'a mut Json, key: &str) -> &'a mut Json {
    match object {
        Json::Object(members) => {
            &mut members
                .iter_mut()
                .find(|member| member.0 == key)
                .unwrap()
                .1
        }
        _ => unreachable!(),
    }
}

fn empty_object() -> Json {
    Json::Object(vec![])
}

fn answer(code: u16) -> ApiError {
    ApiError {
        code: Some(code),
        message: "answer".into(),
        response: format!("response {code}"),
        error: format!("error {code}"),
    }
}

fn transport() -> ApiError {
    ApiError {
        code: None,
        message: String::new(),
        response: String::new(),
        error: "connection reset".into(),
    }
}

fn reference(kind: &str, uid: &str) -> SandboxObjectReference {
    let core = kind == "Pod" || kind == "Service" || kind == "ConfigMap";
    SandboxObjectReference {
        api_version: if core {
            "v1".into()
        } else if kind == SANDBOX_KIND {
            SANDBOX_API_VERSION.into()
        } else {
            AGENT_SANDBOX_API_VERSION.into()
        },
        kind: kind.into(),
        namespace: Some(NAMESPACE.into()),
        name: format!("cert-{}", kind.to_ascii_lowercase()),
        uid: uid.into(),
        generation: if core { None } else { Some(3) },
    }
}

fn certification_status(phase: SandboxPoolCertificationPhase) -> SandboxPoolCertificationStatus {
    SandboxPoolCertificationStatus {
        fingerprint: "a".repeat(64),
        observed_generation: 7,
        phase,
        sandbox_template: reference(SANDBOX_TEMPLATE_KIND, "template-uid"),
        sandbox_warm_pool: reference(SANDBOX_WARM_POOL_KIND, "warm-pool-uid"),
        sandbox_claim: Some(reference("SandboxClaim", "claim-uid")),
        sandbox: Some(reference(SANDBOX_KIND, "sandbox-uid")),
        pod: Some(reference("Pod", "pod-uid")),
        service: Some(reference("Service", "service-uid")),
        persistent_volume_claims: vec![],
        persistent_volumes: vec![],
        teardown_fence: Some(reference("ConfigMap", "fence-uid")),
        baseline_idle_sandbox_uids: vec!["old-idle-uid".into()],
        drain_generation: Some(8),
        replenish_generation: Some(9),
        canary_passed_at: Some("2026-08-21T00:00:00Z".into()),
        certified_at: None,
        message: None,
    }
}

fn object(name: &str, uid: &str, data: Json) -> DynamicObject {
    DynamicObject {
        types: None,
        metadata: ObjectMeta {
            name: Some(name.into()),
            namespace: Some(NAMESPACE.into()),
            uid: Some(uid.into()),
            ..ObjectMeta::default()
        },
        data,
    }
}

fn warm_pool_data(observed: u64, replicas: u64, ready: u64) -> Json {
    Json::object2(
        "spec",
        Json::object1("replicas", number(1)),
        "status",
        Json::object3(
            "observedGeneration",
            number(observed),
            "readyReplicas",
            number(ready),
            "replicas",
            number(replicas),
        ),
    )
}

/// Generation eight, acknowledged seven, one ready replica.
fn certification_warm_pool() -> DynamicObject {
    let mut warm_pool = object("cert-sandboxwarmpool", "warm-pool-uid", warm_pool_data(7, 1, 1));
    warm_pool.metadata.resource_version = Some("41".into());
    warm_pool.metadata.generation = Some(8);
    warm_pool
}

fn ready_data(generation: u64) -> Json {
    let condition = Json::object3(
        "observedGeneration",
        number(generation),
        "status",
        text("True"),
        "type",
        text("Ready"),
    );
    Json::object1(
        "status",
        Json::object3(
            "conditions",
            Json::Array(vec![condition]),
            "selector",
            text("app=sandbox"),
            "service",
            text("sandbox-one"),
        ),
    )
}

fn ready_sandbox() -> DynamicObject {
    let mut sandbox = object("sandbox-one", "sandbox-uid", ready_data(3));
    sandbox.metadata.generation = Some(3);
    sandbox.metadata.labels = vec![(
        TEMPLATE_REF_HASH_LABEL.into(),
        upstream_name_hash("kobe-agents"),
    )];
    sandbox.metadata.owner_references = vec![owner(
        AGENT_SANDBOX_API_VERSION,
        SANDBOX_WARM_POOL_KIND,
        "kobe-agents",
        "warm-pool-uid",
    )];
    sandbox
}

fn strict_policy() -> NetworkPolicy {
    NetworkPolicy {
        metadata: ObjectMeta {
            name: Some("kobe-agents-network-policy".into()),
            uid: Some("policy-uid".into()),
            owner_references: vec![owner(
                AGENT_SANDBOX_API_VERSION,
                SANDBOX_TEMPLATE_KIND,
                "kobe-agents",
                "template-uid",
            )],
            ..ObjectMeta::default()
        },
        spec: Some(expected_network_policy_spec("kobe-agents")),
    }
}

fn container() -> Container {
    Container {
        name: "agent".into(),
        image: Some("example.invalid/agent@sha256:abc".into()),
        command: Some(vec!["/agent".into()]),
        args: None,
        ports: Some(vec![Json::object1("containerPort", number(3000))]),
        resources: Some(Json::object1("limits", Json::object1("cpu", text("1")))),
        security_context: Some(Json::object1("runAsNonRoot", Json::Bool(true))),
        env: vec![],
        env_from: vec![],
        volume_mounts: vec![],
        volume_devices: vec![],
    }
}

fn pod_spec() -> PodSpec {
    PodSpec {
        runtime_class_name: None,
        node_name: None,
        automount_service_account_token: Some(false),
        enable_service_links: Some(false),
        security_context: Some(Json::object1("runAsNonRoot", Json::Bool(true))),
        host_users: Some(false),
        restart_policy: Some("Never".into()),
        host_network: None,
        host_pid: None,
        host_ipc: None,
        share_process_namespace: None,
        volumes: vec![],
        init_containers: vec![],
        ephemeral_containers: vec![],
        containers: vec![container()],
    }
}

fn scheduled() -> PodSpec {
    PodSpec {
        node_name: Some("node-a".into()),
        ..pod_spec()
    }
}

fn ready_condition() -> Condition {
    Condition {
        condition_type: "Ready".into(),
        status: "True".into(),
    }
}

fn ready_pod() -> Pod {
    Pod {
        metadata: ObjectMeta {
            name: Some("pod-one".into()),
            namespace: Some(NAMESPACE.into()),
            uid: Some("pod-uid".into()),
            labels: vec![
                (SANDBOX_HASH_LABEL.into(), upstream_name_hash("sandbox-one")),
                (
                    TEMPLATE_REF_HASH_LABEL.into(),
                    upstream_name_hash("kobe-agents"),
                ),
            ],
            owner_references: vec![controller_owner(SANDBOX_KIND, "sandbox-one", "sandbox-uid")],
            ..ObjectMeta::default()
        },
        spec: Some(scheduled()),
        conditions: vec![ready_condition()],
    }
}

fn node() -> Node {
    Node {
        metadata: ObjectMeta {
            name: Some("node-a".into()),
            ..ObjectMeta::default()
        },
        unschedulable: None,
        conditions: vec![ready_condition()],
    }
}

fn service() -> Service {
    let hash = upstream_name_hash("sandbox-one");
    Service {
        metadata: ObjectMeta {
            name: Some("sandbox-one".into()),
            namespace: Some(NAMESPACE.into()),
            uid: Some("service-uid".into()),
            labels: vec![(SANDBOX_HASH_LABEL.into(), hash.clone())],
            owner_references: vec![controller_owner(SANDBOX_KIND, "sandbox-one", "sandbox-uid")],
            ..ObjectMeta::default()
        },
        spec: Some(ServiceSpec {
            cluster_ip: Some("None".into()),
            selector: Some(vec![(SANDBOX_HASH_LABEL.into(), hash)]),
            service_type: None,
            external_name: None,
            external_ips: vec![],
            load_balancer_class: None,
            load_balancer_ip: None,
            load_balancer_source_ranges: vec![],
            health_check_node_port: None,
            allocate_load_balancer_node_ports: None,
            publish_not_ready_addresses: None,
            ports: vec![ServicePort {
                name: Some("http".into()),
                protocol: Some("TCP".into()),
                port: 3000,
                target_port: Some(IntOrString::Int(3000)),
                node_port: None,
                app_protocol: None,
            }],
        }),
    }
}

fn resolved() -> ResolvedSandboxPod {
    ResolvedSandboxPod {
        sandbox_name: "sandbox-one".into(),
        sandbox_uid: "sandbox-uid".into(),
        pod_name: "pod-one".into(),
        pod_uid: "pod-uid".into(),
        service_name: Some("sandbox-one".into()),
        service_uid: Some("service-uid".into()),
    }
}

fn template_spec() -> Json {
    Json::object1("podTemplate", Json::object1("spec", text("restricted")))
}

fn warm_pool_spec() -> Json {
    Json::object1("replicas", number(1))
}

fn projection() -> PoolProjection {
    PoolProjection {
        template: Ok(Some(template_spec())),
        warm_pool: Ok(Some(warm_pool_spec())),
    }
}

fn pool_object(uid: &str, generation: i64, data: Json) -> DynamicObject {
    let mut object = object("kobe-agents", uid, data);
    object.metadata.generation = Some(generation);
    object.metadata.owner_references = vec![controller_owner("SandboxPool", "agents", POOL_UID)];
    object
}

fn template() -> DynamicObject {
    pool_object("template-uid", 2, Json::object1("spec", template_spec()))
}

fn warm_pool() -> DynamicObject {
    let status = Json::object3(
        "observedGeneration",
        number(3),
        "readyReplicas",
        number(1),
        "replicas",
        number(1),
    )
    .with_member("selector", text(&warm_pool_selector("kobe-agents")));
    pool_object(
        "warm-pool-uid",
        3,
        Json::object2("spec", warm_pool_spec(), "status", status),
    )
}

fn pool_reference(kind: &str, uid: &str, generation: i64) -> SandboxObjectReference {
    SandboxObjectReference {
        api_version: AGENT_SANDBOX_API_VERSION.into(),
        kind: kind.into(),
        namespace: Some(NAMESPACE.into()),
        name: "kobe-agents".into(),
        uid: uid.into(),
        generation: Some(generation),
    }
}

#[test]
fn upstream_hash_is_pinned_to_v0_5_6() {
    assert_eq!(upstream_name_hash("kobe-agents"), "8bc6ef7b");
}

#[test]
fn default_network_policy_is_exactly_strict() {
    let spec = expected_network_policy_spec("kobe-agents");
    assert_eq!(
        spec.pod_selector
            .as_ref()
            .and_then(|selector| selector.match_labels.as_ref())
            .and_then(|labels| labels
                .iter()
                .find(|label| label.0 == TEMPLATE_REF_HASH_LABEL))
            .map(|label| label.1.clone()),
        Some(upstream_name_hash("kobe-agents"))
    );
    assert_eq!(spec.ingress.as_ref().map(Vec::len), Some(1));
    assert_eq!(spec.egress.as_ref().map(Vec::len), Some(1));
    assert_eq!(
        spec.policy_types,
        Some(vec!["Ingress".into(), "Egress".into()])
    );
}

#[test]
fn certification_claim_is_exclusive_and_warm_zero_compatible() {
    let pool = pool(0);
    let claim = certification_claim(&pool, "kobe-system", "kobe-agents", MANAGED_BY).unwrap();
    assert!(claim.metadata.name_any().len() <= 63);
    assert_eq!(claim.metadata.namespace.as_deref(), Some("kobe-system"));
    assert!(claim.metadata.is_controlled_by(
        "kobe.kunobi.ninja/v1alpha1",
        "SandboxPool",
        "agents",
        "11111111-1111-4111-8111-111111111111",
    ));
    assert_eq!(
        claim.metadata.label(CERTIFICATION_POOL_GENERATION_LABEL),
        Some("7")
    );
    let spec = claim.data.get("spec").unwrap();
    assert_eq!(
        spec.get("warmPoolRef")
            .and_then(|reference| reference.get("name"))
            .and_then(|name| name.as_str()),
        Some("kobe-agents")
    );
    assert!(spec
        .get("lifecycle")
        .and_then(|lifecycle| lifecycle.get("shutdownTime"))
        .is_none());
}

#[test]
fn certification_claim_tolerates_empty_defaulted_containers_only() {
    let pool = pool(0);
    let desired = certification_claim(&pool, "kobe-system", "kobe-agents", MANAGED_BY).unwrap();

    let mut observed = desired.clone();
    set(
        member(&mut observed.data, "spec"),
        "additionalPodMetadata",
        empty_object(),
    );
    validate_certification_claim(&pool, &desired, &observed, MANAGED_BY).unwrap();

    set(
        member(&mut observed.data, "spec"),
        "additionalPodMetadata",
        Json::object2("annotations", empty_object(), "labels", empty_object()),
    );
    validate_certification_claim(&pool, &desired, &observed, MANAGED_BY).unwrap();

    set(
        member(&mut observed.data, "spec"),
        "additionalPodMetadata",
        Json::object1("labels", Json::object1("escape", text("hatch"))),
    );
    let error = validate_certification_claim(&pool, &desired, &observed, MANAGED_BY).unwrap_err();
    assert!(
        error.contains("certification Claim spec drifted"),
        "{error}"
    );

    let mut mutated = desired.clone();
    set(
        member(member(&mut mutated.data, "spec"), "lifecycle"),
        "shutdownPolicy",
        text("Retain"),
    );
    let error = validate_certification_claim(&pool, &desired, &mutated, MANAGED_BY).unwrap_err();
    assert!(
        error.contains("certification Claim spec drifted"),
        "{error}"
    );
}

#[test]
fn immutable_pool_refs_reject_same_name_replacements() {
    let pool = pool(1);
    let template = template();
    let mut warm_pool = warm_pool();
    let template_ref = pool_reference(SANDBOX_TEMPLATE_KIND, "template-uid", 2);
    let warm_pool_ref = pool_reference(SANDBOX_WARM_POOL_KIND, "warm-pool-uid", 3);
    validate_pool_objects(
        &pool,
        "kobe-system",
        &template,
        &warm_pool,
        Some(&template_ref),
        Some(&warm_pool_ref),
        &projection(),
    )
    .unwrap();

    warm_pool.metadata.uid = Some("replacement-uid".into());
    assert!(validate_pool_objects(
        &pool,
        "kobe-system",
        &template,
        &warm_pool,
        Some(&template_ref),
        Some(&warm_pool_ref),
        &projection(),
    )
    .unwrap_err()
    .contains("immutable lease provenance"));
}

#[test]
fn strict_policy_must_select_the_exact_template_pod() {
    let policy = NetworkPolicy {
        metadata: ObjectMeta::default(),
        spec: Some(expected_network_policy_spec("kobe-agents")),
    };
    let mut pod = ready_pod();
    validate_pod_labels(&pod, "sandbox-one", "kobe-agents", &policy).unwrap();
    pod.metadata
        .labels
        .retain(|label| label.0 != TEMPLATE_REF_HASH_LABEL);
    assert!(validate_pod_labels(&pod, "sandbox-one", "kobe-agents", &policy).is_err());
}

#[test]
fn workload_label_keys_match_the_pinned_upstream_release() {
    assert_eq!(
        SANDBOX_HASH_LABEL, "agents.x-k8s.io/sandbox-name-hash",
        "Pods and Services are labelled with sandbox-name-hash"
    );
    assert_eq!(
        TEMPLATE_REF_HASH_LABEL, "agents.x-k8s.io/sandbox-template-ref-hash",
        "the template's own label reaches its Pods"
    );
}

#[test]
fn service_certificate_rejects_external_exposure() {
    let pool = pool(1);
    let mut service = service();
    validate_service(&pool, &service, "sandbox-one", "sandbox-uid").unwrap();
    service.spec.as_mut().unwrap().service_type = Some("LoadBalancer".into());
    assert!(validate_service(&pool, &service, "sandbox-one", "sandbox-uid").is_err());
}

#[test]
fn the_fence_blocks_teardown_targets_but_never_the_warm_pool() {
    let fence = certification_fence(
        "kobe-system",
        &certification_status(SandboxPoolCertificationPhase::CanaryPassed),
    )
    .unwrap();
    let data = fence.data.unwrap();
    let contains = |uid: &str| data.iter().any(|entry| entry.0 == uid);
    assert!(contains("claim-uid"));
    assert!(contains("sandbox-uid"));
    assert!(
        !contains("warm-pool-uid"),
        "fencing the WarmPool UID starves its acknowledgement"
    );
}

#[test]
fn v0_5_6_generation_ack_precedes_replica_trust() {
    let mut warm_pool = DynamicObject {
        types: None,
        metadata: ObjectMeta {
            generation: Some(4),
            ..ObjectMeta::default()
        },
        data: warm_pool_data(3, 1, 1),
    };
    assert!(!warm_pool_status_is_current(&warm_pool));
    set(
        member(&mut warm_pool.data, "status"),
        "observedGeneration",
        number(4),
    );
    assert!(warm_pool_status_is_current(&warm_pool));
}

#[test]
fn a_completed_attempt_never_blocks_the_next_pool_generation() {
    let completed = certification_status(SandboxPoolCertificationPhase::Certified);
    assert!(!attempt_has_live_cleanup(&completed));

    let active = certification_status(SandboxPoolCertificationPhase::FenceInstalled);
    assert!(attempt_has_live_cleanup(&active));
}

#[test]
fn fenced_scale_to_zero_records_the_drain_generation() {
    let status = certification_status(SandboxPoolCertificationPhase::FenceInstalled);
    let plan = plan_scale(
        Ok(certification_warm_pool()),
        "kobe-system",
        &status.sandbox_warm_pool,
        0,
    )
    .unwrap();
    let patch = match plan {
        ScalePlan::Patch(Json::Array(operations)) => operations,
        other => panic!("unexpected plan {other:?}"),
    };
    assert_eq!(patch[0].get("value"), Some(&text("warm-pool-uid")));
    assert_eq!(patch[1].get("value"), Some(&text("41")));
    assert_eq!(patch[2].get("value"), Some(&number(1)));
    assert_eq!(patch[3].get("path"), Some(&text("/spec/replicas")));
    assert_eq!(patch[3].get("value"), Some(&number(0)));

    let write = scale_outcome(Written::Accepted(certification_warm_pool())).unwrap();
    let progress = fenced_scale_to_zero_drains(write, status, 0).unwrap();
    assert_eq!(
        progress.status.phase,
        SandboxPoolCertificationPhase::DrainAcknowledged
    );
    assert_eq!(progress.status.drain_generation, Some(8));
    assert_eq!(progress.reason, "CertificationDrainRequested");
    assert_eq!(
        progress.message,
        "scale-to-zero written under a UID/resourceVersion fence; waiting for generation 8 plus zero ready replicas"
    );
    assert!(progress.mutated);
}

#[test]
fn the_drain_barrier_waits_for_ack_and_zero_replicas() {
    let status = certification_status(SandboxPoolCertificationPhase::DrainAcknowledged);
    let progress = drain_waits_for_the_causal_barrier(
        "kobe-system",
        Ok(certification_warm_pool()),
        status.clone(),
        0,
    )
    .unwrap();
    assert_eq!(
        progress.status.phase,
        SandboxPoolCertificationPhase::DrainAcknowledged
    );
    assert_eq!(progress.reason, "CertificationDraining");
    assert!(!progress.mutated);

    let mut drained = certification_warm_pool();
    drained.data = warm_pool_data(8, 0, 0);
    let progress =
        drain_waits_for_the_causal_barrier("kobe-system", Ok(drained), status.clone(), 0).unwrap();
    assert_eq!(
        progress.status.phase,
        SandboxPoolCertificationPhase::ClaimDeleting
    );
    assert_eq!(progress.reason, "CertificationDrained");

    let mut busy = certification_warm_pool();
    busy.data = warm_pool_data(8, 2, 1);
    let progress =
        drain_waits_for_the_causal_barrier("kobe-system", Ok(busy), status.clone(), 0).unwrap();
    assert_eq!(
        progress.message,
        "waiting for the drained WarmPool to report zero replicas (now 2/1)"
    );

    let mut silent = certification_warm_pool();
    silent.data = Json::object1("status", Json::object1("observedGeneration", number(8)));
    let progress =
        drain_waits_for_the_causal_barrier("kobe-system", Ok(silent), status.clone(), 0).unwrap();
    assert_eq!(
        progress.message,
        "WarmPool ACKed the drain but its replica counts are not observable yet"
    );

    let mut unrecorded = status;
    unrecorded.drain_generation = None;
    let progress = drain_waits_for_the_causal_barrier(
        "kobe-system",
        Ok(certification_warm_pool()),
        unrecorded,
        0,
    )
    .unwrap();
    assert_eq!(
        progress.status.phase,
        SandboxPoolCertificationPhase::CleanupBlocked
    );
}

#[test]
fn claim_deleting_foreground_deletes_the_exact_claim() {
    let status = certification_status(SandboxPoolCertificationPhase::ClaimDeleting);
    let found = object("cert-sandboxclaim", "claim-uid", empty_object());
    let step = claim_deleting_foreground_deletes(Ok(found), status, 0).unwrap();
    let status = match step {
        DeleteStep::Delete(status, name, uid) => {
            assert_eq!(name, "cert-sandboxclaim");
            assert_eq!(uid, "claim-uid");
            status
        }
        other => panic!("unexpected step {other:?}"),
    };
    let progress = claim_deleted(Ok(()), status.clone(), 0).unwrap();
    assert_eq!(
        progress.status.phase,
        SandboxPoolCertificationPhase::ClaimDeleting,
        "the pass that issues the delete must not also claim absence"
    );
    assert_eq!(progress.reason, "CertificationClaimDeleting");
    assert!(progress.mutated);

    assert!(claim_deleted(Err(answer(404)), status.clone(), 0).unwrap().mutated);
    assert!(!claim_deleted(Err(answer(409)), status.clone(), 0).unwrap().mutated);
    let forbidden = claim_deleted(Err(answer(403)), status.clone(), 0).unwrap();
    assert_eq!(
        forbidden.message,
        "foreground Claim deletion is forbidden: response 403"
    );
    assert_eq!(
        claim_deleted(Err(transport()), status, 0).unwrap_err(),
        "certification Claim deletion failed: connection reset"
    );
}

#[test]
fn a_missing_claim_checkpoints_absence_proven() {
    let status = certification_status(SandboxPoolCertificationPhase::ClaimDeleting);
    let step = claim_deleting_foreground_deletes(Err(answer(404)), status, 0).unwrap();
    match step {
        DeleteStep::Finished(progress) => {
            assert_eq!(
                progress.status.phase,
                SandboxPoolCertificationPhase::AbsenceProven
            );
            assert_eq!(progress.reason, "CertificationClaimGone");
        }
        other => panic!("unexpected step {other:?}"),
    }
}

#[test]
fn absence_proven_restores_capacity_under_a_fence() {
    let mut status = certification_status(SandboxPoolCertificationPhase::AbsenceProven);
    let mut proven = 0;
    loop {
        match next_absence(proven, status.clone(), 0) {
            AbsenceQuery::Complete(complete) => {
                status = complete;
                break;
            }
            AbsenceQuery::Blocked(progress) => panic!("blocked {progress:?}"),
            _ => match absence_observed(proven, Err(answer(404)), status, 0).unwrap() {
                AbsenceStep::Proven(kept) => status = kept,
                other => panic!("unexpected step {other:?}"),
            },
        }
        proven += 1;
    }
    assert_eq!(proven, 2, "the claim and the sandbox");
    let mut restored = certification_warm_pool();
    restored.metadata.generation = Some(9);
    restored.metadata.resource_version = Some("43".into());
    let write = scale_outcome(Written::Accepted(restored)).unwrap();
    let progress = absence_proven_restores_capacity(write, status, 0).unwrap();
    assert_eq!(
        progress.status.phase,
        SandboxPoolCertificationPhase::Replenished
    );
    assert_eq!(progress.status.replenish_generation, Some(9));
    assert_eq!(progress.reason, "CertificationRestoringCapacity");
}

#[test]
fn replenished_capacity_must_be_generation_fresh_and_uid_clean() {
    let status = certification_status(SandboxPoolCertificationPhase::Replenished);
    let mut fresh = certification_warm_pool();
    fresh.metadata.generation = Some(9);
    fresh.data = warm_pool_data(9, 1, 1);
    let step =
        replenishment_observed("kobe-system", 1, Ok(fresh), status.clone(), 0).unwrap();
    let status = match step {
        ReplenishStep::List(status, selector) => {
            assert_eq!(selector, warm_pool_selector("cert-sandboxwarmpool"));
            status
        }
        other => panic!("unexpected step {other:?}"),
    };

    let old = object("idle-old", "old-idle-uid", empty_object());
    match replenishment_listed(1, Ok(vec![old]), status.clone(), 0).unwrap() {
        FreshStep::Finished(blocked) => {
            assert_eq!(
                blocked.status.phase,
                SandboxPoolCertificationPhase::CleanupBlocked
            );
            assert!(
                blocked.message.contains("old-idle-uid"),
                "the exact preserved UID names the failure: {}",
                blocked.message
            );
        }
        other => panic!("unexpected step {other:?}"),
    }

    let new = object("idle-new", "fresh-idle-uid", empty_object());
    let status = match replenishment_listed(1, Ok(vec![new]), status, 0).unwrap() {
        FreshStep::Release(status) => status,
        other => panic!("unexpected step {other:?}"),
    };
    let fence = ConfigMap {
        metadata: ObjectMeta {
            name: Some(fence_name(&"a".repeat(64))),
            namespace: Some(NAMESPACE.into()),
            uid: Some("fence-uid".into()),
            resource_version: Some("44".into()),
            finalizers: vec!["kobe.kunobi.ninja/sandbox-teardown-fence".into()],
            ..ObjectMeta::default()
        },
        immutable: None,
        data: None,
    };
    assert_eq!(
        read_fence_exact(Ok(fence), &status).unwrap(),
        ("fence-uid".to_string(), "44".to_string())
    );
    let progress =
        replenished_proves_and_releases_the_fence(Released::Accepted, status, 0).unwrap();
    assert_eq!(
        progress.status.phase,
        SandboxPoolCertificationPhase::FenceFinalizerRemoved
    );
    assert_eq!(progress.reason, "CertificationReplenished");
}

#[test]
fn confirmed_fence_absence_stamps_certified() {
    let status = certification_status(SandboxPoolCertificationPhase::FenceDeleting);
    let progress =
        deleted_fence_completes_certification(Err(answer(404)), status.clone(), 0).unwrap();
    assert!(progress.certified);
    assert_eq!(
        progress.status.phase,
        SandboxPoolCertificationPhase::Certified
    );
    assert!(progress.status.certified_at.is_some());

    let stamped =
        fence_absence_certifies_at(Err(answer(404)), "then".into(), status.clone(), 0).unwrap();
    assert_eq!(stamped.status.certified_at.as_deref(), Some("then"));
    assert_eq!(
        fence_absence_certifies_at(Err(answer(403)), "then".into(), status.clone(), 0)
            .unwrap_err(),
        "teardown fence lookup failed: error 403"
    );
    let mut fence = certification_fence(NAMESPACE, &status).unwrap();
    let lingering =
        fence_absence_certifies_at(Ok(fence.clone()), "then".into(), status.clone(), 0).unwrap();
    assert_eq!(lingering.reason, "CleanupBlocked");
    fence.metadata.deletion_timestamp = Some("2026-08-24T00:00:00Z".into());
    let going = fence_absence_certifies_at(Ok(fence), "then".into(), status, 0).unwrap();
    assert_eq!(going.reason, "CertificationFenceDeleting");
    assert!(!going.certified);
}

#[test]
fn fence_checkpoint_requires_the_exact_vap_denial() {
    let status = certification_status(SandboxPoolCertificationPhase::CanaryPassed);
    let probe = fence_probe("kobe-system", &status).unwrap();
    assert_eq!(
        probe.metadata.owner_references[0].uid,
        status.sandbox.clone().unwrap().uid
    );
    let mut denial = answer(403);
    denial.message = TEARDOWN_FENCE_DENIAL_MESSAGE.into();
    assert!(verify_teardown_fence_enforcement(Err(denial)).unwrap());
    assert!(!verify_teardown_fence_enforcement(Ok(())).unwrap());
    assert_eq!(
        verify_teardown_fence_enforcement(Err(answer(403))).unwrap_err(),
        "teardown-fence VAP denial could not be proven by dry-run CREATE: error 403"
    );
    let mut elsewhere = answer(500);
    elsewhere.message = TEARDOWN_FENCE_DENIAL_MESSAGE.into();
    assert!(verify_teardown_fence_enforcement(Err(elsewhere)).is_err());

    let mut unproven = status;
    unproven.sandbox = None;
    assert_eq!(
        fence_probe("kobe-system", &unproven).unwrap_err(),
        "teardown fence has no exact Sandbox UID to probe"
    );
}

#[test]
fn names_are_derived_from_the_pool() {
    assert_eq!(management_object_name(&pool(1)), "kobe-agents");
    let mut generated = pool(1);
    generated.metadata.name = None;
    generated.metadata.generate_name = Some("gen-".into());
    assert_eq!(management_object_name(&generated), "kobe-gen-");
    generated.metadata.generate_name = None;
    assert_eq!(management_object_name(&generated), "kobe-");

    let name = certification_claim_name(POOL_UID);
    assert_eq!(name, "kobe-cert-bd7662a5eeb41614e720d477abfcb2272e19a8a70a93b7e3");
    assert_eq!(name.len(), 58);
    assert_ne!(name, certification_claim_name("another-uid"));

    assert_eq!(
        fence_name(&"b".repeat(64)),
        format!("kobe-cert-fence-{}", "b".repeat(40))
    );
    assert!(has_fence_name(&"b".repeat(40)));
    assert!(!has_fence_name(&"b".repeat(39)));
    assert!(has_fence_name(&"\u{e9}".repeat(20)));
    assert!(!has_fence_name(&format!("b{}", "\u{e9}".repeat(30))));
    assert_eq!(
        fence_name(&"\u{e9}".repeat(30)),
        format!("kobe-cert-fence-{}", "\u{e9}".repeat(20))
    );
}

#[test]
fn empty_text_hashes_to_the_offset_basis() {
    assert_eq!(upstream_name_hash(""), "811c9dc5");
    assert_eq!(upstream_name_hash("a"), "e40c292c");
}

#[test]
fn a_claim_needs_a_complete_pool() {
    let mut unidentified = pool(1);
    unidentified.metadata.uid = Some(String::new());
    assert_eq!(
        certification_claim(&unidentified, NAMESPACE, "kobe-agents", MANAGED_BY).unwrap_err(),
        "SandboxPool UID is missing"
    );
    let mut unversioned = pool(1);
    unversioned.metadata.generation = None;
    assert_eq!(
        certification_claim(&unversioned, NAMESPACE, "kobe-agents", MANAGED_BY).unwrap_err(),
        "SandboxPool generation is missing"
    );
    let mut unnamed = pool(1);
    unnamed.metadata.name = None;
    assert_eq!(
        certification_claim(&unnamed, NAMESPACE, "kobe-agents", MANAGED_BY).unwrap_err(),
        "SandboxPool cannot own its certification Claim"
    );
}

#[test]
fn an_observed_claim_is_held_to_every_label() {
    let pool = pool(1);
    let desired = certification_claim(&pool, NAMESPACE, "kobe-agents", MANAGED_BY).unwrap();
    let judge = |claim: &DynamicObject| {
        validate_certification_claim(&pool, &desired, claim, MANAGED_BY).unwrap_err()
    };

    let mut foreign = desired.clone();
    foreign.metadata.owner_references.clear();
    assert_eq!(
        judge(&foreign),
        "certification Claim is not controlled by the exact SandboxPool"
    );

    let mut deleting = desired.clone();
    deleting.metadata.deletion_timestamp = Some("2026-08-24T00:00:00Z".into());
    assert_eq!(judge(&deleting), "certification Claim is already deleting");

    let relabel = |key: &str, value: Option<&str>| {
        let mut claim = desired.clone();
        claim.metadata.labels.retain(|label| label.0 != key);
        if let Some(value) = value {
            claim.metadata.labels.push((key.to_string(), value.to_string()));
        }
        claim
    };
    assert_eq!(
        judge(&relabel(CERTIFICATION_POOL_GENERATION_LABEL, Some("8"))),
        "same-named certification Claim belongs to another Pool generation"
    );
    assert_eq!(
        judge(&relabel(CERTIFICATION_POOL_GENERATION_LABEL, Some("+7"))),
        "certification Claim metadata drifted from the exact Pool: label kobe.kunobi.ninja/sandbox-pool-generation is \"+7\", expected \"7\""
    );
    assert_eq!(
        judge(&relabel("app.kubernetes.io/managed-by", Some("some\"one"))),
        "certification Claim metadata drifted from the exact Pool: label app.kubernetes.io/managed-by is \"some\\\"one\", expected \"operator-under-test\""
    );
    assert_eq!(
        judge(&relabel("kobe.kunobi.ninja/sandbox-pool-uid", None)),
        format!("certification Claim metadata drifted from the exact Pool: label kobe.kunobi.ninja/sandbox-pool-uid is \"<absent>\", expected \"{POOL_UID}\"")
    );
    assert_eq!(
        label_drift("k", "\"a\"", "\"b\""),
        "certification Claim metadata drifted from the exact Pool: label k is \"a\", expected \"b\""
    );
}

#[test]
fn a_drifted_claim_is_shown_as_json() {
    let pool = pool(1);
    let desired = certification_claim(&pool, NAMESPACE, "kobe-agents", MANAGED_BY).unwrap();
    let mut observed = desired.clone();
    observed.data = Json::object1("spec", Json::object1("n", Json::integer(-1)));
    assert_eq!(
        validate_certification_claim(&pool, &desired, &observed, MANAGED_BY).unwrap_err(),
        "certification Claim spec drifted from the exact Pool: observed {\"n\":-1}, desired {\"lifecycle\":{\"shutdownPolicy\":\"DeleteForeground\"},\"warmPoolRef\":{\"name\":\"kobe-agents\"}}"
    );
}

#[test]
fn normalizing_prunes_nested_empty_objects_only() {
    assert_eq!(normalize_claim_spec(None), empty_object());
    assert_eq!(normalize_claim_spec(Some(&empty_object())), empty_object());
    let value = Json::object3(
        "a",
        Json::object1("b", empty_object()),
        "c",
        Json::Array(vec![empty_object()]),
        "d",
        Json::Null,
    );
    let kept = Json::object2("c", Json::Array(vec![empty_object()]), "d", Json::Null);
    assert_eq!(normalize_claim_spec(Some(&value)), kept);
    assert_eq!(normalize_claim_spec(Some(&kept)), kept);
}

#[test]
fn exact_references_compare_every_part() {
    let claim = reference("SandboxClaim", "claim-uid");
    let mut found = object("cert-sandboxclaim", "claim-uid", empty_object());
    found.metadata.generation = Some(3);
    let matches = |reference: &SandboxObjectReference, found: &DynamicObject| {
        exact_reference_matches(
            reference,
            found,
            AGENT_SANDBOX_API_VERSION,
            "SandboxClaim",
            NAMESPACE,
            "cert-sandboxclaim",
        )
    };
    assert!(matches(&claim, &found));
    let mut moved = found.clone();
    moved.metadata.generation = Some(4);
    assert!(!matches(&claim, &moved));
    let mut any_generation = claim.clone();
    any_generation.generation = None;
    assert!(matches(&any_generation, &moved));
    let mut replaced = found.clone();
    replaced.metadata.uid = Some("other".into());
    assert!(!matches(&claim, &replaced));
    let mut elsewhere = claim;
    elsewhere.namespace = Some("default".into());
    assert!(!matches(&elsewhere, &found));
}

#[test]
fn pool_objects_report_what_is_wrong() {
    let pool_one = pool(1);
    let judge = |pool: &SandboxPool, template: &DynamicObject, projection: &PoolProjection| {
        validate_pool_objects(
            pool,
            NAMESPACE,
            template,
            &warm_pool(),
            None,
            None,
            projection,
        )
    };
    assert_eq!(
        judge(&pool_one, &template(), &projection()).unwrap(),
        ("template-uid".to_string(), "warm-pool-uid".to_string())
    );
    let mut outside = pool(1);
    outside.metadata.namespace = Some("default".into());
    assert_eq!(
        judge(&outside, &template(), &projection()).unwrap_err(),
        "SandboxPool is outside the certified management namespace"
    );
    let mut unidentified = template();
    unidentified.metadata.uid = None;
    assert_eq!(
        judge(&pool_one, &unidentified, &projection()).unwrap_err(),
        "SandboxTemplate UID is missing"
    );
    let mut deleting = template();
    deleting.metadata.deletion_timestamp = Some("now".into());
    assert_eq!(
        judge(&pool_one, &deleting, &projection()).unwrap_err(),
        "SandboxTemplate is deleting, misplaced or not controlled by the exact SandboxPool"
    );
    let mut drifted = template();
    drifted.data = Json::object1("spec", empty_object());
    assert_eq!(
        judge(&pool_one, &drifted, &projection()).unwrap_err(),
        "SandboxTemplate spec drifted from the current Pool generation"
    );
    assert_eq!(
        judge(
            &pool_one,
            &template(),
            &PoolProjection {
                template: Err("bad".into()),
                warm_pool: Ok(None),
            }
        )
        .unwrap_err(),
        "could not project SandboxTemplate: bad"
    );
    assert_eq!(
        judge(
            &pool_one,
            &template(),
            &PoolProjection {
                template: Ok(Some(template_spec())),
                warm_pool: Err("bad".into()),
            }
        )
        .unwrap_err(),
        "could not project SandboxWarmPool: bad"
    );
    assert_eq!(
        judge(
            &pool_one,
            &template(),
            &PoolProjection {
                template: Ok(Some(template_spec())),
                warm_pool: Ok(None),
            }
        )
        .unwrap_err(),
        "SandboxWarmPool spec drifted from the current Pool generation"
    );
    let mut generated = pool(1);
    generated.metadata.name = None;
    generated.metadata.generate_name = Some("agents".into());
    assert_eq!(
        judge(&generated, &template(), &projection()).unwrap_err(),
        "SandboxPool cannot own its upstream objects"
    );
    let mut no_uid = pool(1);
    no_uid.metadata.uid = None;
    assert_eq!(
        validate_pool_object_identity(
            &no_uid,
            NAMESPACE,
            &template(),
            SANDBOX_TEMPLATE_KIND,
            None
        )
        .unwrap_err(),
        "SandboxPool UID is missing"
    );
}

#[test]
fn references_carry_name_uid_and_generation() {
    let reference = dynamic_reference(&template(), "v", "K").unwrap();
    assert_eq!(reference.name, "kobe-agents");
    assert_eq!(reference.uid, "template-uid");
    assert_eq!(reference.namespace.as_deref(), Some(NAMESPACE));
    assert_eq!(reference.generation, Some(2));
    assert_eq!(reference.api_version, "v");
    assert_eq!(reference.kind, "K");
    assert_eq!(
        typed_reference(&ObjectMeta::default(), "v1", "ConfigMap").unwrap_err(),
        "ConfigMap UID is missing"
    );
}

#[test]
fn the_fingerprint_is_the_digest_of_the_evidence() {
    let fingerprint =
        certification_fingerprint(&pool(1), &template(), &warm_pool(), RUNTIME_API).unwrap();
    let evidence = "{\"isolation\":{\"tier\":\"trusted-runc\"},\"pool\":{\"generation\":7,\"uid\":\"11111111-1111-4111-8111-111111111111\"},\"probe\":{\"canary\":{\"argv\":[\"/agent\",\"health\"],\"timeout\":\"30s\"}},\"runtime\":{\"apiVersion\":\"agents.x-k8s.io/v1beta1\",\"release\":\"v0.5.6\"},\"template\":{\"name\":\"kobe-agents\",\"uid\":\"template-uid\"},\"templateSpec\":{\"containers\":[{\"args\":[],\"command\":[\"/agent\"],\"image\":\"example.invalid/agent@sha256:abc\",\"name\":\"agent\",\"resources\":{\"limits\":{\"cpu\":\"1\",\"ephemeralStorage\":\"1Gi\",\"memory\":\"1Gi\"},\"requests\":{\"cpu\":\"100m\",\"ephemeralStorage\":\"128Mi\",\"memory\":\"128Mi\"}}}],\"defaultContainer\":\"agent\",\"exposedPorts\":[{\"container\":\"agent\",\"name\":\"http\",\"port\":3000}]},\"warmPool\":{\"name\":\"kobe-agents\",\"uid\":\"warm-pool-uid\"}}";
    assert_eq!(
        fingerprint,
        kobe::digest::sha256_hex_of(evidence.as_bytes())
    );

    let mut with_runner = pool(1);
    with_runner.spec.template.runner_path = Some("/runner".into());
    let mut gvisor = pool(1);
    gvisor.spec.isolation = SandboxIsolation::Gvisor {
        runtime_class_name: "gvisor".into(),
    };
    let mut kata = pool(1);
    kata.spec.isolation = SandboxIsolation::Kata {
        runtime_class_name: "gvisor".into(),
    };
    let mut next = pool(1);
    next.metadata.generation = Some(8);
    let mut seen = vec![fingerprint];
    for changed in [with_runner, gvisor, kata, next] {
        let other =
            certification_fingerprint(&changed, &template(), &warm_pool(), RUNTIME_API).unwrap();
        assert!(!seen.contains(&other));
        seen.push(other);
    }
    let other = certification_fingerprint(&pool(1), &template(), &warm_pool(), "other").unwrap();
    assert!(!seen.contains(&other));
    let mut replaced = template();
    replaced.metadata.uid = None;
    let other = certification_fingerprint(&pool(1), &replaced, &warm_pool(), RUNTIME_API).unwrap();
    assert!(!seen.contains(&other));
    assert!(has_fence_name(&other));

    let mut unidentified = pool(1);
    unidentified.metadata.uid = None;
    assert_eq!(
        certification_fingerprint(&unidentified, &template(), &warm_pool(), RUNTIME_API)
            .unwrap_err(),
        "SandboxPool UID is missing"
    );
    let mut unversioned = pool(1);
    unversioned.metadata.generation = None;
    assert_eq!(
        certification_fingerprint(&unversioned, &template(), &warm_pool(), RUNTIME_API)
            .unwrap_err(),
        "SandboxPool generation is missing"
    );
}

#[test]
fn readiness_counts_for_the_current_generation_only() {
    let mut sandbox = ready_sandbox();
    assert!(dynamic_ready_at_generation(&sandbox));
    sandbox.metadata.generation = Some(4);
    assert!(!dynamic_ready_at_generation(&sandbox));
    sandbox.metadata.generation = None;
    assert!(!dynamic_ready_at_generation(&sandbox));
    sandbox.data = empty_object();
    assert!(!dynamic_ready_at_generation(&sandbox));
}

#[test]
fn status_counts_fit_thirty_two_bits() {
    let mut warm_pool = certification_warm_pool();
    assert_eq!(dynamic_status_count(&warm_pool, "replicas"), Some(1));
    assert_eq!(dynamic_status_count(&warm_pool, "missing"), None);
    set(
        member(&mut warm_pool.data, "status"),
        "replicas",
        number(4_294_967_296),
    );
    assert_eq!(dynamic_status_count(&warm_pool, "replicas"), None);
    set(
        member(&mut warm_pool.data, "status"),
        "replicas",
        Json::integer(-1),
    );
    assert_eq!(dynamic_status_count(&warm_pool, "replicas"), None);
}

#[test]
fn a_pod_is_held_to_the_restricted_projection() {
    let judge = |actual: PodSpec| validate_pod_spec(&pod_spec(), &actual);
    judge(scheduled()).unwrap();
    assert_eq!(
        judge(PodSpec {
            runtime_class_name: Some("gvisor".into()),
            ..scheduled()
        })
        .unwrap_err(),
        "scheduled Pod does not use the exact pool RuntimeClass"
    );
    assert_eq!(
        judge(PodSpec {
            node_name: Some(String::new()),
            ..scheduled()
        })
        .unwrap_err(),
        "Sandbox Pod is not scheduled to a node"
    );
    assert_eq!(
        judge(PodSpec {
            restart_policy: Some("Always".into()),
            ..scheduled()
        })
        .unwrap_err(),
        "Sandbox Pod security context drifted from the restricted projection"
    );
    assert_eq!(
        judge(PodSpec {
            host_network: Some(true),
            ..scheduled()
        })
        .unwrap_err(),
        "Sandbox Pod contains a prohibited host, volume, init or ephemeral surface"
    );
    let mut extra = scheduled();
    extra.containers.push(container());
    assert_eq!(
        judge(extra).unwrap_err(),
        "Sandbox Pod containers drifted from the closed pool template"
    );
    let mut with_env = container();
    with_env.env.push(empty_object());
    assert!(!container_matches(&container(), &with_env));
    assert!(container_matches(&container(), &container()));
    let mut other_image = container();
    other_image.image = None;
    assert!(!container_matches(&container(), &other_image));
}

#[test]
fn a_policy_selects_by_labels_alone() {
    let mut policy = strict_policy();
    assert!(policy_selects_pod(&policy, &ready_pod()));
    let spec = policy.spec.as_mut().unwrap();
    spec.pod_selector = Some(LabelSelector {
        match_labels: Some(vec![]),
        match_expressions: Some(vec![empty_object()]),
    });
    assert!(!policy_selects_pod(&policy, &ready_pod()));
    policy.spec.as_mut().unwrap().pod_selector = None;
    assert!(!policy_selects_pod(&policy, &ready_pod()));
    policy.spec = None;
    assert!(!policy_selects_pod(&policy, &ready_pod()));
}

#[test]
fn service_ports_ascend_under_their_first_name() {
    let mut pool = pool(1);
    pool.spec.template.containers.push(SandboxContainerSpec {
        name: "side".into(),
        ..pool.spec.template.containers[0].clone()
    });
    let port = |name: &str, container: &str, port: u16| SandboxPortSpec {
        name: name.into(),
        container: container.into(),
        port,
    };
    pool.spec.template.exposed_ports = vec![
        port("late", "side", 9000),
        port("shared", "side", 3000),
        port("http", "agent", 3000),
        port("low", "agent", 80),
        port("lost", "nobody", 1),
    ];
    let ports = expected_service_ports(&pool);
    assert_eq!(
        ports,
        vec![
            ("low".to_string(), 80),
            ("http".to_string(), 3000),
            ("late".to_string(), 9000),
        ]
    );
    let listed: Vec<ServicePort> = ports
        .iter()
        .map(|port| ServicePort {
            name: Some(port.0.clone()),
            protocol: None,
            port: port.1,
            target_port: Some(IntOrString::Int(port.1)),
            node_port: None,
            app_protocol: None,
        })
        .collect();
    assert!(service_ports_match(&listed, &ports));
    let mut exposed = listed.clone();
    exposed[0].node_port = Some(30000);
    assert!(!service_ports_match(&exposed, &ports));
    let mut named = listed;
    named[0].target_port = Some(IntOrString::String("80".into()));
    assert!(!service_ports_match(&named, &ports));
}

#[test]
fn a_node_must_stay_and_be_ready() {
    validate_node(&node()).unwrap();
    let mut cordoned = node();
    cordoned.unschedulable = Some(true);
    assert_eq!(
        validate_node(&cordoned).unwrap_err(),
        "Sandbox Pod node is deleting or unschedulable"
    );
    let mut unready = node();
    unready.conditions[0].status = "Unknown".into();
    assert_eq!(
        validate_node(&unready).unwrap_err(),
        "Sandbox Pod node is not Ready"
    );
}

#[test]
fn a_service_without_a_spec_is_refused() {
    let mut bare = service();
    bare.spec = None;
    assert_eq!(
        validate_service(&pool(1), &bare, "sandbox-one", "sandbox-uid").unwrap_err(),
        "Sandbox Service spec is missing"
    );
    assert_eq!(
        validate_service(&pool(1), &service(), "sandbox-one", "another-uid").unwrap_err(),
        "Sandbox Service is not the exact headless, internal-only template projection"
    );
}

#[test]
fn an_idle_sandbox_resolves_to_its_one_pod() {
    let sandbox = ready_sandbox();
    assert_eq!(idle_sandbox_selector(&sandbox).unwrap(), "app=sandbox");
    let found = resolve_idle_pod(&sandbox, Ok(vec![ready_pod()])).unwrap();
    let found = resolve_idle_service(found, Ok(service())).unwrap();
    assert_eq!(found, resolved());

    assert_eq!(
        resolve_idle_pod(&sandbox, Err(transport())).unwrap_err(),
        "Sandbox Pod list failed: connection reset"
    );
    assert_eq!(
        resolve_idle_pod(&sandbox, Ok(vec![])).unwrap_err(),
        "Ready Sandbox does not resolve to exactly one Pod"
    );
    let mut unidentified = ready_pod();
    unidentified.metadata.uid = None;
    assert_eq!(
        resolve_idle_pod(&sandbox, Ok(vec![unidentified])).unwrap_err(),
        "Sandbox Pod UID is missing"
    );
    let mut foreign = ready_pod();
    foreign.metadata.owner_references[0].controller = None;
    assert_eq!(
        resolve_idle_pod(&sandbox, Ok(vec![foreign])).unwrap_err(),
        "Sandbox Pod is not controlled by the exact Sandbox"
    );
    assert_eq!(
        resolve_idle_service(resolved(), Err(answer(404))).unwrap_err(),
        "Sandbox Service lookup failed: error 404"
    );
    let mut anonymous = service();
    anonymous.metadata.uid = Some(String::new());
    assert_eq!(
        resolve_idle_service(resolved(), Ok(anonymous)).unwrap_err(),
        "Sandbox Service UID is missing"
    );
    let mut no_uid = ready_sandbox();
    no_uid.metadata.uid = None;
    assert_eq!(
        idle_sandbox_selector(&no_uid).unwrap_err(),
        "WarmPool Sandbox UID is missing"
    );
    assert_eq!(
        resolve_idle_pod(&no_uid, Ok(vec![])).unwrap_err(),
        "WarmPool Sandbox UID is missing"
    );
    let mut unselective = ready_sandbox();
    set(member(&mut unselective.data, "status"), "selector", text(""));
    assert_eq!(
        idle_sandbox_selector(&unselective).unwrap_err(),
        "Ready Sandbox has no Pod selector"
    );
}

#[test]
fn a_workload_is_proven_piece_by_piece() {
    let sandbox = ready_sandbox();
    assert_eq!(
        workload_selector("kobe-agents", &sandbox, &resolved()).unwrap(),
        "app=sandbox"
    );
    assert_eq!(
        workload_selector("kobe-other", &sandbox, &resolved()).unwrap_err(),
        "Sandbox is deleting, replaced or not Ready for the current generation"
    );
    let pod_of = |pods| {
        validate_workload_pod(
            "kobe-agents",
            &strict_policy(),
            &pod_spec(),
            &resolved(),
            pods,
        )
    };
    assert_eq!(pod_of(Ok(vec![ready_pod()])).unwrap(), "node-a");
    assert_eq!(
        pod_of(Err(transport())).unwrap_err(),
        "Sandbox Pod revalidation failed: connection reset"
    );
    assert_eq!(
        pod_of(Ok(vec![ready_pod(), ready_pod()])).unwrap_err(),
        "Sandbox Pod selector no longer resolves to the exact single Pod"
    );
    let mut unready = ready_pod();
    unready.conditions.clear();
    assert!(!pod_ready(&unready));
    assert_eq!(
        pod_of(Ok(vec![unready])).unwrap_err(),
        "Sandbox Pod is foreign, deleting or not Ready"
    );
    let mut unlabelled = ready_pod();
    unlabelled.metadata.labels.clear();
    assert_eq!(
        pod_of(Ok(vec![unlabelled])).unwrap_err(),
        "Sandbox Pod is not selected by its exact Sandbox and strict Template policy labels"
    );
    let mut bare = ready_pod();
    bare.spec = None;
    assert_eq!(
        pod_of(Ok(vec![bare])).unwrap_err(),
        "Sandbox Pod spec is missing"
    );

    assert_eq!(
        validate_workload_node(&pool(1), &resolved(), Ok(node())).unwrap(),
        Some(("sandbox-one".to_string(), "service-uid".to_string()))
    );
    assert_eq!(
        validate_workload_node(&pool(1), &resolved(), Err(answer(404))).unwrap_err(),
        "Sandbox node lookup failed: error 404"
    );
    let mut closed = pool(1);
    closed.spec.template.exposed_ports.clear();
    assert_eq!(
        validate_workload_node(&closed, &resolved(), Ok(node())).unwrap_err(),
        "Sandbox unexpectedly exposes a Service"
    );
    let mut unserved = resolved();
    unserved.service_name = None;
    unserved.service_uid = None;
    assert_eq!(
        validate_workload_node(&closed, &unserved, Ok(node())).unwrap(),
        None
    );
    assert_eq!(
        validate_workload_node(&pool(1), &unserved, Ok(node())).unwrap_err(),
        "Sandbox has no exact required Service identity"
    );

    validate_workload_service(&pool(1), &resolved(), "service-uid", Ok(service())).unwrap();
    assert_eq!(
        validate_workload_service(&pool(1), &resolved(), "older-uid", Ok(service())).unwrap_err(),
        "Sandbox Service was replaced before certification"
    );
    assert_eq!(
        validate_workload_service(&pool(1), &resolved(), "service-uid", Err(answer(500)))
            .unwrap_err(),
        "Sandbox Service revalidation failed: error 500"
    );
}

#[test]
fn a_population_is_proven_against_its_warm_pool() {
    check_isolation(&pool(1)).unwrap();
    let mut hardened = pool(1);
    hardened.spec.isolation = SandboxIsolation::Gvisor {
        runtime_class_name: "gvisor".into(),
    };
    assert_eq!(
        check_isolation(&hardened).unwrap_err(),
        "gVisor and Kata remain unqualified until isolation issue #14 is closed"
    );
    check_runtime(Ok(())).unwrap();
    assert_eq!(
        check_runtime(Err("old".into())).unwrap_err(),
        "runtime APIs are not compatible: old"
    );
    assert_eq!(
        warm_pool_selector("kobe-agents"),
        "agents.x-k8s.io/warm-pool-sandbox=8bc6ef7b"
    );
    let judge = |warm_pool: &DynamicObject| {
        validate_pool_convergence(
            &pool(1),
            NAMESPACE,
            &template(),
            warm_pool,
            None,
            None,
            &projection(),
        )
    };
    assert_eq!(
        judge(&warm_pool()).unwrap(),
        ("template-uid".to_string(), "warm-pool-uid".to_string())
    );
    let mut silent = warm_pool();
    silent.data = Json::object1("spec", warm_pool_spec());
    assert_eq!(
        judge(&silent).unwrap_err(),
        "SandboxWarmPool status is missing"
    );
    let mut behind = warm_pool();
    set(member(&mut behind.data, "status"), "readyReplicas", number(0));
    assert_eq!(
        judge(&behind).unwrap_err(),
        "SandboxWarmPool has not observed its current generation and converged to its exact desired Ready population"
    );

    assert_eq!(
        network_policy_name(&template()),
        "kobe-agents-network-policy"
    );
    validate_network_policy(&template(), "template-uid", Ok(strict_policy())).unwrap();
    assert_eq!(
        validate_network_policy(&template(), "template-uid", Err(answer(404))).unwrap_err(),
        "strict NetworkPolicy lookup failed: error 404"
    );
    let mut wide = strict_policy();
    wide.spec.as_mut().unwrap().egress = None;
    assert_eq!(
        validate_network_policy(&template(), "template-uid", Ok(wide)).unwrap_err(),
        "the exact Template-owned strict NetworkPolicy is absent or drifted"
    );

    assert_eq!(
        validate_population_count(1, Ok(vec![ready_sandbox()]))
            .unwrap()
            .len(),
        1
    );
    assert_eq!(
        validate_population_count(2, Ok(vec![ready_sandbox()])).unwrap_err(),
        "WarmPool status count does not match its exact live Sandbox list"
    );
    assert_eq!(
        validate_population_count(2, Err(transport())).unwrap_err(),
        "WarmPool Sandbox list failed: connection reset"
    );

    validate_member(&ready_sandbox(), "kobe-agents", "warm-pool-uid", "kobe-agents").unwrap();
    assert_eq!(
        validate_member(&ready_sandbox(), "kobe-agents", "older-uid", "kobe-agents").unwrap_err(),
        "WarmPool contains a deleting, foreign or stale-ready Sandbox"
    );
    assert_eq!(
        validate_member(&ready_sandbox(), "kobe-agents", "warm-pool-uid", "other").unwrap_err(),
        "WarmPool Sandbox does not identify the current Template"
    );
}

#[test]
fn the_baseline_is_sorted() {
    let list: Vec<DynamicObject> = ["b", "\u{e9}", "a", "ab"]
        .iter()
        .map(|uid| object("idle", uid, empty_object()))
        .collect();
    assert_eq!(baseline_uids(&list).unwrap(), ["a", "ab", "b", "\u{e9}"]);
    let mut broken = list;
    broken[1].metadata.uid = None;
    assert_eq!(
        baseline_uids(&broken).unwrap_err(),
        "WarmPool Sandbox UID is missing"
    );
}

#[test]
fn the_projected_pod_is_found_inside_the_template() {
    assert_eq!(
        projected_pod_spec(Ok(Json::object1("spec", template_spec()))).unwrap(),
        text("restricted")
    );
    assert_eq!(
        projected_pod_spec(Ok(empty_object())).unwrap_err(),
        "restricted template has no Pod spec"
    );
    assert_eq!(
        projected_pod_spec(Err("bad".into())).unwrap_err(),
        "could not project the restricted template: bad"
    );
    assert_eq!(expected_pod_spec(Ok(pod_spec())).unwrap(), pod_spec());
    assert_eq!(
        expected_pod_spec(Err("bad".into())).unwrap_err(),
        "invalid projected Pod spec: bad"
    );
}

#[test]
fn storage_belongs_to_the_sandbox_that_controls_it() {
    let claim = |uid: &str, owner_uid: &str| ObjectMeta {
        name: Some(format!("claim-{uid}")),
        namespace: Some(NAMESPACE.into()),
        uid: Some(uid.into()),
        owner_references: vec![controller_owner(SANDBOX_KIND, "sandbox-one", owner_uid)],
        ..ObjectMeta::default()
    };
    let claims = capture_volume_claims(
        Ok(vec![
            claim("z", "sandbox-uid"),
            claim("m", "another-uid"),
            claim("a", "sandbox-uid"),
        ]),
        "sandbox-uid",
    )
    .unwrap();
    let uids: Vec<&str> = claims.iter().map(|claim| claim.uid.as_str()).collect();
    assert_eq!(uids, ["a", "z"]);
    assert_eq!(claims[0].kind, "PersistentVolumeClaim");
    assert_eq!(claims[0].api_version, "v1");

    let volume = |uid: &str, bound: Option<&str>| PersistentVolume {
        metadata: ObjectMeta {
            name: Some(format!("volume-{uid}")),
            uid: Some(uid.into()),
            ..ObjectMeta::default()
        },
        claim_uid: bound.map(str::to_string),
    };
    let volumes = capture_volumes(
        Ok(vec![
            volume("v2", Some("z")),
            volume("v3", Some("m")),
            volume("v1", Some("a")),
            volume("v0", None),
        ]),
        &claims,
    )
    .unwrap();
    let uids: Vec<&str> = volumes.iter().map(|volume| volume.uid.as_str()).collect();
    assert_eq!(uids, ["v1", "v2"]);

    assert_eq!(
        capture_volume_claims(Err(transport()), "sandbox-uid").unwrap_err(),
        "certification PVC manifest list failed: connection reset"
    );
    assert_eq!(
        capture_volumes(Err(transport()), &claims).unwrap_err(),
        "certification PV manifest list failed: connection reset"
    );
    let mut anonymous = claim("", "sandbox-uid");
    anonymous.uid = None;
    assert_eq!(
        capture_volume_claims(Ok(vec![anonymous]), "sandbox-uid").unwrap_err(),
        "PersistentVolumeClaim UID is missing"
    );
    assert!(object_has_controller_uid(
        &claim("a", "two"),
        &["one".to_string(), "two".to_string()]
    ));
    assert!(!object_has_controller_uid(&claim("a", "two"), &[]));
}

#[test]
fn a_fence_is_exact_and_intact() {
    let status = certification_status(SandboxPoolCertificationPhase::CanaryPassed);
    let fence = certification_fence(NAMESPACE, &status).unwrap();
    assert_eq!(
        fence.data,
        Some(vec![
            ("claim-uid".to_string(), "blocked".to_string()),
            ("sandbox-uid".to_string(), "blocked".to_string()),
        ])
    );
    assert_eq!(fence.immutable, Some(true));
    assert!(fence_intact(&fence, &fence));
    let mut thawed = fence.clone();
    thawed.immutable = None;
    assert!(!fence_intact(&thawed, &fence));
    let mut released = fence.clone();
    released.metadata.finalizers.clear();
    assert!(!fence_intact(&released, &fence));

    let mut same_uid = status.clone();
    same_uid.sandbox.as_mut().unwrap().uid = "claim-uid".into();
    assert_eq!(
        certification_fence(NAMESPACE, &same_uid)
            .unwrap()
            .data
            .unwrap()
            .len(),
        1
    );
    let mut reversed = status.clone();
    reversed.sandbox.as_mut().unwrap().uid = "a-uid".into();
    assert_eq!(
        certification_fence(NAMESPACE, &reversed).unwrap().data.unwrap()[0].0,
        "a-uid"
    );
    let mut targetless = status;
    targetless.sandbox = None;
    targetless.sandbox_claim = None;
    assert_eq!(
        certification_fence(NAMESPACE, &targetless).unwrap_err(),
        "certification teardown fence has no exact controller owner UID"
    );
}

#[test]
fn a_recorded_fence_is_read_exactly() {
    let mut status = certification_status(SandboxPoolCertificationPhase::Replenished);
    let mut fence = certification_fence(NAMESPACE, &status).unwrap();
    fence.metadata.uid = Some("fence-uid".into());
    assert_eq!(
        read_fence_exact(Ok(fence.clone()), &status).unwrap_err(),
        "teardown fence has no resourceVersion"
    );
    let mut replaced = fence.clone();
    replaced.metadata.uid = Some("other".into());
    assert_eq!(
        read_fence_exact(Ok(replaced), &status).unwrap_err(),
        "same-named certification teardown fence is deleting or drifted"
    );
    assert_eq!(
        read_fence_exact(Err(answer(404)), &status).unwrap_err(),
        "teardown fence lookup failed: error 404"
    );
    let mut blank = status.clone();
    blank.teardown_fence.as_mut().unwrap().uid = String::new();
    let mut nameless = fence.clone();
    nameless.metadata.uid = Some(String::new());
    assert_eq!(
        read_fence_exact(Ok(nameless), &blank).unwrap_err(),
        "teardown fence has no UID"
    );
    status.teardown_fence = None;
    assert_eq!(
        read_fence_exact(Ok(fence), &status).unwrap_err(),
        "certification checkpoint has no exact teardown fence reference"
    );
    assert_eq!(
        fence_release_patch("fence-uid").to_text(),
        "[{\"op\":\"test\",\"path\":\"/metadata/uid\",\"value\":\"fence-uid\"},{\"op\":\"test\",\"path\":\"/metadata/finalizers\",\"value\":[\"kobe.kunobi.ninja/sandbox-teardown-fence\"]},{\"op\":\"replace\",\"path\":\"/metadata/finalizers\",\"value\":[]}]"
    );
}

#[test]
fn recorded_objects_are_read_and_missed_exactly() {
    let recorded = reference("SandboxClaim", "claim-uid");
    let found = object("cert-sandboxclaim", "claim-uid", empty_object());
    assert_eq!(
        read_dynamic_exact(Ok(found.clone()), NAMESPACE, &recorded).unwrap(),
        ExactRead::Exact(found.clone())
    );
    assert_eq!(
        read_dynamic_exact(Err(answer(403)), NAMESPACE, &recorded).unwrap_err(),
        "recorded SandboxClaim cannot be proven: response 403"
    );
    assert_eq!(
        read_dynamic_exact(Err(transport()), NAMESPACE, &recorded).unwrap_err(),
        "recorded SandboxClaim lookup failed: connection reset"
    );
    let drifted = ExactRead::Drifted(
        "recorded SandboxClaim is deleting or no longer matches its checkpointed identity".into(),
    );
    assert_eq!(
        read_dynamic_exact(Ok(found.clone()), "default", &recorded).unwrap(),
        drifted
    );
    let mut deleting = found.clone();
    deleting.metadata.deletion_timestamp = Some("2026-08-24T00:00:00Z".into());
    assert_eq!(
        read_dynamic_exact(Ok(deleting), NAMESPACE, &recorded).unwrap(),
        drifted
    );

    assert_eq!(
        reference_absent(Err(answer(404)), &recorded).unwrap(),
        Absence::Proven
    );
    assert_eq!(
        reference_absent(Ok(found.clone()), &recorded).unwrap(),
        Absence::Present
    );
    assert_eq!(
        reference_absent(Err(answer(403)), &recorded).unwrap(),
        Absence::Blocked("recorded SandboxClaim absence cannot be proven: response 403".into())
    );
    assert_eq!(
        reference_absent(Err(answer(500)), &recorded).unwrap_err(),
        "recorded SandboxClaim absence check failed: error 500"
    );
    let mut replaced = found;
    replaced.metadata.uid = Some("new".into());
    assert_eq!(
        reference_absent(Ok(replaced.clone()), &recorded).unwrap(),
        Absence::Blocked(
            "recorded SandboxClaim was replaced by same-named UID new before absence was proven"
                .into()
        )
    );
    replaced.metadata.uid = None;
    assert_eq!(
        reference_absent(Ok(replaced), &recorded).unwrap(),
        Absence::Blocked(
            "recorded SandboxClaim was replaced by same-named UID <none> before absence was proven"
                .into()
        )
    );

    let status = certification_status(SandboxPoolCertificationPhase::AbsenceProven);
    assert_eq!(
        identity_for_kind(&status, "SandboxClaim").unwrap().uid,
        "claim-uid"
    );
    assert_eq!(
        identity_for_kind(&status, "Sandbox").unwrap().uid,
        "sandbox-uid"
    );
    assert!(identity_for_kind(&status, "Pod").is_none());
}

#[test]
fn a_scale_is_fenced_or_not_written() {
    let recorded = reference(SANDBOX_WARM_POOL_KIND, "warm-pool-uid");
    let mut unversioned = certification_warm_pool();
    unversioned.metadata.resource_version = None;
    assert_eq!(
        plan_scale(Ok(unversioned), NAMESPACE, &recorded, 0).unwrap(),
        ScalePlan::Blocked(
            "recorded certification WarmPool has no UID/resourceVersion to fence".into()
        )
    );
    let mut unspecified = certification_warm_pool();
    unspecified.data = empty_object();
    match plan_scale(Ok(unspecified), NAMESPACE, &recorded, 5).unwrap() {
        ScalePlan::Patch(patch) => assert_eq!(
            patch.to_text(),
            "[{\"op\":\"test\",\"path\":\"/metadata/uid\",\"value\":\"warm-pool-uid\"},{\"op\":\"test\",\"path\":\"/metadata/resourceVersion\",\"value\":\"41\"},{\"op\":\"test\",\"path\":\"/spec/replicas\",\"value\":null},{\"op\":\"replace\",\"path\":\"/spec/replicas\",\"value\":5}]"
        ),
        other => panic!("unexpected plan {other:?}"),
    }
    let mut replaced = certification_warm_pool();
    replaced.metadata.uid = Some("other".into());
    assert_eq!(
        plan_scale(Ok(replaced), NAMESPACE, &recorded, 0).unwrap(),
        ScalePlan::Blocked(
            "recorded SandboxWarmPool is deleting or no longer matches its checkpointed identity"
                .into()
        )
    );
    assert_eq!(
        plan_scale(Err(answer(404)), NAMESPACE, &recorded, 0).unwrap_err(),
        "recorded SandboxWarmPool cannot be proven: response 404"
    );

    assert_eq!(
        scale_outcome(Written::Conflicted).unwrap(),
        FencedWrite::Contended
    );
    assert_eq!(
        scale_outcome(Written::Failed(answer(404))).unwrap(),
        FencedWrite::Blocked("recorded certification WarmPool cannot be scaled: response 404".into())
    );
    assert_eq!(
        scale_outcome(Written::Failed(answer(500))).unwrap_err(),
        "certification WarmPool scale failed: error 500"
    );
}

#[test]
fn captured_workloads_are_proven_again() {
    let status = certification_status(SandboxPoolCertificationPhase::WorkloadCaptured);
    let (claim, sandbox, pod) = captured_references(&status).unwrap();
    assert_eq!(claim.uid, "claim-uid");
    assert_eq!(sandbox.uid, "sandbox-uid");
    assert_eq!(pod.uid, "pod-uid");
    let mut incomplete = status.clone();
    incomplete.pod = None;
    assert_eq!(
        captured_references(&incomplete).unwrap_err(),
        "captured certification workload is missing an exact Claim, Sandbox or Pod reference"
    );

    let mut live = object("cert-sandboxclaim", "claim-uid", ready_data(3));
    live.metadata.generation = Some(3);
    validate_captured_claim(claim, NAMESPACE, Ok(live.clone())).unwrap();
    live.data = empty_object();
    assert_eq!(
        validate_captured_claim(claim, NAMESPACE, Ok(live)).unwrap_err(),
        "captured certification Claim changed or is no longer current Ready"
    );
    assert_eq!(
        validate_captured_claim(claim, NAMESPACE, Err(answer(404))).unwrap_err(),
        "captured certification Claim cannot be proven: error 404"
    );

    let mut box_object = object("cert-sandbox", "sandbox-uid", empty_object());
    box_object.metadata.generation = Some(3);
    validate_captured_sandbox(sandbox, NAMESPACE, Ok(box_object.clone())).unwrap();
    box_object.metadata.uid = Some("other".into());
    assert_eq!(
        validate_captured_sandbox(sandbox, NAMESPACE, Ok(box_object)).unwrap_err(),
        "captured certification Sandbox was replaced"
    );
    assert_eq!(
        validate_captured_sandbox(sandbox, NAMESPACE, Err(answer(404))).unwrap_err(),
        "captured certification Sandbox cannot be proven: error 404"
    );

    let target = ResolvedSandboxPod {
        sandbox_name: "cert-sandbox".into(),
        sandbox_uid: "sandbox-uid".into(),
        pod_name: "cert-pod".into(),
        pod_uid: "pod-uid".into(),
        service_name: Some("cert-service".into()),
        service_uid: Some("service-uid".into()),
    };
    let judge =
        |resolution| validate_captured_identity(resolution, sandbox, pod, &status.service);
    assert_eq!(judge(Ok(Some(target.clone()))).unwrap(), target);
    assert_eq!(judge(Err("broken".into())).unwrap_err(), "broken");
    assert_eq!(
        judge(Ok(None)).unwrap_err(),
        "captured certification Claim has no exact Ready workload"
    );
    let mut replaced = target.clone();
    replaced.pod_uid = "other".into();
    assert_eq!(
        judge(Ok(Some(replaced))).unwrap_err(),
        "captured certification Sandbox or Pod identity changed"
    );
    let mut unserved = target;
    unserved.service_uid = None;
    assert_eq!(
        judge(Ok(Some(unserved))).unwrap_err(),
        "captured certification Service identity changed"
    );

    validate_captured_storage(&vec![], &vec![], &status).unwrap();
    assert_eq!(
        validate_captured_storage(&vec![reference("Pod", "p")], &vec![], &status).unwrap_err(),
        "captured certification PVC/PV identity manifest changed"
    );
}

fn fresh_status() -> SandboxPoolCertificationStatus {
    initialized_status(
        &pool(1),
        &template(),
        &warm_pool(),
        "f".repeat(64),
        vec!["idle".into()],
    )
    .unwrap()
}

#[test]
fn an_attempt_begins_empty() {
    let status = fresh_status();
    assert_eq!(status.phase, SandboxPoolCertificationPhase::Initialized);
    assert_eq!(status.observed_generation, 7);
    assert_eq!(status.sandbox_template.uid, "template-uid");
    assert_eq!(status.sandbox_warm_pool.generation, Some(3));
    assert_eq!(status.baseline_idle_sandbox_uids, ["idle"]);
    assert!(status.sandbox_claim.is_none());
    assert!(status.teardown_fence.is_none());

    let mut unversioned = pool(1);
    unversioned.metadata.generation = None;
    assert_eq!(
        initialized_status(&unversioned, &template(), &warm_pool(), String::new(), vec![])
            .unwrap_err(),
        "SandboxPool generation is missing"
    );
    let mut unidentified = warm_pool();
    unidentified.metadata.uid = None;
    assert_eq!(
        initialized_status(&pool(1), &template(), &unidentified, String::new(), vec![])
            .unwrap_err(),
        "SandboxWarmPool UID is missing"
    );
}

#[test]
fn a_pass_begins_with_what_was_recorded() {
    let fresh = fresh_status();
    match reconcile_management_pool_certification(None, fresh.clone(), 1) {
        Attempt::Finished(progress) => {
            assert_eq!(progress.reason, "CertificationInitialized");
            assert_eq!(progress.status, fresh);
            assert_eq!(progress.ready, 1);
        }
        other => panic!("unexpected attempt {other:?}"),
    }
    assert_eq!(
        reconcile_management_pool_certification(Some(fresh.clone()), fresh.clone(), 1),
        Attempt::FindClaim(fresh.clone())
    );

    let mut complete = fresh.clone();
    complete.phase = SandboxPoolCertificationPhase::Certified;
    complete.sandbox_claim = Some(reference("SandboxClaim", "claim-uid"));
    complete.message = Some("old".into());
    match reconcile_management_pool_certification(Some(complete.clone()), fresh.clone(), 1) {
        Attempt::Finished(progress) => {
            assert!(progress.certified);
            assert_eq!(progress.status.message, None);
            assert_eq!(progress.reason, "Certified");
        }
        other => panic!("unexpected attempt {other:?}"),
    }

    let mut next = fresh.clone();
    next.observed_generation = 8;
    match reconcile_management_pool_certification(Some(complete), next.clone(), 1) {
        Attempt::Finished(progress) => {
            assert_eq!(progress.reason, "CertificationRestarted");
            assert_eq!(progress.status, next);
        }
        other => panic!("unexpected attempt {other:?}"),
    }

    let mut active = fresh.clone();
    active.phase = SandboxPoolCertificationPhase::ClaimCreated;
    active.sandbox_claim = Some(reference("SandboxClaim", "claim-uid"));
    match reconcile_management_pool_certification(Some(active.clone()), next, 1) {
        Attempt::Finished(progress) => {
            assert_eq!(progress.reason, "CleanupBlocked");
            assert_eq!(progress.status.sandbox_claim, active.sandbox_claim);
            assert_eq!(
                progress.status.phase,
                SandboxPoolCertificationPhase::CleanupBlocked
            );
        }
        other => panic!("unexpected attempt {other:?}"),
    }

    let mut blocked = active;
    blocked.phase = SandboxPoolCertificationPhase::CleanupBlocked;
    match reconcile_management_pool_certification(Some(blocked.clone()), fresh.clone(), 1) {
        Attempt::Finished(progress) => {
            assert_eq!(progress.message, "certification cleanup is blocked");
            assert_eq!(progress.status, blocked);
        }
        other => panic!("unexpected attempt {other:?}"),
    }
}

#[test]
fn every_phase_begins_its_own_step() {
    let fresh = fresh_status();
    let begin = |phase| {
        let mut status = fresh.clone();
        status.phase = phase;
        reconcile_management_pool_certification(Some(status), fresh.clone(), 0)
    };
    assert!(matches!(
        begin(SandboxPoolCertificationPhase::ClaimCreated),
        Attempt::CaptureWorkload(_)
    ));
    assert!(matches!(
        begin(SandboxPoolCertificationPhase::WorkloadCaptured),
        Attempt::RunCanary(_)
    ));
    assert!(matches!(
        begin(SandboxPoolCertificationPhase::CanaryPassed),
        Attempt::InstallFence(_)
    ));
    assert!(matches!(
        begin(SandboxPoolCertificationPhase::FenceInstalled),
        Attempt::Drain(_)
    ));
    assert!(matches!(
        begin(SandboxPoolCertificationPhase::DrainAcknowledged),
        Attempt::AwaitDrain(_)
    ));
    assert!(matches!(
        begin(SandboxPoolCertificationPhase::ClaimDeleting),
        Attempt::DeleteClaim(_)
    ));
    assert!(matches!(
        begin(SandboxPoolCertificationPhase::AbsenceProven),
        Attempt::RestoreCapacity(_)
    ));
    assert!(matches!(
        begin(SandboxPoolCertificationPhase::Replenished),
        Attempt::ReleaseFence(_)
    ));
    assert!(matches!(
        begin(SandboxPoolCertificationPhase::FenceFinalizerRemoved),
        Attempt::DeleteFence(_)
    ));
    assert!(matches!(
        begin(SandboxPoolCertificationPhase::FenceDeleting),
        Attempt::ConfirmFence(_)
    ));
}

#[test]
fn only_one_release_acknowledges_generations() {
    check_release(REQUIRED_POOL_ACK_RELEASE).unwrap();
    assert_eq!(
        check_release("v0.5.5").unwrap_err(),
        "durable pool certification requires Agent Sandbox v0.5.6 for SandboxWarmPool.status.observedGeneration; this build pins v0.5.5"
    );
}

#[test]
fn teardown_proves_identities_only() {
    assert!(!reduced_validation(&None));
    assert!(!reduced_validation(&Some(fresh_status())));
    assert!(reduced_validation(&Some(certification_status(
        SandboxPoolCertificationPhase::FenceInstalled
    ))));
    assert!(reduced_validation(&Some(certification_status(
        SandboxPoolCertificationPhase::CleanupBlocked
    ))));
    assert!(!reduced_validation(&Some(certification_status(
        SandboxPoolCertificationPhase::Certified
    ))));

    let mut status = fresh_status();
    status.phase = SandboxPoolCertificationPhase::FenceInstalled;
    let mut scaled = warm_pool();
    scaled.metadata.generation = Some(4);
    assert_eq!(
        validate_teardown_population(&pool(1), NAMESPACE, &template(), &scaled, &status).unwrap(),
        1
    );
    scaled.data = empty_object();
    assert_eq!(
        validate_teardown_population(&pool(1), NAMESPACE, &template(), &scaled, &status).unwrap(),
        0
    );
    let mut moved = template();
    moved.metadata.generation = Some(3);
    assert_eq!(
        validate_teardown_population(&pool(1), NAMESPACE, &moved, &scaled, &status).unwrap_err(),
        "SandboxTemplate no longer matches the immutable lease provenance"
    );
}

#[test]
fn a_found_claim_is_recorded_and_a_missing_one_created() {
    let pool = pool(1);
    let status = fresh_status();
    let desired = certification_claim(&pool, NAMESPACE, "kobe-agents", MANAGED_BY).unwrap();
    let find = |lookup| find_claim(&pool, &desired, MANAGED_BY, lookup, status.clone(), 2);

    let mut found = desired.clone();
    found.metadata.uid = Some("claim-uid".into());
    found.metadata.generation = Some(1);
    match find(Ok(found)).unwrap() {
        ClaimStep::Finished(progress) => {
            assert_eq!(
                progress.status.phase,
                SandboxPoolCertificationPhase::ClaimCreated
            );
            let recorded = progress.status.sandbox_claim.unwrap();
            assert_eq!(recorded.uid, "claim-uid");
            assert_eq!(recorded.kind, "SandboxClaim");
            assert_eq!(progress.ready, 2);
        }
        other => panic!("unexpected step {other:?}"),
    }
    assert_eq!(
        find(Ok(desired.clone())).unwrap_err(),
        "SandboxClaim UID is missing"
    );
    assert_eq!(
        find(Err(answer(404))).unwrap(),
        ClaimStep::Create(status.clone())
    );
    match find(Err(answer(403))).unwrap() {
        ClaimStep::Finished(progress) => assert_eq!(
            progress.message,
            "certification Claim lookup is forbidden: response 403"
        ),
        other => panic!("unexpected step {other:?}"),
    }
    assert_eq!(
        find(Err(transport())).unwrap_err(),
        "certification Claim lookup failed: connection reset"
    );
    let mut foreign = desired.clone();
    foreign.metadata.owner_references.clear();
    match find(Ok(foreign)).unwrap() {
        ClaimStep::Finished(progress) => {
            assert_eq!(
                progress.status.phase,
                SandboxPoolCertificationPhase::CleanupBlocked
            );
            assert_eq!(
                progress.status.message.as_deref(),
                Some("certification Claim is not controlled by the exact SandboxPool")
            );
        }
        other => panic!("unexpected step {other:?}"),
    }

    let created = claim_created(Ok(()), status.clone(), 2).unwrap();
    assert!(created.mutated);
    assert_eq!(created.status, status);
    assert_eq!(
        claim_created(Err(answer(409)), status.clone(), 2).unwrap_err(),
        "certification Claim create failed: error 409"
    );
}

#[test]
fn a_recorded_claim_is_awaited() {
    let status = certification_status(SandboxPoolCertificationPhase::ClaimCreated);
    let judge = |lookup| recorded_claim_ready(NAMESPACE, lookup, status.clone(), 0);
    let mut live = object("cert-sandboxclaim", "claim-uid", ready_data(3));
    live.metadata.generation = Some(3);
    match judge(Ok(live.clone())).unwrap() {
        ObjectStep::Found(kept, found) => {
            assert_eq!(kept, status);
            assert_eq!(found, live);
        }
        other => panic!("unexpected step {other:?}"),
    }
    let mut pending = live.clone();
    pending.data = empty_object();
    match judge(Ok(pending)).unwrap() {
        ObjectStep::Finished(progress) => {
            assert_eq!(progress.reason, "CertificationClaimPending");
            assert_eq!(progress.status, status);
        }
        other => panic!("unexpected step {other:?}"),
    }
    let mut replaced = live.clone();
    replaced.metadata.uid = Some("other".into());
    match judge(Ok(replaced)).unwrap() {
        ObjectStep::Finished(progress) => assert_eq!(
            progress.message,
            "recorded certification Claim was replaced or changed identity"
        ),
        other => panic!("unexpected step {other:?}"),
    }
    match judge(Err(answer(404))).unwrap() {
        ObjectStep::Finished(progress) => assert_eq!(
            progress.message,
            "recorded certification Claim cannot be proven: response 404"
        ),
        other => panic!("unexpected step {other:?}"),
    }
    assert_eq!(
        judge(Err(transport())).unwrap_err(),
        "certification Claim lookup failed: connection reset"
    );
    let mut unrecorded = status;
    unrecorded.sandbox_claim = None;
    match recorded_claim_ready(NAMESPACE, Ok(live), unrecorded, 0).unwrap() {
        ObjectStep::Finished(progress) => assert_eq!(
            progress.message,
            "ClaimCreated checkpoint has no exact SandboxClaim reference"
        ),
        other => panic!("unexpected step {other:?}"),
    }
}

#[test]
fn a_workload_is_captured_with_its_storage() {
    assert_eq!(claimed_workload(Ok(Some(resolved()))).unwrap(), resolved());
    assert_eq!(
        claimed_workload(Ok(None)).unwrap_err(),
        "dedicated certification Claim has no exact Ready workload"
    );
    assert_eq!(claimed_workload(Err("lost".into())).unwrap_err(), "lost");

    let mut status = fresh_status();
    status.phase = SandboxPoolCertificationPhase::ClaimCreated;
    status.sandbox_claim = Some(reference("SandboxClaim", "claim-uid"));
    match claimed_sandbox(Err(answer(404)), status.clone(), 0) {
        ObjectStep::Finished(progress) => assert_eq!(
            progress.message,
            "certification Sandbox cannot be proven: error 404"
        ),
        other => panic!("unexpected step {other:?}"),
    }
    assert!(matches!(
        claimed_sandbox(Ok(ready_sandbox()), status.clone(), 0),
        ObjectStep::Found(_, _)
    ));

    let (pod, service) = reference_from_resolved(&resolved(), NAMESPACE);
    assert_eq!(pod.kind, "Pod");
    assert_eq!(pod.uid, "pod-uid");
    assert_eq!(pod.generation, None);
    assert_eq!(service.unwrap().name, "sandbox-one");
    let mut unserved = resolved();
    unserved.service_uid = None;
    assert!(reference_from_resolved(&unserved, NAMESPACE).1.is_none());

    let captured =
        capture_workload(NAMESPACE, &ready_sandbox(), &resolved(), status.clone()).unwrap();
    assert_eq!(captured.sandbox.as_ref().unwrap().uid, "sandbox-uid");
    let progress = workload_captured(
        vec![reference("Pod", "pvc")],
        vec![reference("Pod", "pv")],
        captured,
        1,
    );
    assert_eq!(
        progress.status.phase,
        SandboxPoolCertificationPhase::WorkloadCaptured
    );
    assert_eq!(progress.status.persistent_volume_claims[0].uid, "pvc");
    assert_eq!(progress.status.persistent_volumes[0].uid, "pv");
    assert_eq!(progress.status.sandbox_claim, status.sandbox_claim);
    let mut unidentified = ready_sandbox();
    unidentified.metadata.uid = None;
    assert_eq!(
        capture_workload(NAMESPACE, &unidentified, &resolved(), status).unwrap_err(),
        "Sandbox UID is missing"
    );
}

#[test]
fn a_canary_passes_or_blocks() {
    let mut status = certification_status(SandboxPoolCertificationPhase::WorkloadCaptured);
    status.canary_passed_at = None;
    let passed = canary_finished_at(CanaryOutcome::Passed, "then".into(), status.clone(), 0);
    assert_eq!(
        passed.status.phase,
        SandboxPoolCertificationPhase::CanaryPassed
    );
    assert_eq!(passed.status.canary_passed_at.as_deref(), Some("then"));
    let now = canary_finished(CanaryOutcome::Passed, status.clone(), 0);
    assert!(
        chrono::DateTime::parse_from_rfc3339(&now.status.canary_passed_at.unwrap()).is_ok()
    );
    for outcome in [
        CanaryOutcome::Failed {
            reason: "exit 1".into(),
        },
        CanaryOutcome::Inconclusive {
            reason: "exit 1".into(),
        },
    ] {
        let blocked = canary_finished(outcome, status.clone(), 0);
        assert_eq!(
            blocked.message,
            "pool execution canary did not pass: exit 1"
        );
        assert_eq!(
            blocked.status.phase,
            SandboxPoolCertificationPhase::CleanupBlocked
        );
        assert_eq!(blocked.status.sandbox, status.sandbox);
    }
}

#[test]
fn a_fence_is_found_created_and_probed() {
    let mut status = certification_status(SandboxPoolCertificationPhase::CanaryPassed);
    status.teardown_fence = None;
    let desired = certification_fence(NAMESPACE, &status).unwrap();
    let find = |lookup| find_fence(&desired, lookup, status.clone(), 0);
    let mut found = desired.clone();
    found.metadata.uid = Some("fence-uid".into());
    let fenced = match find(Ok(found.clone())).unwrap() {
        FenceStep::Probe(fenced) => fenced,
        other => panic!("unexpected step {other:?}"),
    };
    assert_eq!(fenced.teardown_fence.as_ref().unwrap().uid, "fence-uid");
    assert_eq!(fenced.teardown_fence.as_ref().unwrap().kind, "ConfigMap");
    found.immutable = Some(false);
    match find(Ok(found)).unwrap() {
        FenceStep::Finished(progress) => assert_eq!(
            progress.message,
            "same-named certification teardown fence is deleting or drifted"
        ),
        other => panic!("unexpected step {other:?}"),
    }
    assert_eq!(
        find(Ok(desired.clone())).unwrap_err(),
        "ConfigMap UID is missing"
    );
    assert_eq!(
        find(Err(answer(404))).unwrap(),
        FenceStep::Create(status.clone())
    );
    match find(Err(answer(403))).unwrap() {
        FenceStep::Finished(progress) => assert_eq!(
            progress.message,
            "certification fence lookup is forbidden: response 403"
        ),
        other => panic!("unexpected step {other:?}"),
    }
    assert_eq!(
        find(Err(answer(500))).unwrap_err(),
        "certification fence lookup failed: error 500"
    );
    assert!(fence_created(Ok(()), status.clone(), 0).unwrap().mutated);
    assert_eq!(
        fence_created(Err(answer(500)), status.clone(), 0).unwrap_err(),
        "certification fence create failed: error 500"
    );

    let installed = fence_probed(Ok(true), fenced.clone(), 0);
    assert_eq!(
        installed.status.phase,
        SandboxPoolCertificationPhase::FenceInstalled
    );
    let pending = fence_probed(Ok(false), fenced.clone(), 0);
    assert_eq!(
        pending.status.phase,
        SandboxPoolCertificationPhase::CanaryPassed
    );
    assert_eq!(pending.reason, "CertificationFencePropagationPending");
    assert_eq!(pending.status.teardown_fence, fenced.teardown_fence);
    assert_eq!(
        pending.status.message.as_deref(),
        Some("waiting for the teardown-fence VAP parameter informer to deny the exact dry-run descendant CREATE")
    );
    let refused = fence_probed(Err("no".into()), fenced.clone(), 0);
    assert_eq!(refused.reason, "CleanupBlocked");
    assert_eq!(refused.status.teardown_fence, fenced.teardown_fence);
}

#[test]
fn contended_and_refused_scales_do_not_advance() {
    let drain = certification_status(SandboxPoolCertificationPhase::FenceInstalled);
    let restore = certification_status(SandboxPoolCertificationPhase::AbsenceProven);
    let contended =
        fenced_scale_to_zero_drains(FencedWrite::Contended, drain.clone(), 0).unwrap();
    assert_eq!(contended.reason, "CertificationDrainContended");
    assert_eq!(contended.status, drain);
    let blocked =
        fenced_scale_to_zero_drains(FencedWrite::Blocked("no".into()), drain.clone(), 0).unwrap();
    assert_eq!(blocked.message, "no");
    let mut unversioned = certification_warm_pool();
    unversioned.metadata.generation = None;
    assert_eq!(
        fenced_scale_to_zero_drains(FencedWrite::Updated(unversioned.clone()), drain, 0)
            .unwrap_err(),
        "drained certification WarmPool has no generation"
    );
    let contended =
        absence_proven_restores_capacity(FencedWrite::Contended, restore.clone(), 0).unwrap();
    assert_eq!(contended.reason, "CertificationRestoreContended");
    let blocked =
        absence_proven_restores_capacity(FencedWrite::Blocked("no".into()), restore.clone(), 0)
            .unwrap();
    assert_eq!(blocked.reason, "CleanupBlocked");
    assert_eq!(
        absence_proven_restores_capacity(FencedWrite::Updated(unversioned), restore, 0)
            .unwrap_err(),
        "replenished certification WarmPool has no generation"
    );
}

#[test]
fn every_recorded_object_is_proven_absent_in_order() {
    let mut status = certification_status(SandboxPoolCertificationPhase::AbsenceProven);
    let mut claim = reference("Pod", "pvc-uid");
    claim.kind = "PersistentVolumeClaim".into();
    claim.name = "data".into();
    let mut volume = reference("Pod", "pv-uid");
    volume.name = "volume".into();
    status.persistent_volume_claims = vec![claim];
    status.persistent_volumes = vec![volume];
    assert_eq!(
        next_absence(0, status.clone(), 0),
        AbsenceQuery::Claim("cert-sandboxclaim".into())
    );
    assert_eq!(
        next_absence(1, status.clone(), 0),
        AbsenceQuery::Sandbox("cert-sandbox".into())
    );
    assert_eq!(
        next_absence(2, status.clone(), 0),
        AbsenceQuery::VolumeClaim("data".into())
    );
    assert_eq!(
        next_absence(3, status.clone(), 0),
        AbsenceQuery::Volume("volume".into())
    );
    assert_eq!(
        next_absence(4, status.clone(), 0),
        AbsenceQuery::Complete(status.clone())
    );

    let present = |proven: u128, uid: &str| {
        match absence_observed(
            proven,
            Ok(object("found", uid, empty_object())),
            status.clone(),
            0,
        )
        .unwrap()
        {
            AbsenceStep::Finished(progress) => progress,
            other => panic!("unexpected step {other:?}"),
        }
    };
    assert_eq!(
        present(0, "claim-uid").message,
        "waiting for recorded SandboxClaim to finish terminating"
    );
    assert_eq!(
        present(1, "sandbox-uid").message,
        "waiting for recorded Sandbox to finish terminating"
    );
    assert_eq!(
        present(2, "pvc-uid").message,
        "waiting for captured certification PVC to be reclaimed"
    );
    assert_eq!(
        present(3, "pv-uid").message,
        "waiting for captured certification PV to be reclaimed"
    );
    assert_eq!(
        present(3, "other").message,
        "captured certification PV was replaced before absence was proven"
    );
    assert_eq!(
        present(2, "other").message,
        "recorded PersistentVolumeClaim was replaced by same-named UID other before absence was proven"
    );
    match absence_observed(3, Err(answer(403)), status.clone(), 0).unwrap() {
        AbsenceStep::Finished(progress) => assert_eq!(
            progress.message,
            "captured PV absence cannot be proven: response 403"
        ),
        other => panic!("unexpected step {other:?}"),
    }
    assert_eq!(
        absence_observed(3, Err(transport()), status.clone(), 0).unwrap_err(),
        "captured PV absence check failed: connection reset"
    );
    assert_eq!(
        absence_observed(3, Err(answer(404)), status.clone(), 0).unwrap(),
        AbsenceStep::Proven(status.clone())
    );

    let mut unrecorded = status;
    unrecorded.sandbox = None;
    match next_absence(1, unrecorded, 0) {
        AbsenceQuery::Blocked(progress) => assert_eq!(
            progress.message,
            "AbsenceProven checkpoint has no exact Sandbox reference"
        ),
        other => panic!("unexpected query {other:?}"),
    }
}

#[test]
fn replenishment_waits_for_the_whole_capacity() {
    let status = certification_status(SandboxPoolCertificationPhase::Replenished);
    let observe = |data: Json| {
        let mut warm_pool = certification_warm_pool();
        warm_pool.metadata.generation = Some(9);
        warm_pool.data = data;
        match replenishment_observed(NAMESPACE, 3, Ok(warm_pool), status.clone(), 0).unwrap() {
            ReplenishStep::Finished(progress) => progress.message,
            other => panic!("unexpected step {other:?}"),
        }
    };
    assert_eq!(
        observe(warm_pool_data(8, 3, 3)),
        "waiting for WarmPool generation 9 to be observed"
    );
    assert_eq!(
        observe(warm_pool_data(9, 3, 2)),
        "waiting for 3 replenished ready replicas (now Some(2))"
    );
    assert_eq!(
        observe(Json::object1(
            "status",
            Json::object1("observedGeneration", number(9))
        )),
        "waiting for 3 replenished ready replicas (now None)"
    );
    match replenishment_listed(2, Ok(vec![]), status.clone(), 0).unwrap() {
        FreshStep::Finished(progress) => assert_eq!(
            progress.message,
            "waiting for the full replenished Sandbox set to be listable"
        ),
        other => panic!("unexpected step {other:?}"),
    }
    assert_eq!(
        replenishment_listed(2, Err(transport()), status.clone(), 0).unwrap_err(),
        "replenished Sandbox list failed: connection reset"
    );
    let sacrificed = object("again", "sandbox-uid", empty_object());
    match replenishment_listed(1, Ok(vec![sacrificed]), status.clone(), 0).unwrap() {
        FreshStep::Finished(progress) => assert_eq!(
            progress.message,
            "replenished capacity preserved replaced-generation Sandbox UID sandbox-uid"
        ),
        other => panic!("unexpected step {other:?}"),
    }
    let mut unrecorded = status.clone();
    unrecorded.replenish_generation = None;
    match replenishment_observed(NAMESPACE, 3, Err(answer(404)), unrecorded, 0).unwrap() {
        ReplenishStep::Finished(progress) => assert_eq!(
            progress.message,
            "Replenished checkpoint has no exact WarmPool replenish generation"
        ),
        other => panic!("unexpected step {other:?}"),
    }
    let conflicted =
        replenished_proves_and_releases_the_fence(Released::Conflicted, status.clone(), 0)
            .unwrap();
    assert_eq!(conflicted.reason, "CertificationFenceReleaseContended");
    assert_eq!(
        replenished_proves_and_releases_the_fence(Released::Failed(answer(500)), status, 0)
            .unwrap_err(),
        "teardown fence finalizer release failed: error 500"
    );
}

#[test]
fn a_released_fence_is_deleted_once() {
    let status = certification_status(SandboxPoolCertificationPhase::FenceFinalizerRemoved);
    for deleted in [Ok(()), Err(answer(404))] {
        let progress = released_fence_is_deleted(deleted, status.clone(), 0).unwrap();
        assert_eq!(
            progress.status.phase,
            SandboxPoolCertificationPhase::FenceDeleting
        );
        assert!(progress.mutated);
    }
    let contended = released_fence_is_deleted(Err(answer(409)), status.clone(), 0).unwrap();
    assert_eq!(contended.reason, "CertificationFenceTerminating");
    let forbidden = released_fence_is_deleted(Err(answer(403)), status.clone(), 0).unwrap();
    assert_eq!(
        forbidden.message,
        "teardown fence deletion is forbidden: response 403"
    );
    assert_eq!(
        released_fence_is_deleted(Err(answer(500)), status, 0).unwrap_err(),
        "teardown fence deletion failed: error 500"
    );
}

#[test]
fn only_a_current_certificate_lets_a_claim_pass() {
    let mut pool_one = pool(1);
    let judge = |pool: &SandboxPool, expected: Option<&SandboxObjectReference>| {
        revalidate_certified_management_pool(
            pool,
            &template(),
            &warm_pool(),
            RUNTIME_API,
            None,
            expected,
        )
    };
    assert_eq!(
        judge(&pool_one, None).unwrap_err(),
        "SandboxPool has no durable certification receipt"
    );
    let mut receipt = fresh_status();
    receipt.fingerprint =
        certification_fingerprint(&pool_one, &template(), &warm_pool(), RUNTIME_API).unwrap();
    receipt.replenish_generation = Some(9);
    let with = |receipt: &SandboxPoolCertificationStatus| SandboxPoolStatus {
        certification: Some(receipt.clone()),
        ..SandboxPoolStatus::default()
    };
    pool_one.status = Some(with(&receipt));
    assert_eq!(
        judge(&pool_one, None).unwrap_err(),
        "SandboxPool certification receipt is not current and Certified"
    );
    receipt.phase = SandboxPoolCertificationPhase::Certified;
    pool_one.status = Some(with(&receipt));
    let (template_reference, warm_pool_reference) = judge(&pool_one, None).unwrap();
    assert_eq!(template_reference, receipt.sandbox_template);
    assert_eq!(warm_pool_reference.uid, "warm-pool-uid");
    assert_eq!(warm_pool_reference.generation, Some(9));

    let expected = reference(SANDBOX_WARM_POOL_KIND, "expected-uid");
    let (_, warm_pool_reference) = judge(&pool_one, Some(&expected)).unwrap();
    assert_eq!(warm_pool_reference.uid, "expected-uid");
    assert_eq!(warm_pool_reference.generation, Some(9));

    receipt.fingerprint = "0".repeat(64);
    pool_one.status = Some(with(&receipt));
    assert_eq!(
        judge(&pool_one, None).unwrap_err(),
        "SandboxPool certification receipt is not current and Certified"
    );
    assert_eq!(
        certified_population(3),
        ManagementPoolCertification { ready: 3 }
    );
}

#[test]
fn a_whole_attempt_keeps_its_evidence() {
    let pool = pool(1);
    let fresh = fresh_status();
    let desired = certification_claim(&pool, NAMESPACE, "kobe-agents", MANAGED_BY).unwrap();
    let mut found = desired.clone();
    found.metadata.uid = Some("claim-uid".into());
    let claimed = match find_claim(&pool, &desired, MANAGED_BY, Ok(found), fresh.clone(), 1) {
        Ok(ClaimStep::Finished(progress)) => progress.status,
        other => panic!("unexpected step {other:?}"),
    };
    let captured =
        capture_workload(NAMESPACE, &ready_sandbox(), &resolved(), claimed.clone()).unwrap();
    let captured = workload_captured(vec![], vec![], captured, 1).status;
    let passed = canary_finished_at(CanaryOutcome::Passed, "t0".into(), captured, 1).status;
    let desired_fence = certification_fence(NAMESPACE, &passed).unwrap();
    let mut fence = desired_fence.clone();
    fence.metadata.uid = Some("fence-uid".into());
    let fenced = match find_fence(&desired_fence, Ok(fence), passed, 1) {
        Ok(FenceStep::Probe(status)) => status,
        other => panic!("unexpected step {other:?}"),
    };
    let installed = fence_probed(Ok(true), fenced, 1).status;
    let mut scaled = warm_pool();
    scaled.metadata.generation = Some(4);
    let drained = fenced_scale_to_zero_drains(FencedWrite::Updated(scaled), installed, 1)
        .unwrap()
        .status;
    let mut empty = warm_pool();
    empty.metadata.generation = Some(4);
    empty.data = warm_pool_data(4, 0, 0);
    let deleting = drain_waits_for_the_causal_barrier(NAMESPACE, Ok(empty), drained, 1)
        .unwrap()
        .status;
    let gone = match claim_deleting_foreground_deletes(Err(answer(404)), deleting, 1) {
        Ok(DeleteStep::Finished(progress)) => progress.status,
        other => panic!("unexpected step {other:?}"),
    };
    let mut restored = warm_pool();
    restored.metadata.generation = Some(5);
    let replenished = absence_proven_restores_capacity(FencedWrite::Updated(restored), gone, 1)
        .unwrap()
        .status;
    let released =
        replenished_proves_and_releases_the_fence(Released::Accepted, replenished, 1)
            .unwrap()
            .status;
    let deleted = released_fence_is_deleted(Ok(()), released, 1).unwrap().status;
    let certified =
        fence_absence_certifies_at(Err(answer(404)), "t1".into(), deleted, 1).unwrap();
    assert!(certified.certified);
    let status = certified.status;
    assert_eq!(status.phase, SandboxPoolCertificationPhase::Certified);
    assert_eq!(status.fingerprint, fresh.fingerprint);
    assert_eq!(status.sandbox_claim, claimed.sandbox_claim);
    assert_eq!(status.sandbox.unwrap().uid, "sandbox-uid");
    assert_eq!(status.canary_passed_at.as_deref(), Some("t0"));
    assert_eq!(status.drain_generation, Some(4));
    assert_eq!(status.replenish_generation, Some(5));
    assert_eq!(status.certified_at.as_deref(), Some("t1"));
    assert_eq!(status.teardown_fence.unwrap().uid, "fence-uid");
}

/// A cluster with two idle sandboxes; what it is asked is noted.
struct Cluster {
    sandboxes: Vec<DynamicObject>,
    asked: Vec<String>,
    lost_node: Option<usize>,
}

/// The objects of one sandbox, under other names.
fn renamed(text: &str, index: usize) -> String {
    if index == 0 {
        text.to_string()
    } else {
        text.replace("one", "two").replace("-uid", "-uid-2")
    }
}

fn member_sandbox(index: usize) -> DynamicObject {
    let mut sandbox = ready_sandbox();
    sandbox.metadata.name = Some(renamed("sandbox-one", index));
    sandbox.metadata.uid = Some(renamed("sandbox-uid", index));
    set(
        member(&mut sandbox.data, "status"),
        "selector",
        text(&renamed("app=one", index)),
    );
    set(
        member(&mut sandbox.data, "status"),
        "service",
        text(&renamed("sandbox-one", index)),
    );
    sandbox
}

fn member_pod(index: usize) -> Pod {
    let name = renamed("sandbox-one", index);
    let uid = renamed("sandbox-uid", index);
    let mut pod = ready_pod();
    pod.metadata.name = Some(renamed("pod-one", index));
    pod.metadata.uid = Some(renamed("pod-uid", index));
    pod.metadata.labels[0].1 = upstream_name_hash(&name);
    pod.metadata.owner_references = vec![controller_owner(SANDBOX_KIND, &name, &uid)];
    pod
}

fn member_service(index: usize) -> Service {
    let name = renamed("sandbox-one", index);
    let uid = renamed("sandbox-uid", index);
    let hash = upstream_name_hash(&name);
    let mut service = service();
    service.metadata.name = Some(name.clone());
    service.metadata.uid = Some(renamed("service-uid", index));
    service.metadata.labels[0].1 = hash.clone();
    service.metadata.owner_references = vec![controller_owner(SANDBOX_KIND, &name, &uid)];
    service.spec.as_mut().unwrap().selector = Some(vec![(SANDBOX_HASH_LABEL.into(), hash)]);
    service
}

impl Cluster {
    fn pods(&mut self, selector: &str) -> ClusterAnswer {
        self.asked.push(format!("pods {selector}"));
        ClusterAnswer::Pods(Ok(vec![member_pod(usize::from(selector == "app=two"))]))
    }

    fn service(&mut self, name: &str) -> ClusterAnswer {
        self.asked.push(format!("service {name}"));
        ClusterAnswer::Service(Ok(member_service(usize::from(name == "sandbox-two"))))
    }

    fn workload(&mut self, stage: &WorkloadStage) -> ClusterAnswer {
        match stage {
            WorkloadStage::Pods(selector) => self.pods(selector),
            WorkloadStage::Service(name, _) => self.service(name),
            WorkloadStage::Node(name) => {
                self.asked.push(format!("node {name}"));
                let nodes = self.asked.iter().filter(|asked| asked.starts_with("node")).count();
                ClusterAnswer::Node(if self.lost_node == Some(nodes) {
                    Err(answer(404))
                } else {
                    Ok(node())
                })
            }
        }
    }

    fn answer(&mut self, stage: &CensusStage) -> CensusAnswer {
        match stage {
            CensusStage::Runtime => {
                self.asked.push("runtime".into());
                CensusAnswer::Runtime(Ok(()))
            }
            CensusStage::Policy { name, .. } => {
                self.asked.push(format!("policy {name}"));
                CensusAnswer::Policy(Ok(strict_policy()))
            }
            CensusStage::Sandboxes { selector, .. } => {
                self.asked.push(format!("sandboxes {selector}"));
                CensusAnswer::Sandboxes(Ok(self.sandboxes.clone()))
            }
            CensusStage::ExpectedPod { .. } => CensusAnswer::ExpectedPod(Ok(pod_spec())),
            CensusStage::Idle { stage, .. } => CensusAnswer::Cluster(match stage {
                IdleStage::Pods(selector) => self.pods(selector),
                IdleStage::Service(name, _) => self.service(name),
            }),
            CensusStage::Workload { stage, .. } => CensusAnswer::Cluster(self.workload(stage)),
        }
    }

    fn census(&mut self, capacity: u32) -> Result<ValidatedPopulation, String> {
        let pool = pool(capacity);
        let template = template();
        let mut warm_pool = warm_pool();
        for field in ["replicas", "readyReplicas"] {
            let count = number(capacity.into());
            set(member(&mut warm_pool.data, "status"), field, count);
        }
        let projection = projection();
        let subject = CensusSubject {
            pool: &pool,
            namespace: NAMESPACE,
            template: &template,
            warm_pool: &warm_pool,
            expected_template: None,
            expected_warm_pool: None,
            projection: &projection,
        };
        let mut stage = begin_management_population(&subject)?;
        loop {
            let answer = self.answer(&stage);
            match validate_management_population(&subject, stage, answer)? {
                CensusStep::Ask(next) => stage = next,
                CensusStep::Proven(population) => return Ok(population),
            }
        }
    }
}

fn cluster() -> Cluster {
    Cluster {
        sandboxes: vec![member_sandbox(1), member_sandbox(0)],
        asked: vec![],
        lost_node: None,
    }
}

#[test]
fn a_census_proves_every_member_in_turn() {
    let mut two = cluster();
    let population = two.census(2).unwrap();
    assert_eq!(population.ready, 2);
    assert_eq!(
        population.baseline_idle_sandbox_uids,
        ["sandbox-uid", "sandbox-uid-2"]
    );
    assert_eq!(population.policy, strict_policy());
    assert_eq!(population.expected_pod, pod_spec());
    assert_eq!(
        two.asked,
        [
            "runtime",
            "policy kobe-agents-network-policy",
            "sandboxes agents.x-k8s.io/warm-pool-sandbox=8bc6ef7b",
            "pods app=two",
            "service sandbox-two",
            "pods app=two",
            "node node-a",
            "service sandbox-two",
            "pods app=one",
            "service sandbox-one",
            "pods app=one",
            "node node-a",
            "service sandbox-one",
        ]
    );
}

#[test]
fn one_unproven_member_fails_the_census() {
    let mut lost = cluster();
    lost.lost_node = Some(2);
    assert_eq!(
        lost.census(2).unwrap_err(),
        "Sandbox node lookup failed: error 404"
    );
    assert_eq!(lost.asked.len(), 12);

    let mut foreign = cluster();
    foreign.sandboxes[1].metadata.owner_references.clear();
    assert_eq!(
        foreign.census(2).unwrap_err(),
        "WarmPool contains a deleting, foreign or stale-ready Sandbox"
    );
    assert_eq!(foreign.asked.len(), 8);

    assert_eq!(
        cluster().census(1).unwrap_err(),
        "WarmPool status count does not match its exact live Sandbox list"
    );
    let mut none = cluster();
    none.sandboxes.clear();
    let population = none.census(0).unwrap();
    assert!(population.baseline_idle_sandbox_uids.is_empty());
    assert_eq!(none.asked.len(), 3);
}

#[test]
fn a_census_needs_the_trusted_tier_and_a_projected_pod() {
    let mut hardened = pool(1);
    hardened.spec.isolation = SandboxIsolation::Kata {
        runtime_class_name: "kata".into(),
    };
    let (template, warm_pool, projection) = (template(), warm_pool(), projection());
    let subject = CensusSubject {
        pool: &hardened,
        namespace: NAMESPACE,
        template: &template,
        warm_pool: &warm_pool,
        expected_template: None,
        expected_warm_pool: None,
        projection: &projection,
    };
    assert_eq!(
        begin_management_population(&subject).unwrap_err(),
        "gVisor and Kata remain unqualified until isolation issue #14 is closed"
    );
    let stage = CensusStage::ExpectedPod {
        warm_pool_uid: "warm-pool-uid".into(),
        policy: strict_policy(),
        members: vec![],
    };
    let answer = CensusAnswer::ExpectedPod(Err("no Pod".into()));
    assert_eq!(
        validate_management_population(&subject, stage, answer).unwrap_err(),
        "no Pod"
    );
}

fn captured_status() -> SandboxPoolCertificationStatus {
    let mut status = certification_status(SandboxPoolCertificationPhase::WorkloadCaptured);
    let (pod, service) = reference_from_resolved(&resolved(), NAMESPACE);
    status.sandbox.as_mut().unwrap().name = "sandbox-one".into();
    status.pod = Some(pod);
    status.service = service;
    status
}

fn live_claim() -> DynamicObject {
    let mut claim = object("cert-sandboxclaim", "claim-uid", ready_data(3));
    claim.metadata.generation = Some(3);
    claim
}

fn revalidate(
    status: &SandboxPoolCertificationStatus,
    cluster: &mut Cluster,
    volume_claims: Vec<ObjectMeta>,
) -> Result<ResolvedSandboxPod, String> {
    let (pool, policy, expected_pod) = (pool(1), strict_policy(), pod_spec());
    let validation = WorkloadValidation {
        pool: &pool,
        template_name: "kobe-agents",
        policy: &policy,
        expected_pod: &expected_pod,
    };
    let mut stage = begin_captured_workload(status)?;
    loop {
        let answer = match &stage {
            CapturedStage::Claim(name) => {
                cluster.asked.push(format!("claim {name}"));
                CapturedAnswer::Object(Ok(live_claim()))
            }
            CapturedStage::Sandbox(name, _) => {
                cluster.asked.push(format!("sandbox {name}"));
                CapturedAnswer::Object(Ok(cluster.sandboxes[1].clone()))
            }
            CapturedStage::Resolution(claim, _) => {
                assert_eq!(claim, &live_claim());
                CapturedAnswer::Resolution(Ok(Some(resolved())))
            }
            CapturedStage::Workload(_, stage) => CapturedAnswer::Cluster(cluster.workload(stage)),
            CapturedStage::VolumeClaims(_) => CapturedAnswer::VolumeClaims(Ok(volume_claims.clone())),
            CapturedStage::Volumes(_, claims) => {
                cluster.asked.push(format!("volumes of {}", claims.len()));
                CapturedAnswer::Volumes(Ok(vec![]))
            }
        };
        match revalidate_captured_workload(&validation, NAMESPACE, status, stage, answer)? {
            CapturedStep::Ask(next) => stage = next,
            CapturedStep::Proven(found) => return Ok(found),
        }
    }
}

#[test]
fn a_captured_workload_is_found_again_or_blocks() {
    let status = captured_status();
    let mut found = cluster();
    let target = revalidate(&status, &mut found, vec![]).unwrap();
    assert_eq!(target, resolved());
    assert_eq!(
        found.asked,
        [
            "claim cert-sandboxclaim",
            "sandbox sandbox-one",
            "pods app=one",
            "node node-a",
            "service sandbox-one",
            "volumes of 0",
        ]
    );
    assert_eq!(
        captured_target(Ok(target.clone()), status.clone(), 1),
        TargetStep::Target(status.clone(), target)
    );

    let owned = ObjectMeta {
        name: Some("data".into()),
        uid: Some("pvc-uid".into()),
        owner_references: vec![controller_owner(SANDBOX_KIND, "sandbox-one", "sandbox-uid")],
        ..ObjectMeta::default()
    };
    let error = revalidate(&status, &mut cluster(), vec![owned]).unwrap_err();
    assert_eq!(
        error,
        "captured certification PVC/PV identity manifest changed"
    );
    match captured_target(Err(error.clone()), status.clone(), 1) {
        TargetStep::Finished(progress) => {
            assert_eq!(progress.message, error);
            assert_eq!(
                progress.status.phase,
                SandboxPoolCertificationPhase::CleanupBlocked
            );
            assert_eq!(progress.status.sandbox, status.sandbox);
        }
        other => panic!("unexpected step {other:?}"),
    }

    let mut replaced = cluster();
    replaced.sandboxes[1].metadata.uid = Some("other".into());
    assert_eq!(
        revalidate(&status, &mut replaced, vec![]).unwrap_err(),
        "captured certification Sandbox was replaced"
    );
    let mut lost = cluster();
    lost.lost_node = Some(1);
    assert_eq!(
        revalidate(&status, &mut lost, vec![]).unwrap_err(),
        "Sandbox node lookup failed: error 404"
    );
    let mut unrecorded = status;
    unrecorded.pod = None;
    assert_eq!(
        revalidate(&unrecorded, &mut cluster(), vec![]).unwrap_err(),
        "captured certification workload is missing an exact Claim, Sandbox or Pod reference"
    );
}

fn claimed_status() -> SandboxPoolCertificationStatus {
    let mut status = fresh_status();
    status.phase = SandboxPoolCertificationPhase::ClaimCreated;
    status.sandbox_claim = Some(reference("SandboxClaim", "claim-uid"));
    status
}

fn capture(cluster: &mut Cluster) -> Result<CaptureStep, String> {
    let (pool, policy, expected_pod) = (pool(1), strict_policy(), pod_spec());
    let validation = WorkloadValidation {
        pool: &pool,
        template_name: "kobe-agents",
        policy: &policy,
        expected_pod: &expected_pod,
    };
    let owned = ObjectMeta {
        name: Some("data".into()),
        namespace: Some(NAMESPACE.into()),
        uid: Some("pvc-uid".into()),
        owner_references: vec![controller_owner(SANDBOX_KIND, "sandbox-one", "sandbox-uid")],
        ..ObjectMeta::default()
    };
    let mut status = claimed_status();
    let mut stage = CaptureStage::Claim;
    loop {
        let answer = match &stage {
            CaptureStage::Claim => CapturedAnswer::Object(Ok(live_claim())),
            CaptureStage::Resolution(_) => CapturedAnswer::Resolution(Ok(Some(resolved()))),
            CaptureStage::Sandbox(found) => {
                assert_eq!(found, &resolved());
                CapturedAnswer::Object(Ok(cluster.sandboxes[1].clone()))
            }
            CaptureStage::Workload(_, _, stage) => CapturedAnswer::Cluster(cluster.workload(stage)),
            CaptureStage::VolumeClaims(uid) => {
                assert_eq!(uid, "sandbox-uid");
                CapturedAnswer::VolumeClaims(Ok(vec![owned.clone()]))
            }
            CaptureStage::Volumes(claims) => {
                assert_eq!(claims[0].uid, "pvc-uid");
                CapturedAnswer::Volumes(Ok(vec![]))
            }
        };
        match capture_claimed_workload(&validation, NAMESPACE, status, 1, stage, answer)? {
            CaptureStep::Ask(kept, next) => {
                status = kept;
                stage = next;
            }
            finished => return Ok(finished),
        }
    }
}

#[test]
fn a_claimed_workload_is_captured_or_blocks() {
    let progress = match capture(&mut cluster()).unwrap() {
        CaptureStep::Finished(progress) => progress,
        other => panic!("unexpected step {other:?}"),
    };
    assert_eq!(
        progress.status.phase,
        SandboxPoolCertificationPhase::WorkloadCaptured
    );
    assert_eq!(progress.reason, "CertificationWorkloadCaptured");
    assert_eq!(progress.status.sandbox.as_ref().unwrap().uid, "sandbox-uid");
    assert_eq!(progress.status.pod.as_ref().unwrap().uid, "pod-uid");
    assert_eq!(progress.status.service.as_ref().unwrap().uid, "service-uid");
    assert_eq!(progress.status.persistent_volume_claims[0].uid, "pvc-uid");
    assert_eq!(progress.status.sandbox_claim, claimed_status().sandbox_claim);

    let mut lost = cluster();
    lost.lost_node = Some(1);
    let progress = match capture(&mut lost).unwrap() {
        CaptureStep::Finished(progress) => progress,
        other => panic!("unexpected step {other:?}"),
    };
    assert_eq!(
        progress.status.phase,
        SandboxPoolCertificationPhase::CleanupBlocked
    );
    assert_eq!(progress.message, "Sandbox node lookup failed: error 404");

    let mut stale = cluster();
    stale.sandboxes[1].metadata.generation = Some(4);
    let progress = match capture(&mut stale).unwrap() {
        CaptureStep::Finished(progress) => progress,
        other => panic!("unexpected step {other:?}"),
    };
    assert_eq!(
        progress.message,
        "Sandbox is deleting, replaced or not Ready for the current generation"
    );
    assert_eq!(progress.status.sandbox, None);
}

/// A cluster that passes run against; what each one writes is noted.
struct Management {
    cluster: Cluster,
    claim: Option<DynamicObject>,
    fence: Option<ConfigMap>,
    warm_pool: DynamicObject,
    canary: CanaryOutcome,
    writes: Vec<&'static str>,
}

fn management() -> Management {
    let mut warm_pool = warm_pool();
    warm_pool.metadata.resource_version = Some("41".into());
    Management {
        cluster: cluster(),
        claim: None,
        fence: None,
        warm_pool,
        canary: CanaryOutcome::Passed,
        writes: vec![],
    }
}

fn found<T: Clone>(stored: &Option<T>) -> Result<T, ApiError> {
    stored.clone().ok_or_else(|| answer(404))
}

impl Management {
    fn capture(&mut self, stage: &CaptureStage) -> CapturedAnswer {
        match stage {
            CaptureStage::Claim => CapturedAnswer::Object(found(&self.claim)),
            CaptureStage::Resolution(_) => CapturedAnswer::Resolution(Ok(Some(resolved()))),
            CaptureStage::Sandbox(_) => CapturedAnswer::Object(Ok(member_sandbox(0))),
            CaptureStage::Workload(_, _, stage) => {
                CapturedAnswer::Cluster(self.cluster.workload(stage))
            }
            CaptureStage::VolumeClaims(_) => CapturedAnswer::VolumeClaims(Ok(vec![])),
            CaptureStage::Volumes(_) => CapturedAnswer::Volumes(Ok(vec![])),
        }
    }

    fn captured(&mut self, stage: &CapturedStage) -> CapturedAnswer {
        match stage {
            CapturedStage::Claim(_) => CapturedAnswer::Object(found(&self.claim)),
            CapturedStage::Sandbox(_, _) => CapturedAnswer::Object(Ok(member_sandbox(0))),
            CapturedStage::Resolution(_, _) => CapturedAnswer::Resolution(Ok(Some(resolved()))),
            CapturedStage::Workload(_, stage) => {
                CapturedAnswer::Cluster(self.cluster.workload(stage))
            }
            CapturedStage::VolumeClaims(_) => CapturedAnswer::VolumeClaims(Ok(vec![])),
            CapturedStage::Volumes(_, _) => CapturedAnswer::Volumes(Ok(vec![])),
        }
    }

    fn create_claim(&mut self, desired: &DynamicObject) {
        let mut claim = desired.clone();
        claim.metadata.uid = Some("claim-uid".into());
        claim.metadata.generation = Some(3);
        let status = ready_data(3).get("status").unwrap().clone();
        set(&mut claim.data, "status", status);
        self.claim = Some(claim);
    }

    fn scale(&mut self, replicas: u64) -> DynamicObject {
        let generation = self.warm_pool.metadata.generation.unwrap() + 1;
        let observed = u64::try_from(generation).unwrap();
        self.warm_pool.metadata.generation = Some(generation);
        self.warm_pool.data = warm_pool_data(observed, replicas, replicas);
        set(
            member(&mut self.warm_pool.data, "spec"),
            "replicas",
            number(replicas),
        );
        self.warm_pool.clone()
    }

    fn answer(&mut self, stage: &PassStage) -> PassAnswer {
        match stage {
            PassStage::FindClaim(_, _) | PassStage::FindDoomedClaim(_) => {
                PassAnswer::Object(found(&self.claim))
            }
            PassStage::CreateClaim(_, desired) => {
                self.writes.push("create claim");
                self.create_claim(desired);
                PassAnswer::Done(Ok(()))
            }
            PassStage::Capture(_, stage) => PassAnswer::Captured(self.capture(stage)),
            PassStage::ProveTarget(_, _, stage) => PassAnswer::Captured(self.captured(stage)),
            PassStage::RunCanary(_, target) => {
                assert_eq!(target, &resolved());
                PassAnswer::Canary(self.canary.clone())
            }
            PassStage::SeekFence(_, _, _) => PassAnswer::Fence(found(&self.fence)),
            PassStage::CreateFence(_, desired) => {
                self.writes.push("create fence");
                let mut fence = desired.clone();
                fence.metadata.uid = Some("fence-uid".into());
                fence.metadata.resource_version = Some("44".into());
                self.fence = Some(fence);
                PassAnswer::Done(Ok(()))
            }
            PassStage::ProbeFence(_, _) => {
                let mut denial = answer(403);
                denial.message = TEARDOWN_FENCE_DENIAL_MESSAGE.into();
                PassAnswer::Done(Err(denial))
            }
            PassStage::ReadScale(_, _)
            | PassStage::AwaitDrain(_)
            | PassStage::AwaitReplenishment(_) => PassAnswer::Object(Ok(self.warm_pool.clone())),
            PassStage::WriteScale(_, scale, _) => {
                self.writes.push("scale");
                let replicas = u64::from(*scale == Scale::Restore);
                PassAnswer::Scaled(Written::Accepted(self.scale(replicas)))
            }
            PassStage::DeleteClaim(_, _, uid) => {
                assert_eq!(uid, "claim-uid");
                self.writes.push("delete claim");
                self.claim = None;
                PassAnswer::Done(Ok(()))
            }
            PassStage::ProveAbsence(_, _, _) => PassAnswer::Object(Err(answer(404))),
            PassStage::ListReplenished(_, _) => {
                let idle = object("idle-new", "fresh-idle-uid", empty_object());
                PassAnswer::Sandboxes(Ok(vec![idle]))
            }
            PassStage::ReleaseFence(_, _, _) => {
                self.writes.push("release fence");
                self.fence.as_mut().unwrap().metadata.finalizers = vec![];
                PassAnswer::Released(Released::Accepted)
            }
            PassStage::DeleteFence(_, _, uid, version) => {
                assert_eq!((uid.as_str(), version.as_str()), ("fence-uid", "44"));
                self.writes.push("delete fence");
                self.fence = None;
                PassAnswer::Done(Ok(()))
            }
        }
    }

    fn pass(
        &mut self,
        existing: Option<SandboxPoolCertificationStatus>,
        fresh: SandboxPoolCertificationStatus,
    ) -> Result<ManagementPoolCertificationProgress, String> {
        let (pool, policy, expected_pod) = (pool(1), strict_policy(), pod_spec());
        let subject = PassSubject {
            validation: WorkloadValidation {
                pool: &pool,
                template_name: "kobe-agents",
                policy: &policy,
                expected_pod: &expected_pod,
            },
            namespace: NAMESPACE,
            managed_by: MANAGED_BY,
            ready: 1,
        };
        let claim = certification_claim(&pool, NAMESPACE, "kobe-agents", MANAGED_BY);
        self.writes.clear();
        let mut step = begin_pass(&subject, existing, fresh, claim)?;
        loop {
            match step {
                PassStep::Finished(progress) => return Ok(progress),
                PassStep::Ask(stage) => {
                    let answer = self.answer(&stage);
                    step = continue_pass(&subject, stage, answer)?;
                }
            }
        }
    }
}

#[test]
fn passes_certify_one_step_at_a_time() {
    let mut management = management();
    let mut status = None;
    let mut course = vec![];
    for _ in 0..15 {
        let progress = management.pass(status, fresh_status()).unwrap();
        assert_eq!(
            progress.certified,
            progress.status.phase == SandboxPoolCertificationPhase::Certified
        );
        course.push((progress.status.phase, management.writes.clone()));
        status = Some(progress.status);
    }
    assert_eq!(
        course,
        [
            (SandboxPoolCertificationPhase::Initialized, vec![]),
            (SandboxPoolCertificationPhase::Initialized, vec!["create claim"]),
            (SandboxPoolCertificationPhase::ClaimCreated, vec![]),
            (SandboxPoolCertificationPhase::WorkloadCaptured, vec![]),
            (SandboxPoolCertificationPhase::CanaryPassed, vec![]),
            (SandboxPoolCertificationPhase::CanaryPassed, vec!["create fence"]),
            (SandboxPoolCertificationPhase::FenceInstalled, vec![]),
            (SandboxPoolCertificationPhase::DrainAcknowledged, vec!["scale"]),
            (SandboxPoolCertificationPhase::ClaimDeleting, vec![]),
            (SandboxPoolCertificationPhase::ClaimDeleting, vec!["delete claim"]),
            (SandboxPoolCertificationPhase::AbsenceProven, vec![]),
            (SandboxPoolCertificationPhase::Replenished, vec!["scale"]),
            (SandboxPoolCertificationPhase::FenceFinalizerRemoved, vec!["release fence"]),
            (SandboxPoolCertificationPhase::FenceDeleting, vec!["delete fence"]),
            (SandboxPoolCertificationPhase::Certified, vec![]),
        ]
    );
    let certified = status.unwrap();
    assert_eq!(certified.drain_generation, Some(4));
    assert_eq!(certified.replenish_generation, Some(5));
    assert_eq!(certified.sandbox.as_ref().unwrap().uid, "sandbox-uid");
    assert_eq!(certified.teardown_fence.as_ref().unwrap().uid, "fence-uid");

    let again = management.pass(Some(certified.clone()), fresh_status()).unwrap();
    assert!(again.certified);
    assert_eq!(again.status, certified);

    let mut next = fresh_status();
    next.observed_generation = 8;
    let restarted = management.pass(Some(certified), next.clone()).unwrap();
    assert_eq!(restarted.status, next);
    assert!(management.writes.is_empty());
}

#[test]
fn a_blocked_attempt_stays_as_it_is() {
    let mut management = management();
    management.canary = CanaryOutcome::Failed {
        reason: "exit 1".into(),
    };
    let mut status = None;
    for _ in 0..5 {
        status = Some(management.pass(status, fresh_status()).unwrap().status);
    }
    let blocked = status.unwrap();
    assert_eq!(blocked.phase, SandboxPoolCertificationPhase::CleanupBlocked);
    assert_eq!(blocked.sandbox_claim.as_ref().unwrap().uid, "claim-uid");

    let again = management.pass(Some(blocked.clone()), fresh_status()).unwrap();
    assert_eq!(again.status, blocked);
    assert!(!again.certified);
    assert!(management.writes.is_empty());

    let mut active = blocked;
    active.phase = SandboxPoolCertificationPhase::WorkloadCaptured;
    let mut next = fresh_status();
    next.fingerprint = "e".repeat(64);
    let drifted = management.pass(Some(active.clone()), next).unwrap();
    assert_eq!(
        drifted.status.phase,
        SandboxPoolCertificationPhase::CleanupBlocked
    );
    assert_eq!(drifted.status.fingerprint, active.fingerprint);
    assert!(management.writes.is_empty());
}

fn in_key_order(members: &[(String, String)]) -> bool {
    members.windows(2).all(|pair| pair[0].0 < pair[1].0)
}

#[test]
fn what_is_built_is_in_key_order() {
    let claim = certification_claim(&pool(1), NAMESPACE, "kobe-agents", MANAGED_BY).unwrap();
    assert!(claim.metadata.labels.len() > 1);
    assert!(in_key_order(&claim.metadata.labels));

    let mut status = certification_status(SandboxPoolCertificationPhase::CanaryPassed);
    for (sandbox, warm_pool) in [("sandbox-uid", "warm-pool-uid"), ("z-uid", "a-uid")] {
        status.sandbox.as_mut().unwrap().uid = sandbox.into();
        status.sandbox_warm_pool.uid = warm_pool.into();
        let fence = certification_fence(NAMESPACE, &status).unwrap();
        assert!(in_key_order(&fence.metadata.labels));
        assert!(in_key_order(&fence.data.unwrap()));
    }
}

#[test]
fn a_pool_in_teardown_is_surveyed_by_identity() {
    let pool_one = pool(1);
    let release = REQUIRED_POOL_ACK_RELEASE;
    assert_eq!(plan_survey(&pool_one, &None, release), Ok(Survey::Census));
    for (phase, survey) in [
        (SandboxPoolCertificationPhase::Initialized, Survey::Census),
        (SandboxPoolCertificationPhase::CanaryPassed, Survey::Census),
        (SandboxPoolCertificationPhase::FenceInstalled, Survey::Identities),
        (SandboxPoolCertificationPhase::FenceDeleting, Survey::Identities),
        (SandboxPoolCertificationPhase::Certified, Survey::Census),
        (SandboxPoolCertificationPhase::CleanupBlocked, Survey::Identities),
    ] {
        let existing = Some(certification_status(phase));
        assert_eq!(plan_survey(&pool_one, &existing, release), Ok(survey));
        assert_eq!(
            plan_survey(&pool_one, &existing, "v0.0.0").unwrap_err(),
            check_release("v0.0.0").unwrap_err()
        );
    }
    let mut guarded = pool(1);
    guarded.spec.isolation = SandboxIsolation::Gvisor {
        runtime_class_name: "gvisor".into(),
    };
    let existing = Some(certification_status(SandboxPoolCertificationPhase::FenceInstalled));
    assert_eq!(
        plan_survey(&guarded, &existing, release).unwrap_err(),
        check_isolation(&guarded).unwrap_err()
    );
    assert_eq!(plan_survey(&guarded, &None, release), Ok(Survey::Census));

    let status = fresh_status();
    let survey = |runtime: Result<(), String>| {
        survey_identities(
            &pool_one,
            NAMESPACE,
            &template(),
            &warm_pool(),
            &status,
            runtime,
        )
    };
    assert_eq!(survey(Ok(())), Ok(1));
    assert_eq!(
        survey(Err("no API".into())).unwrap_err(),
        "runtime APIs are not compatible: no API"
    );
}

#[test]
fn a_pass_opens_with_the_current_evidence() {
    let (policy, expected_pod) = (strict_policy(), pod_spec());
    let open = |pool: &SandboxPool, existing: Option<SandboxPoolCertificationStatus>| {
        let subject = PassSubject {
            validation: WorkloadValidation {
                pool,
                template_name: "kobe-agents",
                policy: &policy,
                expected_pod: &expected_pod,
            },
            namespace: NAMESPACE,
            managed_by: MANAGED_BY,
            ready: 1,
        };
        open_pass(
            &subject,
            &template(),
            &warm_pool(),
            RUNTIME_API,
            existing,
            vec!["idle".into()],
        )
    };
    let finished = |step: Result<PassStep, String>| match step.unwrap() {
        PassStep::Finished(progress) => progress,
        other => panic!("unexpected step {other:?}"),
    };
    let pool_one = pool(1);
    let first = finished(open(&pool_one, None)).status;
    assert_eq!(
        first.fingerprint,
        certification_fingerprint(&pool_one, &template(), &warm_pool(), RUNTIME_API).unwrap()
    );
    assert_eq!(first.baseline_idle_sandbox_uids, ["idle"]);
    match open(&pool_one, Some(first.clone())).unwrap() {
        PassStep::Ask(PassStage::FindClaim(status, desired)) => {
            assert_eq!(status, first);
            let claim = certification_claim(&pool_one, NAMESPACE, "kobe-agents", MANAGED_BY);
            assert_eq!(desired, claim.unwrap());
        }
        other => panic!("unexpected step {other:?}"),
    }

    let mut certified = first;
    certified.phase = SandboxPoolCertificationPhase::Certified;
    assert!(finished(open(&pool_one, Some(certified.clone()))).certified);
    let mut changed = pool(1);
    changed.spec.template.containers[0].image = "example.invalid/agent@sha256:def".into();
    let restarted = finished(open(&changed, Some(certified)));
    assert!(!restarted.certified);
    assert_eq!(restarted.reason, "CertificationRestarted");

    let mut unowned = pool(1);
    unowned.metadata.uid = None;
    assert_eq!(open(&unowned, None).unwrap_err(), "SandboxPool UID is missing");
}

#[test]
fn a_drifted_warm_pool_blocks_the_attempt() {
    let drifts: [fn(&mut DynamicObject); 3] = [
        |warm_pool| warm_pool.metadata.uid = Some("other".into()),
        |warm_pool| warm_pool.metadata.namespace = Some("elsewhere".into()),
        |warm_pool| warm_pool.metadata.deletion_timestamp = Some("2026-08-24T00:00:00Z".into()),
    ];
    for phase in [
        SandboxPoolCertificationPhase::FenceInstalled,
        SandboxPoolCertificationPhase::DrainAcknowledged,
        SandboxPoolCertificationPhase::AbsenceProven,
        SandboxPoolCertificationPhase::Replenished,
    ] {
        for drift in drifts {
            let mut management = management();
            let mut status = None;
            while status.as_ref().map(|status: &SandboxPoolCertificationStatus| status.phase)
                != Some(phase)
            {
                status = Some(management.pass(status, fresh_status()).unwrap().status);
            }
            drift(&mut management.warm_pool);
            let blocked = management.pass(status.clone(), fresh_status()).unwrap();
            assert_eq!(
                blocked.status.phase,
                SandboxPoolCertificationPhase::CleanupBlocked
            );
            assert_eq!(
                blocked.message,
                "recorded SandboxWarmPool is deleting or no longer matches its checkpointed identity"
            );
            assert!(management.writes.is_empty());
            assert_eq!(blocked.status.sandbox, status.unwrap().sandbox);
        }
    }
}
