//! Why evidence is refused: the first thing that is wrong, and in which words.

use crate::certification::attempt;
use crate::certification::capacity::{self, AbsenceView};
use crate::certification::captured;
use crate::certification::claim;
use crate::certification::fingerprint;
use crate::certification::identity::{self, PoolProjection};
use crate::certification::names::{self, SandboxPool};
use crate::certification::population::{self, ResolvedSandboxPod};
use crate::certification::receipt;
use crate::certification::steps;
use crate::certification::storage;
use crate::certification::workload;
use crate::crd::sandbox::{self, SandboxPoolCertificationStatus};
use crate::json;
use crate::k8s::{
    self, ApiError, DynamicObject, NetworkPolicy, Node, ObjectMeta, PersistentVolume, Pod, PodSpec,
    Service,
};
use vstd::prelude::*;

verus! {

/// Why a Pod specification is refused: another runtime class first, then no node, then
/// another security setting, then a surface that is not admitted, and last another
/// container.
pub proof fn law_pod_spec_is_refused_in_order(expected: PodSpec, actual: PodSpec)
    ensures
        ({
            let error = workload::pod_spec_error(expected, actual);
            let same_class = match (expected.runtime_class_name, actual.runtime_class_name) {
                (Some(a), Some(b)) => a@ == b@,
                (None, None) => true,
                _ => false,
            };
            let scheduled = actual.node_name matches Some(node) && node@.len() > 0;
            let admitted = actual.host_network != Some(true) && actual.host_pid != Some(true)
                && actual.host_ipc != Some(true) && actual.share_process_namespace != Some(true)
                && actual.volumes@.len() == 0 && actual.init_containers@.len() == 0
                && actual.ephemeral_containers@.len() == 0;
            &&& !same_class <==> error == Some(
                "scheduled Pod does not use the exact pool RuntimeClass"@,
            )
            &&& same_class && !scheduled <==> error == Some(
                "Sandbox Pod is not scheduled to a node"@,
            )
            &&& same_class && scheduled && expected.host_users != actual.host_users ==> error
                == Some("Sandbox Pod security context drifted from the restricted projection"@)
            &&& error == Some(
                "Sandbox Pod contains a prohibited host, volume, init or ephemeral surface"@,
            ) ==> !admitted
            &&& error == Some(
                "Sandbox Pod containers drifted from the closed pool template"@,
            ) ==> same_class && scheduled && admitted
            &&& error is None ==> same_class && scheduled && admitted
        }),
{
    lemma_pod_words();
}

proof fn lemma_pod_words()
    ensures
        "scheduled Pod does not use the exact pool RuntimeClass"@.len() == 54,
        "Sandbox Pod is not scheduled to a node"@.len() == 38,
        "Sandbox Pod security context drifted from the restricted projection"@.len() == 67,
        "Sandbox Pod contains a prohibited host, volume, init or ephemeral surface"@.len() == 73,
        "Sandbox Pod containers drifted from the closed pool template"@.len() == 60,
{
    reveal_strlit("scheduled Pod does not use the exact pool RuntimeClass");
    reveal_strlit("Sandbox Pod is not scheduled to a node");
    reveal_strlit("Sandbox Pod security context drifted from the restricted projection");
    reveal_strlit("Sandbox Pod contains a prohibited host, volume, init or ephemeral surface");
    reveal_strlit("Sandbox Pod containers drifted from the closed pool template");
}

/// In which words labels and nodes are refused: a node that leaves or takes no Pods
/// first, and then one that is not ready.
pub proof fn law_labels_and_nodes_are_refused_in_words(
    pod: k8s::MetaView,
    sandbox_name: Seq<char>,
    template_name: Seq<char>,
    policy: NetworkPolicy,
    node: Node,
)
    ensures
        workload::pod_labels_error(pod, sandbox_name, template_name, policy) matches Some(words)
            ==> words
            == "Sandbox Pod is not selected by its exact Sandbox and strict Template policy labels"@,
        node.metadata.deletion_timestamp is Some || node.unschedulable == Some(true)
            ==> workload::node_error(node) == Some(
            "Sandbox Pod node is deleting or unschedulable"@,
        ),
        node.metadata.deletion_timestamp is None && node.unschedulable != Some(true)
            ==> workload::node_error(node) is None || workload::node_error(node) == Some(
            "Sandbox Pod node is not Ready"@,
        ),
{
}

/// Why an object of a pool is refused: a pool without a UID first, then an object
/// without one, then one that is not the pool's own, and last one that is not the
/// expected one.
pub proof fn law_pool_objects_are_refused_in_order(
    pool: k8s::MetaView,
    namespace: Seq<char>,
    object: k8s::MetaView,
    kind: Seq<char>,
    expected: Option<sandbox::ReferenceView>,
)
    ensures
        ({
            let result = identity::pool_object_identity(pool, namespace, object, kind, expected);
            let identified = pool.uid matches Some(uid) && uid.len() > 0;
            let present = object.uid matches Some(uid) && uid.len() > 0;
            let own = !object.deleting() && object.namespace == Some(namespace)
                && object.any_name() == names::object_name(pool) && object.controlled_by(
                "kobe.kunobi.ninja/v1alpha1"@,
                "SandboxPool"@,
                pool.any_name(),
                pool.uid->0,
            );
            &&& !identified ==> result == Err::<Seq<char>, Seq<char>>("SandboxPool UID is missing"@)
            &&& identified && !present ==> result == Err::<Seq<char>, Seq<char>>(
                kind + " UID is missing"@,
            )
            &&& identified && present && !own ==> result == Err::<Seq<char>, Seq<char>>(
                kind + " is deleting, misplaced or not controlled by the exact SandboxPool"@,
            )
            &&& identified && present && own ==> result == Ok::<Seq<char>, Seq<char>>(object.uid->0)
                || (expected is Some && result == Err::<Seq<char>, Seq<char>>(
                kind + " no longer matches the immutable lease provenance"@,
            ))
        }),
{
}

/// Why a pool's objects are refused together: the pool's place first, then the template,
/// then the warm pool, then an owner that cannot be, then what cannot be projected, and
/// last what drifted from the projection.
pub proof fn law_pool_is_refused_in_order(
    pool: k8s::MetaView,
    namespace: Seq<char>,
    template: DynamicObject,
    warm_pool: DynamicObject,
    expected_template: Option<sandbox::ReferenceView>,
    expected_warm_pool: Option<sandbox::ReferenceView>,
    projection: PoolProjection,
)
    ensures
        ({
            let result = identity::pool_objects(
                pool,
                namespace,
                template,
                warm_pool,
                expected_template,
                expected_warm_pool,
                projection,
            );
            let first = identity::pool_object_identity(
                pool,
                namespace,
                template.metadata@,
                "SandboxTemplate"@,
                expected_template,
            );
            let second = identity::pool_object_identity(
                pool,
                namespace,
                warm_pool.metadata@,
                "SandboxWarmPool"@,
                expected_warm_pool,
            );
            &&& pool.namespace != Some(namespace) ==> result == Err::<
                (Seq<char>, Seq<char>),
                Seq<char>,
            >("SandboxPool is outside the certified management namespace"@)
            &&& pool.namespace == Some(namespace) ==> match (first, second) {
                (Err(words), _) => result == Err::<(Seq<char>, Seq<char>), Seq<char>>(words),
                (Ok(_), Err(words)) => result == Err::<(Seq<char>, Seq<char>), Seq<char>>(words),
                (Ok(a), Ok(b)) => {
                    &&& pool.name is None ==> result == Err::<(Seq<char>, Seq<char>), Seq<char>>(
                        "SandboxPool cannot own its upstream objects"@,
                    )
                    &&& pool.name is Some ==> match (
                        identity::projected(projection.template),
                        identity::projected(projection.warm_pool),
                    ) {
                        (Err(words), _) => result == Err::<(Seq<char>, Seq<char>), Seq<char>>(
                            "could not project SandboxTemplate: "@ + words,
                        ),
                        (Ok(_), Err(words)) => result == Err::<(Seq<char>, Seq<char>), Seq<char>>(
                            "could not project SandboxWarmPool: "@ + words,
                        ),
                        (Ok(desired), Ok(desired_pool)) => if !json::opt_alike(
                            template.data@.get("spec"@),
                            desired,
                        ) {
                            result == Err::<(Seq<char>, Seq<char>), Seq<char>>(
                                "SandboxTemplate spec drifted from the current Pool generation"@,
                            )
                        } else if !json::opt_alike(warm_pool.data@.get("spec"@), desired_pool) {
                            result == Err::<(Seq<char>, Seq<char>), Seq<char>>(
                                "SandboxWarmPool spec drifted from the current Pool generation"@,
                            )
                        } else {
                            result == Ok::<(Seq<char>, Seq<char>), Seq<char>>((a, b))
                        },
                    }
                },
            }
        }),
{
}

/// Why a found claim is refused: a pool without a UID first, then one without a
/// generation, then another owner, then deletion, then another generation; after these a
/// label or the specification.
pub proof fn law_claim_is_refused_in_order(
    pool: k8s::MetaView,
    desired: json::JsonView,
    found: DynamicObject,
    managed_by: Seq<char>,
)
    ensures
        ({
            let error = claim::observed_claim_error(pool, desired, found, managed_by);
            let identified = pool.uid matches Some(uid) && uid.len() > 0;
            let owned = found.metadata@.controlled_by(
                "kobe.kunobi.ninja/v1alpha1"@,
                "SandboxPool"@,
                pool.any_name(),
                pool.uid->0,
            );
            let stays = found.metadata.deletion_timestamp is None;
            &&& !identified ==> error == Some("SandboxPool UID is missing"@)
            &&& identified && pool.generation is None ==> error == Some(
                "SandboxPool generation is missing"@,
            )
            &&& identified && pool.generation is Some && !owned ==> error == Some(
                "certification Claim is not controlled by the exact SandboxPool"@,
            )
            &&& identified && pool.generation is Some && owned && !stays ==> error == Some(
                "certification Claim is already deleting"@,
            )
            &&& identified && pool.generation is Some && owned && stays
                && claim::labelled_generation(found.metadata@) != Some(pool.generation->0 as int)
                ==> error == Some(
                "same-named certification Claim belongs to another Pool generation"@,
            )
        }),
{
}

/// Why a pool has no claim or no fingerprint: no UID first, then no generation, and for
/// the claim last no name.
pub proof fn law_unidentified_pools_are_refused_in_order(
    pool: SandboxPool,
    template: k8s::MetaView,
    warm_pool: k8s::MetaView,
    runtime_api_version: Seq<char>,
)
    ensures
        ({
            let error = claim::claim_error(pool.metadata@);
            let print = fingerprint::fingerprint(pool, template, warm_pool, runtime_api_version);
            let identified = pool.metadata.uid matches Some(uid) && uid@.len() > 0;
            &&& !identified ==> error == Some("SandboxPool UID is missing"@) && print == Err::<
                Seq<char>,
                Seq<char>,
            >("SandboxPool UID is missing"@)
            &&& identified && pool.metadata.generation is None ==> error == Some(
                "SandboxPool generation is missing"@,
            ) && print == Err::<Seq<char>, Seq<char>>("SandboxPool generation is missing"@)
            &&& identified && pool.metadata.generation is Some && pool.metadata.name is None
                ==> error == Some("SandboxPool cannot own its certification Claim"@)
            &&& identified && pool.metadata.generation is Some && pool.metadata.name is Some
                ==> error is None
        }),
{
}

/// Why an idle sandbox does not resolve: no UID first, then no list, then not one Pod,
/// then a Pod without a UID, and last a Pod of another owner.
pub proof fn law_idle_sandbox_is_refused_in_order(
    sandbox: DynamicObject,
    pods: Result<Vec<Pod>, ApiError>,
)
    ensures
        ({
            let result = population::idle_pod(sandbox, pods);
            let identified = sandbox.metadata.uid matches Some(uid) && uid@.len() > 0;
            &&& !identified ==> result == Err::<population::ResolvedView, Seq<char>>(
                "WarmPool Sandbox UID is missing"@,
            )
            &&& identified ==> match pods {
                Err(error) => result == Err::<population::ResolvedView, Seq<char>>(
                    "Sandbox Pod list failed: "@ + error.error@,
                ),
                Ok(list) => if list@.len() != 1 {
                    result == Err::<population::ResolvedView, Seq<char>>(
                        "Ready Sandbox does not resolve to exactly one Pod"@,
                    )
                } else if !(list@[0].metadata.uid matches Some(uid) && uid@.len() > 0) {
                    result == Err::<population::ResolvedView, Seq<char>>(
                        "Sandbox Pod UID is missing"@,
                    )
                } else {
                    result is Ok || result == Err::<population::ResolvedView, Seq<char>>(
                        "Sandbox Pod is not controlled by the exact Sandbox"@,
                    )
                },
            }
            &&& !identified ==> population::idle_selector(sandbox) == Err::<Seq<char>, Seq<char>>(
                "WarmPool Sandbox UID is missing"@,
            )
            &&& identified ==> population::idle_selector(sandbox) is Ok
                || population::idle_selector(sandbox) == Err::<Seq<char>, Seq<char>>(
                "Ready Sandbox has no Pod selector"@,
            )
        }),
{
}

/// Why a workload is refused, stage by stage: its sandbox, its Pod, its node and its
/// Service.
pub proof fn law_workload_is_refused_in_words(
    template_name: Seq<char>,
    object: DynamicObject,
    resolved: population::ResolvedView,
    policy: NetworkPolicy,
    expected_pod: PodSpec,
    pods: Result<Vec<Pod>, ApiError>,
    exposes_ports: bool,
    node: Result<Node, ApiError>,
    pool: SandboxPool,
    service_uid: Seq<char>,
    service: Result<Service, ApiError>,
)
    ensures
        population::workload_pods(template_name, object, resolved) matches Err(words) ==> words
            == "Sandbox is deleting, replaced or not Ready for the current generation"@ || words
            == "Ready Sandbox has no Pod selector"@,
        object.metadata.deletion_timestamp is Some ==> population::workload_pods(
            template_name,
            object,
            resolved,
        ) == Err::<Seq<char>, Seq<char>>(
            "Sandbox is deleting, replaced or not Ready for the current generation"@,
        ),
        pods matches Err(error) ==> population::workload_node(
            template_name,
            policy,
            expected_pod,
            resolved,
            pods,
        ) == Err::<Seq<char>, Seq<char>>("Sandbox Pod revalidation failed: "@ + error.error@),
        pods matches Ok(list) ==> list@.len() != 1 || list@[0].metadata@.uid != Some(
            resolved.pod_uid,
        ) ==> population::workload_node(template_name, policy, expected_pod, resolved, pods)
            == Err::<Seq<char>, Seq<char>>(
            "Sandbox Pod selector no longer resolves to the exact single Pod"@,
        ),
        pods matches Ok(list) ==> list@.len() == 1 && list@[0].metadata@.uid == Some(
            resolved.pod_uid,
        ) && (list@[0].metadata.deletion_timestamp is Some || list@[0].metadata@.any_name()
            != resolved.pod_name) ==> population::workload_node(
            template_name,
            policy,
            expected_pod,
            resolved,
            pods,
        ) == Err::<Seq<char>, Seq<char>>("Sandbox Pod is foreign, deleting or not Ready"@),
        node matches Err(error) ==> population::workload_service(exposes_ports, resolved, node)
            == Err::<Option<(Seq<char>, Seq<char>)>, Seq<char>>(
            "Sandbox node lookup failed: "@ + error.error@,
        ),
        node matches Ok(found) ==> workload::node_error(found) matches Some(words)
            ==> population::workload_service(exposes_ports, resolved, node) == Err::<
            Option<(Seq<char>, Seq<char>)>,
            Seq<char>,
        >(words),
        node matches Ok(found) ==> workload::node_error(found) is None && !exposes_ports && (
        resolved.service_name is Some || resolved.service_uid is Some)
            ==> population::workload_service(exposes_ports, resolved, node) == Err::<
            Option<(Seq<char>, Seq<char>)>,
            Seq<char>,
        >("Sandbox unexpectedly exposes a Service"@),
        node matches Ok(found) ==> workload::node_error(found) is None && exposes_ports && (
        resolved.service_name is None || resolved.service_uid is None)
            ==> population::workload_service(exposes_ports, resolved, node) == Err::<
            Option<(Seq<char>, Seq<char>)>,
            Seq<char>,
        >("Sandbox has no exact required Service identity"@),
        service matches Err(error) ==> population::workload_service_error(
            pool,
            resolved,
            service_uid,
            service,
        ) == Some("Sandbox Service revalidation failed: "@ + error.error@),
        service matches Ok(found) ==> found.metadata@.uid != Some(service_uid)
            ==> population::workload_service_error(pool, resolved, service_uid, service) == Some(
            "Sandbox Service was replaced before certification"@,
        ),
        service matches Err(error) ==> population::idle_service(resolved, service) == Err::<
            population::ResolvedView,
            Seq<char>,
        >("Sandbox Service lookup failed: "@ + error.error@),
        service matches Ok(found) ==> !(found.metadata.uid matches Some(uid) && uid@.len() > 0)
            ==> population::idle_service(resolved, service) == Err::<
            population::ResolvedView,
            Seq<char>,
        >("Sandbox Service UID is missing"@),
{
}

/// Why a member of the population is refused: first that it leaves, is foreign or not
/// ready, and then another template.
pub proof fn law_member_is_refused_in_order(
    object: DynamicObject,
    warm_pool_name: Seq<char>,
    warm_pool_uid: Seq<char>,
    template_name: Seq<char>,
)
    ensures
        ({
            let error = population::member_error(
                object,
                warm_pool_name,
                warm_pool_uid,
                template_name,
            );
            let held = object.metadata.deletion_timestamp is None
                && object.metadata@.controlled_by(
                "extensions.agents.x-k8s.io/v1beta1"@,
                "SandboxWarmPool"@,
                warm_pool_name,
                warm_pool_uid,
            ) && workload::ready_at_generation(object);
            &&& !held ==> error == Some(
                "WarmPool contains a deleting, foreign or stale-ready Sandbox"@,
            )
            &&& held ==> error is None || error == Some(
                "WarmPool Sandbox does not identify the current Template"@,
            )
        }),
{
}

/// In which words an absence is reported that is not proven: an object that is still
/// there is waited for, another one in its place blocks, as does a forbidden lookup, and
/// any other failure is an error.
pub proof fn law_absence_is_refused_in_words(
    lookup: Result<DynamicObject, ApiError>,
    recorded: sandbox::ReferenceView,
)
    ensures
        lookup matches Err(error) ==> {
            &&& error.code == Some(404u16) ==> capacity::absence(lookup, recorded) == Ok::<
                AbsenceView,
                Seq<char>,
            >(AbsenceView::Proven) && steps::volume_absence(lookup, recorded) == Ok::<
                AbsenceView,
                Seq<char>,
            >(AbsenceView::Proven)
            &&& error.code == Some(403u16) ==> capacity::absence(lookup, recorded) == Ok::<
                AbsenceView,
                Seq<char>,
            >(
                AbsenceView::Blocked(
                    "recorded "@ + recorded.kind + " absence cannot be proven: "@ + error.response@,
                ),
            ) && steps::volume_absence(lookup, recorded) == Ok::<AbsenceView, Seq<char>>(
                AbsenceView::Blocked("captured PV absence cannot be proven: "@ + error.response@),
            )
            &&& error.code != Some(404u16) && error.code != Some(403u16) ==> capacity::absence(
                lookup,
                recorded,
            ) == Err::<AbsenceView, Seq<char>>(
                "recorded "@ + recorded.kind + " absence check failed: "@ + error.error@,
            ) && steps::volume_absence(lookup, recorded) == Err::<AbsenceView, Seq<char>>(
                "captured PV absence check failed: "@ + error.error@,
            )
        },
        lookup matches Ok(found) ==> if found.metadata@.uid == Some(recorded.uid) {
            capacity::absence(lookup, recorded) == Ok::<AbsenceView, Seq<char>>(
                AbsenceView::Present,
            ) && steps::volume_absence(lookup, recorded) == Ok::<AbsenceView, Seq<char>>(
                AbsenceView::Present,
            )
        } else {
            capacity::absence(lookup, recorded) == Ok::<AbsenceView, Seq<char>>(
                AbsenceView::Blocked(
                    "recorded "@ + recorded.kind + " was replaced by same-named UID "@ + (
                    match found.metadata.uid {
                        Some(uid) => uid@,
                        None => "<none>"@,
                    }) + " before absence was proven"@,
                ),
            ) && steps::volume_absence(lookup, recorded) == Ok::<AbsenceView, Seq<char>>(
                AbsenceView::Blocked(
                    "captured certification PV was replaced before absence was proven"@,
                ),
            )
        },
{
}

/// Why a captured workload is refused: what cannot be looked up, what changed, and then
/// which part of the resolution is another one.
pub proof fn law_captured_workload_is_refused_in_words(
    recorded: sandbox::ReferenceView,
    pod: sandbox::ReferenceView,
    service: Option<sandbox::ReferenceView>,
    namespace: Seq<char>,
    lookup: Result<DynamicObject, ApiError>,
    resolution: Result<Option<ResolvedSandboxPod>, String>,
    claims: Seq<sandbox::ReferenceView>,
    volumes: Seq<sandbox::ReferenceView>,
    status: SandboxPoolCertificationStatus,
)
    ensures
        lookup matches Err(error) ==> captured::captured_claim(recorded, namespace, lookup)
            == Err::<DynamicObject, Seq<char>>(
            "captured certification Claim cannot be proven: "@ + error.error@,
        ) && captured::captured_sandbox(recorded, namespace, lookup) == Err::<
            DynamicObject,
            Seq<char>,
        >("captured certification Sandbox cannot be proven: "@ + error.error@),
        lookup is Ok ==> (captured::captured_claim(recorded, namespace, lookup) matches Err(words)
            ==> words == "captured certification Claim changed or is no longer current Ready"@),
        lookup is Ok ==> (captured::captured_sandbox(recorded, namespace, lookup) matches Err(words)
            ==> words == "captured certification Sandbox was replaced"@),
        resolution matches Err(words) ==> captured::captured_identity(
            resolution,
            recorded,
            pod,
            service,
        ) == Err::<population::ResolvedView, Seq<char>>(words@),
        resolution matches Ok(None) ==> captured::captured_identity(
            resolution,
            recorded,
            pod,
            service,
        ) == Err::<population::ResolvedView, Seq<char>>(
            "captured certification Claim has no exact Ready workload"@,
        ),
        resolution matches Ok(Some(resolved)) ==> {
            let result = captured::captured_identity(resolution, recorded, pod, service);
            let same = resolved.sandbox_name@ == recorded.name && resolved.sandbox_uid@
                == recorded.uid && resolved.pod_name@ == pod.name && resolved.pod_uid@ == pod.uid;
            &&& !same ==> result == Err::<population::ResolvedView, Seq<char>>(
                "captured certification Sandbox or Pod identity changed"@,
            )
            &&& same ==> result is Ok || result == Err::<population::ResolvedView, Seq<char>>(
                "captured certification Service identity changed"@,
            )
        },
        captured::captured_storage_error(claims, volumes, status) matches Some(words) ==> words
            == "captured certification PVC/PV identity manifest changed"@,
{
}

/// Why a certificate is refused: that there is none first, and then that it is another
/// one's or of another time; a pool that cannot be fingerprinted is refused in those
/// words.
pub proof fn law_certificate_is_refused_in_order(
    pool: SandboxPool,
    template: DynamicObject,
    warm_pool: DynamicObject,
    runtime_api_version: Seq<char>,
)
    ensures
        ({
            let error = receipt::certificate_error(pool, template, warm_pool, runtime_api_version);
            let print = fingerprint::fingerprint(
                pool,
                template.metadata@,
                warm_pool.metadata@,
                runtime_api_version,
            );
            match receipt::certificate(pool) {
                None => error == Some("SandboxPool has no durable certification receipt"@),
                Some(held) => if !(held.phase is Certified) {
                    error == Some(
                        "SandboxPool certification receipt is not current and Certified"@,
                    )
                } else {
                    ||| error is None
                    ||| error == Some(
                        "SandboxPool certification receipt is not current and Certified"@,
                    )
                    ||| print matches Err(words) && error == Some(words)
                },
            }
        }),
{
}

/// In which words a pool is refused that has not converged or cannot begin an attempt,
/// a release that is another one, a runtime that does not fit, and a list of storage.
pub proof fn law_pool_is_refused_in_words(
    pool: SandboxPool,
    namespace: Seq<char>,
    template: DynamicObject,
    warm_pool: DynamicObject,
    expected_template: Option<sandbox::ReferenceView>,
    expected_warm_pool: Option<sandbox::ReferenceView>,
    projection: PoolProjection,
    release: Seq<char>,
    runtime: Result<(), String>,
    error: ApiError,
    uid: Seq<char>,
    claims: Seq<sandbox::ReferenceView>,
)
    ensures
        ({
            let result = population::pool_converged(
                pool,
                namespace,
                template,
                warm_pool,
                expected_template,
                expected_warm_pool,
                projection,
            );
            match identity::pool_objects(
                pool.metadata@,
                namespace,
                template,
                warm_pool,
                expected_template,
                expected_warm_pool,
                projection,
            ) {
                Err(words) => result == Err::<(Seq<char>, Seq<char>), Seq<char>>(words),
                Ok(uids) => if warm_pool.data@.get("status"@) is None {
                    result == Err::<(Seq<char>, Seq<char>), Seq<char>>(
                        "SandboxWarmPool status is missing"@,
                    )
                } else {
                    result == Ok::<(Seq<char>, Seq<char>), Seq<char>>(uids) || result == Err::<
                        (Seq<char>, Seq<char>),
                        Seq<char>,
                    >(
                        "SandboxWarmPool has not observed its current generation and converged to its exact desired Ready population"@,
                    )
                },
            }
        }),
        pool.metadata.generation is None ==> attempt::initial_error(pool, template, warm_pool)
            == Some("SandboxPool generation is missing"@),
        attempt::release_error(release) matches Some(words) ==> words
            == "durable pool certification requires Agent Sandbox "@ + "v0.5.6"@
            + " for SandboxWarmPool.status.observedGeneration; this build pins "@ + release,
        runtime is Ok ==> population::runtime_error(runtime) is None,
        runtime matches Err(words) ==> population::runtime_error(runtime) == Some(
            "runtime APIs are not compatible: "@ + words@,
        ),
        storage::claim_manifest(Err::<Vec<ObjectMeta>, ApiError>(error), uid) == Err::<
            Seq<sandbox::ReferenceView>,
            Seq<char>,
        >("certification PVC manifest list failed: "@ + error.error@),
        storage::volume_manifest(Err::<Vec<PersistentVolume>, ApiError>(error), claims) == Err::<
            Seq<sandbox::ReferenceView>,
            Seq<char>,
        >("certification PV manifest list failed: "@ + error.error@),
{
}

/// In which words a claim's specification is refused: what was found and what was
/// wanted, both without what is empty.
pub proof fn law_claim_specs_are_refused_in_words(
    observed: Option<json::JsonView>,
    desired: Option<json::JsonView>,
)
    ensures
        claim::claim_spec_error(observed, desired) matches Some(words) ==> words
            == "certification Claim spec drifted from the exact Pool: observed "@
            + json::value_text(claim::normalized(observed)) + ", desired "@ + json::value_text(
            claim::normalized(desired),
        ),
{
}

} // verus!
