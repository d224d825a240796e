//! What counts as evidence for a pool's certification, said of the objects' fields.

use crate::base_laws;
use crate::certification::attempt;
use crate::certification::captured;
use crate::certification::claim;
use crate::certification::fence;
use crate::certification::fingerprint;
use crate::certification::identity;
use crate::certification::names::{self, SandboxPool};
use crate::certification::opening::{self, Survey};
use crate::certification::population::{self, ResolvedSandboxPod};
use crate::certification::receipt;
use crate::certification::storage;
use crate::certification::workload;
use crate::crd::sandbox::{
    self, SandboxIsolation, SandboxPoolCertificationPhase, SandboxPoolCertificationStatus,
};
use crate::json;
use crate::k8s::{
    self, ApiError, ConfigMap, DynamicObject, NetworkPolicy, Node, ObjectMeta, Pod, PodSpec,
    Service,
};
use crate::number;
use crate::text;
use vstd::prelude::*;

verus! {

/// Whether an optional text is there and not empty.
pub open spec fn is_filled(value: Option<String>) -> bool {
    value matches Some(held) && held@.len() > 0
}

/// Whether one of the owners controls and is exactly this object.
pub open spec fn has_controlling_owner(
    meta: ObjectMeta,
    api_version: Seq<char>,
    kind: Seq<char>,
    name: Seq<char>,
    uid: Seq<char>,
) -> bool {
    exists|i: int|
        0 <= i < meta.owner_references@.len() && {
            let owner = #[trigger] meta.owner_references@[i];
            owner.controller == Some(true) && owner.api_version@ == api_version && owner.kind@
                == kind && owner.name@ == name && owner.uid@ == uid
        }
}

/// A value is nothing but empty objects exactly where it is an object and each of its
/// members is such; anything else is kept, an object without those members.
pub proof fn law_only_empty_objects_are_pruned(value: json::JsonView)
    ensures
        !(value is Object) ==> json::pruned(value) == Some(value),
        value matches json::JsonView::Object(members) ==> {
            &&& json::pruned(value) is None <==> forall|i: int|
                0 <= i < members.len() ==> json::pruned((#[trigger] members[i]).1) is None
            &&& json::pruned(value) matches Some(kept) ==> kept is Object
        },
{
    if let json::JsonView::Object(members) = value {
        lemma_pruned_members(members);
    }
}

proof fn lemma_pruned_members(members: Seq<(Seq<char>, json::JsonView)>)
    ensures
        json::pruned_members(members).len() == 0 <==> forall|i: int|
            0 <= i < members.len() ==> json::pruned((#[trigger] members[i]).1) is None,
    decreases members.len(),
{
    if members.len() > 0 {
        let less = members.drop_last();
        lemma_pruned_members(less);
        if json::pruned_members(members).len() == 0 {
            assert forall|i: int| 0 <= i < members.len() implies json::pruned(
                (#[trigger] members[i]).1,
            ) is None by {
                if i < less.len() {
                    assert(less[i] == members[i]);
                }
            }
        }
        if forall|i: int|
            0 <= i < members.len() ==> json::pruned((#[trigger] members[i]).1) is None {
            assert forall|i: int| 0 <= i < less.len() implies json::pruned(
                (#[trigger] less[i]).1,
            ) is None by {
                assert(members[i] == less[i]);
            }
            assert(json::pruned(members[members.len() - 1].1) is None);
        }
    }
}

/// A claim that is found is accepted exactly where the pool has a UID and a
/// generation, and the claim is controlled by the pool, stays, is labelled with the
/// manager, the pool's UID and the pool's generation, and asks for what is desired but
/// for empty objects.
pub proof fn law_claim_is_accepted_exactly(
    pool: ObjectMeta,
    desired: json::JsonView,
    found: DynamicObject,
    managed_by: Seq<char>,
)
    ensures
        claim::observed_claim_error(pool@, desired, found, managed_by) is None <==> {
            &&& pool.uid matches Some(uid)
            &&& uid@.len() > 0
            &&& pool.generation matches Some(generation)
            &&& has_controlling_owner(
                found.metadata,
                "kobe.kunobi.ninja/v1alpha1"@,
                "SandboxPool"@,
                pool@.any_name(),
                uid@,
            )
            &&& found.metadata.deletion_timestamp is None
            &&& found.metadata@.label("app.kubernetes.io/managed-by"@) == Some(managed_by)
            &&& found.metadata@.label("kobe.kunobi.ninja/sandbox-pool-uid"@) == Some(uid@)
            &&& found.metadata@.label("kobe.kunobi.ninja/sandbox-pool-generation"@) == Some(
                number::signed_decimal(generation as int),
            )
            &&& json::alike(
                claim::normalized(found.data@.get("spec"@)),
                claim::normalized(desired.get("spec"@)),
            )
        },
{
    base_laws::law_metadata_reads_its_fields(found.metadata);
    if let Some(generation) = pool.generation {
        number::law_numeral_reads_back(generation);
    }
}

/// A claim's specification is compared without the empty objects in it; one that is
/// not there, or is nothing but empty objects, counts as an empty object.
pub proof fn law_claim_specs_are_normalized(spec: json::JsonView)
    ensures
        claim::normalized(None) == json::JsonView::Object(Seq::empty()),
        json::pruned(spec) is None ==> claim::normalized(Some(spec)) == json::JsonView::Object(
            Seq::empty(),
        ),
        json::pruned(spec) matches Some(kept) ==> claim::normalized(Some(spec)) == kept,
{
}

/// The claim that is asked for: made exactly where the pool has a UID that is not
/// empty, a generation and a name; of the claims' API and kind, in the namespace, under
/// the name of the pool's UID, owned and controlled by the pool, labelled with the
/// manager and the pool's UID and generation; and it asks for the warm pool, to be
/// deleted in the foreground.
pub proof fn law_claim_is_made_of_the_pool(
    pool: ObjectMeta,
    namespace: Seq<char>,
    warm_pool_name: Seq<char>,
    managed_by: Seq<char>,
    result: Result<DynamicObject, String>,
)
    requires
        claim::certification_claim_gives(pool@, namespace, warm_pool_name, managed_by, result),
    ensures
        result is Ok <==> is_filled(pool.uid) && pool.generation is Some && pool.name is Some,
        result matches Ok(made) ==> {
            &&& made.types matches Some(types) && types.api_version@
                == "extensions.agents.x-k8s.io/v1beta1"@ && types.kind@ == "SandboxClaim"@
            &&& made.metadata.name matches Some(name) && name@ == names::claim_name(pool.uid->0@)
            &&& made.metadata.namespace matches Some(place) && place@ == namespace
            &&& made.metadata.deletion_timestamp is None
            &&& made.metadata.finalizers@.len() == 0
            &&& made.metadata.owner_references@.len() == 1
            &&& has_controlling_owner(
                made.metadata,
                "kobe.kunobi.ninja/v1alpha1"@,
                "SandboxPool"@,
                pool.name->0@,
                pool.uid->0@,
            )
            &&& made.metadata@.label("app.kubernetes.io/managed-by"@) == Some(managed_by)
            &&& made.metadata@.label("kobe.kunobi.ninja/sandbox-pool-uid"@) == Some(pool.uid->0@)
            &&& made.metadata@.label("kobe.kunobi.ninja/sandbox-pool-generation"@) == Some(
                number::signed_decimal(pool.generation->0 as int),
            )
            &&& made.data@.get("spec"@) matches Some(spec)
            &&& spec.get("warmPoolRef"@) matches Some(reference)
            &&& reference.get("name"@) == Some(json::JsonView::Text(warm_pool_name))
            &&& spec.get("lifecycle"@) matches Some(lifecycle)
            &&& lifecycle.get("shutdownPolicy"@) == Some(
                json::JsonView::Text("DeleteForeground"@),
            )
        },
{
    if let Ok(made) = result {
        base_laws::law_metadata_reads_its_fields(made.metadata);
        let labels = made.metadata@.labels;
        reveal_strlit("app.kubernetes.io/managed-by");
        reveal_strlit("kobe.kunobi.ninja/sandbox-pool-generation");
        reveal_strlit("kobe.kunobi.ninja/sandbox-pool-uid");
        assert("app.kubernetes.io/managed-by"@[0] == 'a');
        assert("kobe.kunobi.ninja/sandbox-pool-generation"@[0] == 'k');
        assert("kobe.kunobi.ninja/sandbox-pool-uid"@[0] == 'k');
        assert("kobe.kunobi.ninja/sandbox-pool-generation"@.len() == 41);
        assert("kobe.kunobi.ninja/sandbox-pool-uid"@.len() == 34);
        reveal_with_fuel(text::pair_value, 4);
        assert(labels.skip(1)[0] == labels[1]);
        assert(labels.skip(1).skip(1)[0] == labels[2]);
        assert(made.metadata@.owner_references.len() == 1);
        assert(made.metadata@.owner_references[0] == made.metadata.owner_references@[0]@);
        reveal_strlit("spec");
        reveal_strlit("lifecycle");
        reveal_strlit("warmPoolRef");
        assert("lifecycle"@.len() == 9);
        assert("warmPoolRef"@.len() == 11);
        reveal_with_fuel(json::member_of, 3);
        let spec = claim::claim_data(warm_pool_name)->Object_0[0].1;
        let members = spec->Object_0;
        assert(members.skip(1)[0] == members[1]);
    }
}

/// A recorded reference is met by an object exactly where the reference is to this API
/// and kind, in this namespace, under this name, the object has its UID, and its
/// generation where one is recorded.
pub proof fn law_reference_is_met_exactly(
    expected: sandbox::ReferenceView,
    object: ObjectMeta,
    api_version: Seq<char>,
    kind: Seq<char>,
    namespace: Seq<char>,
    name: Seq<char>,
)
    ensures
        identity::reference_matches(
            expected,
            object@,
            api_version,
            kind,
            namespace,
            name,
        ) <==> {
            &&& expected.api_version == api_version
            &&& expected.kind == kind
            &&& expected.namespace matches Some(place) && place == namespace
            &&& expected.name == name
            &&& object.uid matches Some(uid) && uid@ == expected.uid
            &&& expected.generation matches Some(generation) ==> object.generation == Some(
                generation,
            )
        },
{
}

/// An object is referred to exactly where it has a UID that is not empty: by its own
/// namespace, name, UID and generation, under the API and kind that are given.
pub proof fn law_reference_is_to_the_object(
    object: ObjectMeta,
    api_version: Seq<char>,
    kind: Seq<char>,
)
    ensures
        identity::reference_to(object@, api_version, kind) is Ok <==> is_filled(object.uid),
        identity::reference_to(object@, api_version, kind) matches Ok(reference) ==> {
            &&& reference.api_version == api_version
            &&& reference.kind == kind
            &&& reference.namespace == text::opt_text(object.namespace)
            &&& reference.name == object@.any_name()
            &&& reference.uid == object.uid->0@
            &&& reference.generation == object.generation
        },
        identity::reference_to(object@, api_version, kind) matches Err(words) ==> words == kind
            + " UID is missing"@,
{
}

/// An upstream object is the pool's exactly where both have a UID, it stays, is in the
/// namespace, has the pool's object name, is controlled by the pool, and meets the
/// recorded reference where there is one; it is then known by its UID.
pub proof fn law_upstream_object_is_the_pools(
    pool: ObjectMeta,
    namespace: Seq<char>,
    object: ObjectMeta,
    kind: Seq<char>,
    expected: Option<sandbox::ReferenceView>,
)
    ensures
        identity::pool_object_identity(pool@, namespace, object@, kind, expected) is Ok <==> {
            &&& is_filled(pool.uid)
            &&& is_filled(object.uid)
            &&& object.deletion_timestamp is None
            &&& object.namespace matches Some(place) && place@ == namespace
            &&& object@.any_name() == "kobe-"@ + pool@.any_name()
            &&& has_controlling_owner(
                object,
                "kobe.kunobi.ninja/v1alpha1"@,
                "SandboxPool"@,
                pool@.any_name(),
                pool.uid->0@,
            )
            &&& expected matches Some(reference) ==> identity::reference_matches(
                reference,
                object@,
                "extensions.agents.x-k8s.io/v1beta1"@,
                kind,
                namespace,
                "kobe-"@ + pool@.any_name(),
            )
        },
        identity::pool_object_identity(pool@, namespace, object@, kind, expected) matches Ok(uid)
            ==> uid == object.uid->0@,
{
    base_laws::law_metadata_reads_its_fields(object);
}

/// A pool's template and warm pool are accepted exactly where the pool is in the
/// namespace and has a name, both are the pool's, and their specifications are what the
/// pool projects to.
pub proof fn law_pool_objects_are_accepted_exactly(
    pool: ObjectMeta,
    namespace: Seq<char>,
    template: DynamicObject,
    warm_pool: DynamicObject,
    expected_template: Option<sandbox::ReferenceView>,
    expected_warm_pool: Option<sandbox::ReferenceView>,
    projection: identity::PoolProjection,
)
    ensures
        identity::pool_objects(
            pool@,
            namespace,
            template,
            warm_pool,
            expected_template,
            expected_warm_pool,
            projection,
        ) is Ok <==> {
            &&& pool.namespace matches Some(place) && place@ == namespace
            &&& pool.name is Some
            &&& identity::pool_object_identity(
                pool@,
                namespace,
                template.metadata@,
                "SandboxTemplate"@,
                expected_template,
            ) is Ok
            &&& identity::pool_object_identity(
                pool@,
                namespace,
                warm_pool.metadata@,
                "SandboxWarmPool"@,
                expected_warm_pool,
            ) is Ok
            &&& projection.template matches Ok(wanted) && match (
                template.data@.get("spec"@),
                wanted,
            ) {
                (Some(found), Some(desired)) => json::alike(found, desired@),
                (None, None) => true,
                _ => false,
            }
            &&& projection.warm_pool matches Ok(wanted) && match (
                warm_pool.data@.get("spec"@),
                wanted,
            ) {
                (Some(found), Some(desired)) => json::alike(found, desired@),
                (None, None) => true,
                _ => false,
            }
        },
        identity::pool_objects(
            pool@,
            namespace,
            template,
            warm_pool,
            expected_template,
            expected_warm_pool,
            projection,
        ) matches Ok(uids) ==> uids.0 == template.metadata.uid->0@ && uids.1
            == warm_pool.metadata.uid->0@,
{
    law_upstream_object_is_the_pools(
        pool,
        namespace,
        template.metadata,
        "SandboxTemplate"@,
        expected_template,
    );
    law_upstream_object_is_the_pools(
        pool,
        namespace,
        warm_pool.metadata,
        "SandboxWarmPool"@,
        expected_warm_pool,
    );
}

/// A warm pool has converged exactly where its status is for its generation, and says
/// that it has as many replicas and as many ready replicas as are desired and selects
/// by its own label.
pub proof fn law_warm_pool_converges_exactly(warm_pool: DynamicObject, desired: u32)
    ensures
        population::converged(warm_pool, desired) <==> {
            &&& warm_pool.metadata.generation matches Some(generation)
            &&& warm_pool.data@.get("status"@) matches Some(status)
            &&& status.get("observedGeneration"@) == Some(
                json::JsonView::Number(json::NumberView::Integer(generation as int)),
            )
            &&& status.get("replicas"@) == Some(
                json::JsonView::Number(json::NumberView::Integer(desired as int)),
            )
            &&& status.get("readyReplicas"@) == Some(
                json::JsonView::Number(json::NumberView::Integer(desired as int)),
            )
            &&& status.get("selector"@) == Some(
                json::JsonView::Text(
                    "agents.x-k8s.io/warm-pool-sandbox="@ + names::name_hash(
                        warm_pool.metadata@.any_name(),
                    ),
                ),
            )
        },
{
    reveal_strlit("agents.x-k8s.io/warm-pool-sandbox=");
    reveal_strlit("agents.x-k8s.io/warm-pool-sandbox");
    reveal_strlit("=");
    assert("agents.x-k8s.io/warm-pool-sandbox="@ =~= "agents.x-k8s.io/warm-pool-sandbox"@ + "="@);
}

/// A pool's population is looked into exactly where its objects are accepted and its
/// warm pool has converged to the capacity that the pool keeps warm.
pub proof fn law_only_a_converged_pool_is_looked_into(
    pool: SandboxPool,
    namespace: Seq<char>,
    template: DynamicObject,
    warm_pool: DynamicObject,
    expected_template: Option<sandbox::ReferenceView>,
    expected_warm_pool: Option<sandbox::ReferenceView>,
    projection: identity::PoolProjection,
)
    ensures
        ({
            let accepted = identity::pool_objects(
                pool.metadata@,
                namespace,
                template,
                warm_pool,
                expected_template,
                expected_warm_pool,
                projection,
            );
            let looked = population::pool_converged(
                pool,
                namespace,
                template,
                warm_pool,
                expected_template,
                expected_warm_pool,
                projection,
            );
            &&& looked is Ok <==> accepted is Ok && population::converged(
                warm_pool,
                pool.spec.warm_capacity,
            )
            &&& looked is Ok ==> looked == accepted
        }),
{
}

/// The network policy of a template is accepted exactly where it stays, has a UID, is
/// controlled by the template and asks for the strict policy of that template.
pub proof fn law_policy_is_accepted_exactly(
    policy: NetworkPolicy,
    template_name: Seq<char>,
    template_uid: Seq<char>,
)
    ensures
        population::policy_is_exact(policy, template_name, template_uid) <==> {
            &&& policy.metadata.deletion_timestamp is None
            &&& is_filled(policy.metadata.uid)
            &&& has_controlling_owner(
                policy.metadata,
                "extensions.agents.x-k8s.io/v1beta1"@,
                "SandboxTemplate"@,
                template_name,
                template_uid,
            )
            &&& policy.spec matches Some(spec) && spec@ == workload::strict_policy(template_name)
        },
{
    base_laws::law_metadata_reads_its_fields(policy.metadata);
}

/// A listed sandbox is a member exactly where it stays, is controlled by the warm pool,
/// is ready at its generation and is labelled for the template.
pub proof fn law_member_is_accepted_exactly(
    member: DynamicObject,
    warm_pool_name: Seq<char>,
    warm_pool_uid: Seq<char>,
    template_name: Seq<char>,
)
    ensures
        population::member_error(member, warm_pool_name, warm_pool_uid, template_name) is None <==> {
            &&& member.metadata.deletion_timestamp is None
            &&& has_controlling_owner(
                member.metadata,
                "extensions.agents.x-k8s.io/v1beta1"@,
                "SandboxWarmPool"@,
                warm_pool_name,
                warm_pool_uid,
            )
            &&& workload::ready_at_generation(member)
            &&& member.metadata@.label("agents.x-k8s.io/sandbox-template-ref-hash"@) == Some(
                names::name_hash(template_name),
            )
        },
{
    base_laws::law_metadata_reads_its_fields(member.metadata);
}

/// A text of a status is read exactly where it is there, is a string and is not empty.
pub proof fn law_status_text_is_a_member(data: json::JsonView, field: Seq<char>)
    ensures
        population::status_text(data, field) is Some <==> (data.get("status"@) matches Some(status)
            && status.get(field) matches Some(json::JsonView::Text(found)) && found.len() > 0),
        population::status_text(data, field) matches Some(found) ==> data.get("status"@)->0.get(
            field,
        ) == Some(json::JsonView::Text(found)),
{
}

/// An idle sandbox's Pods are selected exactly where the sandbox has a UID and its
/// status names a selector, which is used.
pub proof fn law_idle_sandbox_selects_its_pods(sandbox: DynamicObject)
    ensures
        population::idle_selector(sandbox) is Ok <==> is_filled(sandbox.metadata.uid)
            && population::status_text(sandbox.data@, "selector"@) is Some,
        population::idle_selector(sandbox) matches Ok(selector) ==> population::status_text(
            sandbox.data@,
            "selector"@,
        ) == Some(selector),
{
}

/// An idle sandbox resolves exactly where it has a UID and its selector finds one Pod,
/// which has a UID and is controlled by the sandbox. The resolution names both, and the
/// Service that the sandbox's status names.
pub proof fn law_idle_sandbox_resolves_to_one_pod(
    sandbox: DynamicObject,
    pods: Result<Vec<Pod>, ApiError>,
)
    ensures
        population::idle_pod(sandbox, pods) is Ok <==> {
            &&& is_filled(sandbox.metadata.uid)
            &&& pods matches Ok(found)
            &&& found@.len() == 1
            &&& is_filled(found@[0].metadata.uid)
            &&& has_controlling_owner(
                found@[0].metadata,
                "agents.x-k8s.io/v1beta1"@,
                "Sandbox"@,
                sandbox.metadata@.any_name(),
                sandbox.metadata.uid->0@,
            )
        },
        population::idle_pod(sandbox, pods) matches Ok(resolved) ==> {
            &&& resolved.sandbox_name == sandbox.metadata@.any_name()
            &&& resolved.sandbox_uid == sandbox.metadata.uid->0@
            &&& resolved.pod_name == pods->Ok_0@[0].metadata@.any_name()
            &&& resolved.pod_uid == pods->Ok_0@[0].metadata.uid->0@
            &&& resolved.service_name == population::status_text(sandbox.data@, "service"@)
            &&& resolved.service_uid is None
        },
{
    if let Ok(found) = pods {
        if found@.len() == 1 {
            base_laws::law_metadata_reads_its_fields(found@[0].metadata);
        }
    }
}

/// A resolution takes on the Service's UID exactly where the Service is found and has
/// one; nothing else of it changes.
pub proof fn law_idle_service_adds_its_uid(
    resolved: population::ResolvedView,
    service: Result<Service, ApiError>,
)
    ensures
        population::idle_service(resolved, service) is Ok <==> (service matches Ok(found)
            && is_filled(found.metadata.uid)),
        population::idle_service(resolved, service) matches Ok(next) ==> {
            &&& next.service_uid == Some(service->Ok_0.metadata.uid->0@)
            &&& next.service_name == resolved.service_name
            &&& next.sandbox_name == resolved.sandbox_name
            &&& next.sandbox_uid == resolved.sandbox_uid
            &&& next.pod_name == resolved.pod_name
            &&& next.pod_uid == resolved.pod_uid
        },
{
}

/// A resolved sandbox goes on to its Pods exactly where it has the resolved name and
/// UID, stays, is ready at its generation, is labelled for the template, and its status
/// names a selector, which is used.
pub proof fn law_workload_sandbox_is_accepted_exactly(
    template_name: Seq<char>,
    sandbox: DynamicObject,
    resolved: population::ResolvedView,
)
    ensures
        population::workload_pods(template_name, sandbox, resolved) is Ok <==> {
            &&& sandbox.metadata@.any_name() == resolved.sandbox_name
            &&& sandbox.metadata.uid matches Some(uid) && uid@ == resolved.sandbox_uid
            &&& sandbox.metadata.deletion_timestamp is None
            &&& workload::ready_at_generation(sandbox)
            &&& sandbox.metadata@.label("agents.x-k8s.io/sandbox-template-ref-hash"@) == Some(
                names::name_hash(template_name),
            )
            &&& population::status_text(sandbox.data@, "selector"@) is Some
        },
        population::workload_pods(template_name, sandbox, resolved) matches Ok(selector)
            ==> population::status_text(sandbox.data@, "selector"@) == Some(selector),
{
}

/// A resolved Pod goes on to its node exactly where the selector finds one Pod, with
/// the resolved name and UID, controlled by the resolved sandbox, ready, labelled for
/// the sandbox and the template under the policy, and with a specification that is
/// accepted; the node is the one that the specification names.
pub proof fn law_workload_pod_is_accepted_exactly(
    template_name: Seq<char>,
    policy: NetworkPolicy,
    expected_pod: PodSpec,
    resolved: population::ResolvedView,
    pods: Result<Vec<Pod>, ApiError>,
)
    ensures
        ({
            let next = population::workload_node(
                template_name,
                policy,
                expected_pod,
                resolved,
                pods,
            );
            &&& next is Ok <==> {
                &&& pods matches Ok(found)
                &&& found@.len() == 1
                &&& found@[0].metadata.uid matches Some(uid) && uid@ == resolved.pod_uid
                &&& found@[0].metadata@.any_name() == resolved.pod_name
                &&& has_controlling_owner(
                    found@[0].metadata,
                    "agents.x-k8s.io/v1beta1"@,
                    "Sandbox"@,
                    resolved.sandbox_name,
                    resolved.sandbox_uid,
                )
                &&& workload::pod_is_ready(found@[0])
                &&& workload::pod_labels_error(
                    found@[0].metadata@,
                    resolved.sandbox_name,
                    template_name,
                    policy,
                ) is None
                &&& found@[0].spec matches Some(spec) && workload::pod_spec_error(
                    expected_pod,
                    spec,
                ) is None
            }
            &&& next matches Ok(node) ==> node == pods->Ok_0@[0].spec->0.node_name->0@
        }),
{
    if let Ok(found) = pods {
        if found@.len() == 1 {
            base_laws::law_metadata_reads_its_fields(found@[0].metadata);
        }
    }
}

/// A workload on a node goes on exactly where the node is found and accepted, and the
/// resolution has a Service with a UID where the pool exposes ports and none of either
/// where it does not.
pub proof fn law_workload_node_is_accepted_exactly(
    exposes_ports: bool,
    resolved: population::ResolvedView,
    node: Result<Node, ApiError>,
)
    ensures
        population::workload_service(exposes_ports, resolved, node) is Ok <==> {
            &&& node matches Ok(found)
            &&& workload::node_error(found) is None
            &&& exposes_ports ==> resolved.service_name is Some && resolved.service_uid is Some
            &&& !exposes_ports ==> resolved.service_name is None && resolved.service_uid is None
        },
        population::workload_service(exposes_ports, resolved, node) matches Ok(next) ==> {
            &&& exposes_ports ==> next == Some((resolved.service_name->0, resolved.service_uid->0))
            &&& !exposes_ports ==> next is None
        },
{
}

/// A workload's Service is accepted exactly where it is found, has the resolved UID and
/// is the exact Service of the sandbox.
pub proof fn law_workload_service_is_accepted_exactly(
    pool: SandboxPool,
    resolved: population::ResolvedView,
    service_uid: Seq<char>,
    service: Result<Service, ApiError>,
)
    ensures
        population::workload_service_error(pool, resolved, service_uid, service) is None <==> {
            &&& service matches Ok(found)
            &&& found.metadata.uid matches Some(uid) && uid@ == service_uid
            &&& workload::service_error(
                pool.spec.template,
                found,
                resolved.sandbox_name,
                resolved.sandbox_uid,
            ) is None
        },
{
}

/// Only the trusted tier is qualified.
pub proof fn law_only_the_trusted_tier_is_qualified(pool: SandboxPool)
    ensures
        population::isolation_error(pool) is None <==> (pool.spec.isolation
            matches SandboxIsolation::TrustedRunc {  }),
{
}

/// Certification needs the release that acknowledges generations.
pub proof fn law_release_is_the_acknowledging_one(release: Seq<char>)
    ensures
        attempt::release_error(release) is None <==> release == "v0.5.6"@,
{
}

/// An attempt is in teardown from the installed fence to the deleted one, and while it
/// is blocked.
pub proof fn law_teardown_phases(phase: SandboxPoolCertificationPhase)
    ensures
        attempt::in_teardown(phase) <==> {
            ||| phase == SandboxPoolCertificationPhase::FenceInstalled
            ||| phase == SandboxPoolCertificationPhase::DrainAcknowledged
            ||| phase == SandboxPoolCertificationPhase::ClaimDeleting
            ||| phase == SandboxPoolCertificationPhase::AbsenceProven
            ||| phase == SandboxPoolCertificationPhase::Replenished
            ||| phase == SandboxPoolCertificationPhase::FenceFinalizerRemoved
            ||| phase == SandboxPoolCertificationPhase::FenceDeleting
            ||| phase == SandboxPoolCertificationPhase::CleanupBlocked
        },
{
}

/// What is surveyed before a pass: nothing under another release; the identities alone
/// while an attempt is in teardown, and only in the qualified tier; the whole census
/// otherwise.
pub proof fn law_survey_is_by_phase(
    pool: SandboxPool,
    existing: Option<SandboxPoolCertificationStatus>,
    release: Seq<char>,
)
    ensures
        release != "v0.5.6"@ ==> opening::needed_survey(pool, existing, release) is Err,
        release == "v0.5.6"@ ==> if existing matches Some(status) && attempt::in_teardown(
            status.phase,
        ) {
            opening::needed_survey(pool, existing, release) == (
            if pool.spec.isolation is TrustedRunc {
                Ok::<Survey, Seq<char>>(Survey::Identities)
            } else {
                Err("gVisor and Kata remain unqualified until isolation issue #14 is closed"@)
            })
        } else {
            opening::needed_survey(pool, existing, release) == Ok::<Survey, Seq<char>>(
                Survey::Census,
            )
        },
{
}

/// In teardown a pool is surveyed exactly where the template is the recorded one and the
/// warm pool is, but for its generation; the number of ready sandboxes is what the warm
/// pool's status says, and zero where it says nothing.
pub proof fn law_teardown_survey_counts_what_is_reported(
    pool: SandboxPool,
    namespace: Seq<char>,
    template: DynamicObject,
    warm_pool: DynamicObject,
    status: SandboxPoolCertificationStatus,
    runtime: Result<(), String>,
)
    ensures
        ({
            let surveyed = opening::identities_surveyed(
                pool,
                namespace,
                template,
                warm_pool,
                status,
                runtime,
            );
            &&& surveyed is Ok <==> {
                &&& runtime is Ok
                &&& identity::pool_object_identity(
                    pool.metadata@,
                    namespace,
                    template.metadata@,
                    "SandboxTemplate"@,
                    Some(status.sandbox_template@),
                ) is Ok
                &&& identity::pool_object_identity(
                    pool.metadata@,
                    namespace,
                    warm_pool.metadata@,
                    "SandboxWarmPool"@,
                    Some(
                        sandbox::ReferenceView {
                            generation: None,
                            ..status.sandbox_warm_pool@
                        },
                    ),
                ) is Ok
            }
            &&& surveyed matches Ok(count) ==> {
                ||| 0 <= count <= 0xffff_ffff && (warm_pool.data@.get("status"@) matches Some(
                    reported,
                ) && reported.get("readyReplicas"@) == Some(
                    json::JsonView::Number(json::NumberView::Integer(count)),
                ))
                ||| count == 0 && !(warm_pool.data@.get("status"@) matches Some(reported)
                    && reported.get("readyReplicas"@) matches Some(
                    json::JsonView::Number(json::NumberView::Integer(said)),
                ) && 0 <= said <= 0xffff_ffff)
            }
        }),
{
}

/// A new attempt: initialized, for the pool's generation and the template and warm pool
/// as they are, with nothing captured, fenced, drained, passed or certified.
pub proof fn law_a_new_attempt_holds_nothing_yet(
    status: SandboxPoolCertificationStatus,
    pool: SandboxPool,
    template: DynamicObject,
    warm_pool: DynamicObject,
)
    requires
        attempt::just_begun(status, pool, template, warm_pool),
    ensures
        status.phase is Initialized,
        pool.metadata.generation == Some(status.observed_generation),
        status.sandbox_template.uid@ == template.metadata.uid->0@,
        status.sandbox_template.name@ == template.metadata@.any_name(),
        status.sandbox_template.kind@ == "SandboxTemplate"@,
        status.sandbox_template.api_version@ == "extensions.agents.x-k8s.io/v1beta1"@,
        status.sandbox_template.generation == template.metadata.generation,
        status.sandbox_warm_pool.uid@ == warm_pool.metadata.uid->0@,
        status.sandbox_warm_pool.name@ == warm_pool.metadata@.any_name(),
        status.sandbox_warm_pool.kind@ == "SandboxWarmPool"@,
        status.sandbox_warm_pool.api_version@ == "extensions.agents.x-k8s.io/v1beta1"@,
        status.sandbox_warm_pool.generation == warm_pool.metadata.generation,
        status.sandbox_claim is None,
        status.sandbox is None,
        status.pod is None,
        status.service is None,
        status.persistent_volume_claims@.len() == 0,
        status.persistent_volumes@.len() == 0,
        status.teardown_fence is None,
        status.drain_generation is None,
        status.replenish_generation is None,
        status.canary_passed_at is None,
        status.certified_at is None,
        status.message is None,
{
}

/// A new attempt can be begun exactly where the pool has a generation and both upstream
/// objects have a UID.
pub proof fn law_an_attempt_needs_identities(
    pool: SandboxPool,
    template: DynamicObject,
    warm_pool: DynamicObject,
)
    ensures
        attempt::initial_error(pool, template, warm_pool) is None
            <==> pool.metadata.generation is Some && is_filled(template.metadata.uid) && is_filled(
            warm_pool.metadata.uid,
        ),
{
}

/// A pool's certificate passes exactly where the pool has one that is certified, for the
/// pool's generation and with the fingerprint that the pool, its upstream objects and the
/// runtime API have now.
pub proof fn law_certificate_passes_exactly(
    pool: SandboxPool,
    template: DynamicObject,
    warm_pool: DynamicObject,
    runtime_api_version: Seq<char>,
)
    ensures
        receipt::certificate_error(pool, template, warm_pool, runtime_api_version) is None <==> {
            &&& pool.status matches Some(status)
            &&& status.certification matches Some(certificate)
            &&& certificate.phase is Certified
            &&& certificate.observed_generation == (match pool.metadata.generation {
                Some(generation) => generation as int,
                None => 0,
            })
            &&& fingerprint::fingerprint(
                pool,
                template.metadata@,
                warm_pool.metadata@,
                runtime_api_version,
            ) == Ok::<Seq<char>, Seq<char>>(certificate.fingerprint@)
        },
{
}

/// What a certificate holds the upstream objects to: the reference that is asked for, or
/// else the recorded one; for the warm pool at the generation of its restored capacity,
/// where that is recorded.
pub proof fn law_certificate_names_its_objects(
    certificate: SandboxPoolCertificationStatus,
    expected: Option<sandbox::ReferenceView>,
)
    ensures
        expected matches Some(reference) ==> receipt::certified_template(certificate, expected)
            == reference,
        expected is None ==> receipt::certified_template(certificate, expected)
            == certificate.sandbox_template@,
        ({
            let held = receipt::certified_warm_pool(certificate, expected);
            let asked = match expected {
                Some(reference) => reference,
                None => certificate.sandbox_warm_pool@,
            };
            &&& held.uid == asked.uid
            &&& held.name == asked.name
            &&& held.namespace == asked.namespace
            &&& held.kind == asked.kind
            &&& held.api_version == asked.api_version
            &&& held.generation == (match certificate.replenish_generation {
                Some(generation) => Some(generation),
                None => asked.generation,
            })
        }),
{
}

/// A captured claim is the recorded one exactly where it is found, meets the recorded
/// reference and is ready at its generation; a captured sandbox where it is found and
/// meets its reference. What is found is handed on.
pub proof fn law_captured_objects_are_the_recorded_ones(
    recorded: sandbox::ReferenceView,
    namespace: Seq<char>,
    lookup: Result<DynamicObject, ApiError>,
)
    ensures
        captured::captured_claim(recorded, namespace, lookup) is Ok <==> (lookup matches Ok(found)
            && identity::reference_matches(
            recorded,
            found.metadata@,
            "extensions.agents.x-k8s.io/v1beta1"@,
            "SandboxClaim"@,
            namespace,
            recorded.name,
        ) && workload::ready_at_generation(found)),
        captured::captured_claim(recorded, namespace, lookup) matches Ok(found) ==> lookup == Ok::<
            DynamicObject,
            ApiError,
        >(found),
        captured::captured_sandbox(recorded, namespace, lookup) is Ok <==> (lookup matches Ok(found)
            && identity::reference_matches(
            recorded,
            found.metadata@,
            "agents.x-k8s.io/v1beta1"@,
            "Sandbox"@,
            namespace,
            recorded.name,
        )),
        captured::captured_sandbox(recorded, namespace, lookup) matches Ok(found) ==> lookup
            == Ok::<DynamicObject, ApiError>(found),
{
}

/// A captured workload resolves as recorded exactly where it resolves at all, to the
/// recorded sandbox and Pod by name and UID, and to the recorded Service by name and
/// UID, or to none where none is recorded.
pub proof fn law_captured_workload_resolves_exactly(
    resolution: Result<Option<ResolvedSandboxPod>, String>,
    recorded_sandbox: sandbox::ReferenceView,
    recorded_pod: sandbox::ReferenceView,
    recorded_service: Option<sandbox::ReferenceView>,
)
    ensures
        captured::captured_identity(
            resolution,
            recorded_sandbox,
            recorded_pod,
            recorded_service,
        ) is Ok <==> {
            &&& resolution matches Ok(Some(resolved))
            &&& resolved.sandbox_name@ == recorded_sandbox.name
            &&& resolved.sandbox_uid@ == recorded_sandbox.uid
            &&& resolved.pod_name@ == recorded_pod.name
            &&& resolved.pod_uid@ == recorded_pod.uid
            &&& match recorded_service {
                Some(service) => (resolved.service_name matches Some(name) && name@
                    == service.name) && (resolved.service_uid matches Some(uid) && uid@
                    == service.uid),
                None => resolved.service_name is None && resolved.service_uid is None,
            }
        },
        captured::captured_identity(
            resolution,
            recorded_sandbox,
            recorded_pod,
            recorded_service,
        ) matches Ok(found) ==> found == resolution->Ok_0->0@,
{
}

/// Captured storage passes exactly where the claims and the volumes are the recorded
/// ones, in their order.
pub proof fn law_captured_storage_passes_exactly(
    claims: Seq<sandbox::ReferenceView>,
    volumes: Seq<sandbox::ReferenceView>,
    status: SandboxPoolCertificationStatus,
)
    ensures
        captured::captured_storage_error(claims, volumes, status) is None <==> {
            &&& claims.len() == status.persistent_volume_claims@.len()
            &&& forall|i: int|
                0 <= i < claims.len() ==> #[trigger] claims[i]
                    == status.persistent_volume_claims@[i]@
            &&& volumes.len() == status.persistent_volumes@.len()
            &&& forall|i: int|
                0 <= i < volumes.len() ==> #[trigger] volumes[i] == status.persistent_volumes@[i]@
        },
{
    let held = sandbox::reference_views(status.persistent_volume_claims@);
    let kept = sandbox::reference_views(status.persistent_volumes@);
    if claims.len() == status.persistent_volume_claims@.len() && (forall|i: int|
        0 <= i < claims.len() ==> #[trigger] claims[i] == status.persistent_volume_claims@[i]@) {
        assert(claims =~= held);
    }
    if volumes.len() == status.persistent_volumes@.len() && (forall|i: int|
        0 <= i < volumes.len() ==> #[trigger] volumes[i] == status.persistent_volumes@[i]@) {
        assert(volumes =~= kept);
    }
}

/// A storage manifest holds nothing else: every reference in it is to a listed object
/// that belongs to the workload, by that object's own identity. It is made exactly where
/// every such object has a UID.
pub proof fn law_manifest_holds_nothing_else(
    objects: Seq<k8s::MetaView>,
    belongs: spec_fn(int) -> bool,
    kind: Seq<char>,
)
    ensures
        storage::manifest(objects, belongs, kind) is Ok <==> forall|i: int|
            0 <= i < objects.len() && #[trigger] belongs(i) ==> k8s::nonempty(
                objects[i].uid,
            ) is Some,
        storage::manifest(objects, belongs, kind) matches Ok(references) ==> forall|k: int|
            0 <= k < references.len() ==> refers_to_one_of(
                objects,
                belongs,
                kind,
                #[trigger] references[k],
            ),
    decreases objects.len(),
{
    broadcast use vstd::seq_lib::group_to_multiset_ensures;

    if objects.len() > 0 {
        let less = objects.drop_last();
        let n = objects.len() - 1;
        law_manifest_holds_nothing_else(less, belongs, kind);
        if forall|i: int|
            0 <= i < objects.len() && #[trigger] belongs(i) ==> k8s::nonempty(
                objects[i].uid,
            ) is Some {
            assert forall|i: int| 0 <= i < less.len() && #[trigger] belongs(
                i,
            ) implies k8s::nonempty(less[i].uid) is Some by {
                assert(less[i] == objects[i]);
            }
        }
        if storage::manifest(objects, belongs, kind) is Ok {
            assert forall|i: int| 0 <= i < objects.len() && #[trigger] belongs(
                i,
            ) implies k8s::nonempty(objects[i].uid) is Some by {
                if i < n {
                    assert(less[i] == objects[i]);
                }
            }
            let references = storage::manifest(objects, belongs, kind)->Ok_0;
            let before = storage::manifest(less, belongs, kind)->Ok_0;
            assert forall|k: int| 0 <= k < references.len() implies refers_to_one_of(
                objects,
                belongs,
                kind,
                #[trigger] references[k],
            ) by {
                if belongs(n) {
                    let added = identity::reference_to(objects[n], "v1"@, kind)->Ok_0;
                    lemma_with_reference_holds(before, added, k);
                    if references[k] != added {
                        let m = choose|m: int| 0 <= m < before.len() && before[m] == references[k];
                        assert(refers_to_one_of(less, belongs, kind, before[m]));
                        lemma_refers(less, belongs, kind, before[m], objects);
                    } else {
                        assert(identity::reference_to(objects[n], "v1"@, kind) == Ok::<
                            sandbox::ReferenceView,
                            Seq<char>,
                        >(added));
                        assert(refers_to_one_of(objects, belongs, kind, added));
                    }
                } else {
                    assert(refers_to_one_of(less, belongs, kind, before[k]));
                    lemma_refers(less, belongs, kind, before[k], objects);
                }
            }
        }
    }
}

/// Whether a reference is to one of the objects that belong.
pub open spec fn refers_to_one_of(
    objects: Seq<k8s::MetaView>,
    belongs: spec_fn(int) -> bool,
    kind: Seq<char>,
    reference: sandbox::ReferenceView,
) -> bool {
    exists|i: int|
        0 <= i < objects.len() && belongs(i) && #[trigger] identity::reference_to(
            objects[i],
            "v1"@,
            kind,
        ) == Ok::<sandbox::ReferenceView, Seq<char>>(reference)
}

proof fn lemma_refers(
    less: Seq<k8s::MetaView>,
    belongs: spec_fn(int) -> bool,
    kind: Seq<char>,
    reference: sandbox::ReferenceView,
    objects: Seq<k8s::MetaView>,
)
    requires
        refers_to_one_of(less, belongs, kind, reference),
        objects.len() > 0,
        less == objects.drop_last(),
    ensures
        refers_to_one_of(objects, belongs, kind, reference),
{
    let i = choose|i: int|
        0 <= i < less.len() && belongs(i) && #[trigger] identity::reference_to(
            less[i],
            "v1"@,
            kind,
        ) == Ok::<sandbox::ReferenceView, Seq<char>>(reference);
    assert(less[i] == objects[i]);
    assert(identity::reference_to(objects[i], "v1"@, kind) == Ok::<
        sandbox::ReferenceView,
        Seq<char>,
    >(reference));
}

proof fn lemma_with_reference_holds(
    references: Seq<sandbox::ReferenceView>,
    reference: sandbox::ReferenceView,
    k: int,
)
    requires
        0 <= k < storage::with_reference(references, reference).len(),
    ensures
        storage::with_reference(references, reference)[k] == reference || references.contains(
            storage::with_reference(references, reference)[k],
        ),
    decreases references.len(),
{
    let result = storage::with_reference(references, reference);
    if references.len() == 0 {
    } else if text::text_less(reference.uid, references.last().uid) {
        let less = references.drop_last();
        let head = storage::with_reference(less, reference);
        if k < head.len() {
            lemma_with_reference_holds(less, reference, k);
            if less.contains(head[k]) {
                let m = choose|m: int| 0 <= m < less.len() && less[m] == head[k];
                assert(references[m] == result[k]);
            }
        } else {
            assert(references[references.len() - 1] == result[k]);
        }
    } else {
        if k < references.len() {
            assert(references[k] == result[k]);
        }
    }
}

/// Which volume claims and volumes belong to a workload: the claims that the sandbox
/// controls by its UID, and the volumes that are bound to one of those claims.
pub proof fn law_storage_belongs_to_the_sandbox(
    claims: Vec<ObjectMeta>,
    sandbox_uid: Seq<char>,
    volumes: Vec<k8s::PersistentVolume>,
    recorded: Seq<sandbox::ReferenceView>,
)
    ensures
        storage::claim_manifest(Ok(claims), sandbox_uid) == storage::manifest(
            storage::meta_views(claims@),
            |i: int| claims@[i]@.controlled_by_uid(sandbox_uid),
            "PersistentVolumeClaim"@,
        ),
        storage::volume_manifest(Ok(volumes), recorded) == storage::manifest(
            storage::volume_views(volumes@),
            |i: int| storage::bound_to(volumes@[i], recorded),
            "PersistentVolume"@,
        ),
        forall|i: int|
            0 <= i < volumes@.len() ==> (storage::bound_to(#[trigger] volumes@[i], recorded) <==> (
            volumes@[i].claim_uid matches Some(uid) && exists|k: int|
                0 <= k < recorded.len() && (#[trigger] recorded[k]).uid == uid@)),
        forall|error: ApiError| #[trigger]
            storage::claim_manifest(Err(error), sandbox_uid) is Err,
        forall|error: ApiError| #[trigger] storage::volume_manifest(Err(error), recorded) is Err,
{
}

/// The fence of an attempt fences exactly the recorded claim and sandbox, each UID once;
/// it cannot be changed, has the fence's label and its one finalizer, stands in the
/// namespace and is named after the attempt. Without either there is no fence.
pub proof fn law_fence_blocks_the_recorded_uids(
    namespace: Seq<char>,
    status: SandboxPoolCertificationStatus,
    result: Result<ConfigMap, String>,
)
    requires
        fence::certification_fence_gives(namespace, status, result),
    ensures
        result is Ok <==> status.sandbox_claim is Some || status.sandbox is Some,
        result matches Ok(made) ==> {
            &&& made.immutable == Some(true)
            &&& made.metadata.name matches Some(name) && name@ == names::fence_name_text(
                status.fingerprint@,
            )
            &&& made.metadata.namespace matches Some(place) && place@ == namespace
            &&& made.metadata.deletion_timestamp is None
            &&& made.metadata@.label("kobe.kunobi.ninja/sandbox-teardown-fence"@) == Some("true"@)
            &&& made.metadata.finalizers@.len() == 1
            &&& made.metadata.finalizers@[0]@ == "kobe.kunobi.ninja/sandbox-teardown-fence"@
            &&& made.data matches Some(data)
            &&& forall|i: int| 0 <= i < data@.len() ==> (#[trigger] data@[i]).1@ == "blocked"@
            &&& forall|uid: Seq<char>|
                #[trigger] holds_key(data@, uid) <==> (status.sandbox_claim matches Some(claimed)
                    && claimed.uid@ == uid) || (status.sandbox matches Some(taken) && taken.uid@
                    == uid)
            &&& forall|i: int, j: int|
                0 <= i < j < data@.len() ==> (#[trigger] data@[i]).0@ != (#[trigger] data@[j]).0@
        },
{
    if let Ok(made) = result {
        base_laws::law_metadata_reads_its_fields(made.metadata);
        let data = made.data->0;
        let pairs = text::pair_texts(data@);
        let wanted = fence::fence_data(status);
        let uids = fence::fenced_uids(status);
        assert(pairs == wanted);
        assert(pairs.len() == data@.len());
        assert forall|i: int| 0 <= i < data@.len() implies (#[trigger] data@[i]).0@ == uids[i]
            && data@[i].1@ == "blocked"@ by {
            assert(pairs[i] == wanted[i]);
        }
        reveal_with_fuel(text::pair_value, 2);
        assert forall|uid: Seq<char>|
            (status.sandbox_claim matches Some(claimed) && claimed.uid@ == uid) || (
            status.sandbox matches Some(taken) && taken.uid@ == uid) implies #[trigger] holds_key(
            data@,
            uid,
        ) by {
            if uids[0] == uid {
                assert(data@[0].0@ == uid);
            } else {
                assert(uids[1] == uid);
                assert(data@[1].0@ == uid);
            }
        }
        assert forall|uid: Seq<char>| #[trigger] holds_key(data@, uid) implies (
        status.sandbox_claim matches Some(claimed) && claimed.uid@ == uid) || (
        status.sandbox matches Some(taken) && taken.uid@ == uid) by {
            let i = choose|i: int| 0 <= i < data@.len() && (#[trigger] data@[i]).0@ == uid;
            assert(uids[i] == uid);
            assert(i == 0 || i == 1);
        }
        assert forall|i: int, j: int| 0 <= i < j < data@.len() implies (
        #[trigger] data@[i]).0@ != (#[trigger] data@[j]).0@ by {
            assert(i == 0 && j == 1);
            assert(uids[0] != uids[1]);
        }
        let finalizers = made.metadata@.finalizers;
        assert(finalizers.len() == 1);
        assert(finalizers[0] == made.metadata.finalizers@[0]@);
        let labels = made.metadata@.labels;
        assert(labels.len() == 1 && labels[0].0 == "kobe.kunobi.ninja/sandbox-teardown-fence"@);
        assert(made.metadata@.label("kobe.kunobi.ninja/sandbox-teardown-fence"@) == Some("true"@));
    }
}

/// Whether one of the pairs has this key.
pub open spec fn holds_key(pairs: Seq<(String, String)>, key: Seq<char>) -> bool {
    exists|i: int| 0 <= i < pairs.len() && (#[trigger] pairs[i]).0@ == key
}

/// The probe of a fence is a Pod that the recorded sandbox would own and control, in the
/// namespace, named after the fence, with nothing of the cluster in it. Without a
/// recorded sandbox there is no probe.
pub proof fn law_probe_is_owned_by_the_sandbox(
    namespace: Seq<char>,
    status: SandboxPoolCertificationStatus,
    result: Result<Pod, String>,
)
    requires
        fence::fence_probe_gives(namespace, status, result),
    ensures
        result is Ok <==> status.sandbox is Some,
        result matches Ok(pod) ==> {
            &&& pod.metadata.name matches Some(name) && name@ == names::fence_name_text(
                status.fingerprint@,
            ) + "-probe"@
            &&& pod.metadata.namespace matches Some(place) && place@ == namespace
            &&& pod.metadata.owner_references@.len() == 1
            &&& has_controlling_owner(
                pod.metadata,
                status.sandbox->0.api_version@,
                status.sandbox->0.kind@,
                status.sandbox->0.name@,
                status.sandbox->0.uid@,
            )
            &&& pod.spec matches Some(spec)
            &&& spec.containers@.len() == 1
            &&& spec.containers@[0].image matches Some(image) && image@
                == "registry.k8s.io/pause:3.10"@
            &&& spec.containers@[0].volume_mounts@.len() == 0
            &&& spec.automount_service_account_token == Some(false)
            &&& spec.enable_service_links == Some(false)
            &&& spec.restart_policy matches Some(policy) && policy@ == "Never"@
            &&& spec.volumes@.len() == 0
            &&& spec.init_containers@.len() == 0
            &&& spec.ephemeral_containers@.len() == 0
            &&& spec.host_network is None
            &&& spec.host_pid is None
            &&& spec.host_ipc is None
        },
{
    if let Ok(pod) = result {
        base_laws::law_metadata_reads_its_fields(pod.metadata);
        assert(pod.metadata@.owner_references.len() == 1);
        assert(pod.metadata@.owner_references[0] == pod.metadata.owner_references@[0]@);
    }
}

/// The hash that labels refer to a name by: eight hexadecimal digits of the value that
/// starts at the offset basis and takes in each byte of the name by an exclusive or and
/// a multiplication with the prime, of which the low thirty-two bits are kept.
pub proof fn law_name_hash_takes_in_each_byte(value: Seq<char>, bytes: Seq<u8>, byte: u8)
    ensures
        names::fnv1a(Seq::empty()) == 0x811c_9dc5u32,
        names::fnv1a(bytes.push(byte)) as int == ((names::fnv1a(bytes) ^ (byte as u32)) as int
            * 0x0100_0193) % 0x1_0000_0000,
        names::name_hash(value).len() == 8,
        names::name_hash(value) == number::hex_digits(
            names::fnv1a(vstd::utf8::encode_utf8(value)) as nat,
            8,
        ),
{
    assert(bytes.push(byte).drop_last() =~= bytes);
    number::lemma_hex_digits_len(names::fnv1a(vstd::utf8::encode_utf8(value)) as nat, 8);
}

} // verus!
