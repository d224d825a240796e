//! Proof that the idle population of a pool is what its warm pool reports.

use crate::certification::identity::{self, validate_pool_objects, PoolProjection};
use crate::certification::names::{
    self, upstream_name_hash, SandboxPool, AGENT_SANDBOX_API_VERSION, SANDBOX_API_VERSION,
    SANDBOX_KIND, SANDBOX_TEMPLATE_KIND, SANDBOX_WARM_POOL_KIND, TEMPLATE_REF_HASH_LABEL,
    WARM_POOL_LABEL,
};
use crate::certification::workload::{
    self, dynamic_ready_at_generation, dynamic_status_count, expected_network_policy_spec,
    pod_ready, validate_node, validate_pod_labels, validate_pod_spec, validate_service,
    warm_pool_status_is_current,
};
use crate::crd::sandbox::{self, SandboxObjectReference};
use crate::json::{self, Json};
use crate::k8s::{
    self, ApiError, DynamicObject, NetworkPolicy, Node, Pod, PodSpec, Service,
};
use crate::text::{self, concat, concat3, holds_text, insert_text, same_text};
use vstd::prelude::*;
use vstd::string::*;

verus! {

/// The exact Pod and Service of a sandbox.
#[derive(Debug, Clone, PartialEq, Eq)]
pub struct ResolvedSandboxPod {
    pub sandbox_name: String,
    pub sandbox_uid: String,
    pub pod_name: String,
    pub pod_uid: String,
    pub service_name: Option<String>,
    pub service_uid: Option<String>,
}

/// What a resolved sandbox is made of.
#[verifier::ext_equal]
pub struct ResolvedView {
    pub sandbox_name: Seq<char>,
    pub sandbox_uid: Seq<char>,
    pub pod_name: Seq<char>,
    pub pod_uid: Seq<char>,
    pub service_name: Option<Seq<char>>,
    pub service_uid: Option<Seq<char>>,
}

impl View for ResolvedSandboxPod {
    type V = ResolvedView;

    open spec fn view(&self) -> ResolvedView {
        ResolvedView {
            sandbox_name: self.sandbox_name@,
            sandbox_uid: self.sandbox_uid@,
            pod_name: self.pod_name@,
            pod_uid: self.pod_uid@,
            service_name: text::opt_text(self.service_name),
            service_uid: text::opt_text(self.service_uid),
        }
    }
}

/// What a result that holds a resolved sandbox says.
pub open spec fn resolved_outcome(result: Result<ResolvedSandboxPod, String>) -> Result<
    ResolvedView,
    Seq<char>,
> {
    match result {
        Ok(resolved) => Ok(resolved@),
        Err(error) => Err(error@),
    }
}

/// A text that an object's status reports, unless it is empty.
pub open spec fn status_text(data: json::JsonView, field: Seq<char>) -> Option<Seq<char>> {
    match json::member_at(Some(data), "status"@, field) {
        Some(value) => k8s::nonempty(value.text()),
        None => None,
    }
}

fn dynamic_status_text(object: &DynamicObject, field: &str) -> (value: Option<String>)
    ensures
        text::opt_text(value) == status_text(object.data@, field@),
{
    match object.data.get("status") {
        Some(status) => match status.get(field) {
            Some(value) => match value.as_str() {
                Some(value) => {
                    if value.is_empty() {
                        None
                    } else {
                        Some(value.to_owned())
                    }
                },
                None => None,
            },
            None => None,
        },
        None => None,
    }
}

/// The selector of an idle sandbox's Pod, or why it cannot be resolved.
pub open spec fn idle_selector(sandbox: DynamicObject) -> Result<Seq<char>, Seq<char>> {
    if k8s::nonempty(sandbox.metadata@.uid) is None {
        Err("WarmPool Sandbox UID is missing"@)
    } else {
        match status_text(sandbox.data@, "selector"@) {
            Some(selector) => Ok(selector),
            None => Err("Ready Sandbox has no Pod selector"@),
        }
    }
}

/// The selector by which an idle sandbox's Pod is listed.
pub fn idle_sandbox_selector(sandbox: &DynamicObject) -> (result: Result<String, String>)
    ensures
        text::outcome(result) == idle_selector(*sandbox),
{
    if sandbox.metadata.present_uid().is_none() {
        return Err("WarmPool Sandbox UID is missing".to_owned());
    }
    match dynamic_status_text(sandbox, "selector") {
        Some(selector) => Ok(selector),
        None => Err("Ready Sandbox has no Pod selector".to_owned()),
    }
}

/// An idle sandbox with its one Pod and the name of its Service, or why it does
/// not resolve.
pub open spec fn idle_pod(sandbox: DynamicObject, pods: Result<Vec<Pod>, ApiError>) -> Result<
    ResolvedView,
    Seq<char>,
> {
    match (k8s::nonempty(sandbox.metadata@.uid), pods) {
        (None, _) => Err("WarmPool Sandbox UID is missing"@),
        (_, Err(error)) => Err("Sandbox Pod list failed: "@ + error.error@),
        (Some(sandbox_uid), Ok(pods)) => if pods@.len() != 1 {
            Err("Ready Sandbox does not resolve to exactly one Pod"@)
        } else {
            let pod = pods@[0].metadata@;
            match k8s::nonempty(pod.uid) {
                None => Err("Sandbox Pod UID is missing"@),
                Some(pod_uid) => if !pod.controlled_by(
                    SANDBOX_API_VERSION@,
                    SANDBOX_KIND@,
                    sandbox.metadata@.any_name(),
                    sandbox_uid,
                ) {
                    Err("Sandbox Pod is not controlled by the exact Sandbox"@)
                } else {
                    Ok(
                        ResolvedView {
                            sandbox_name: sandbox.metadata@.any_name(),
                            sandbox_uid,
                            pod_name: pod.any_name(),
                            pod_uid,
                            service_name: status_text(sandbox.data@, "service"@),
                            service_uid: None,
                        },
                    )
                },
            }
        },
    }
}

/// Resolves an idle sandbox to its one Pod and the name of its Service.
pub fn resolve_idle_pod(sandbox: &DynamicObject, pods: Result<Vec<Pod>, ApiError>) -> (result:
    Result<ResolvedSandboxPod, String>)
    ensures
        resolved_outcome(result) == idle_pod(*sandbox, pods),
{
    let sandbox_uid = match sandbox.metadata.present_uid() {
        Some(uid) => uid,
        None => {
            return Err("WarmPool Sandbox UID is missing".to_owned());
        },
    };
    let matching = match pods {
        Ok(pods) => pods,
        Err(error) => {
            return Err(concat("Sandbox Pod list failed: ", error.error.as_str()));
        },
    };
    if matching.len() != 1 {
        return Err("Ready Sandbox does not resolve to exactly one Pod".to_owned());
    }
    let pod = &matching[0];
    let pod_uid = match pod.metadata.present_uid() {
        Some(uid) => uid,
        None => {
            return Err("Sandbox Pod UID is missing".to_owned());
        },
    };
    let sandbox_name = sandbox.metadata.name_any();
    if !pod.metadata.is_controlled_by(
        SANDBOX_API_VERSION,
        SANDBOX_KIND,
        sandbox_name.as_str(),
        sandbox_uid.as_str(),
    ) {
        return Err("Sandbox Pod is not controlled by the exact Sandbox".to_owned());
    }
    Ok(
        ResolvedSandboxPod {
            sandbox_name,
            sandbox_uid,
            pod_name: pod.metadata.name_any(),
            pod_uid,
            service_name: dynamic_status_text(sandbox, "service"),
            service_uid: None,
        },
    )
}

/// A resolved sandbox with its Service's UID, or why there is none.
pub open spec fn idle_service(
    resolved: ResolvedView,
    service: Result<Service, ApiError>,
) -> Result<ResolvedView, Seq<char>> {
    match service {
        Err(error) => Err("Sandbox Service lookup failed: "@ + error.error@),
        Ok(service) => match k8s::nonempty(service.metadata@.uid) {
            Some(uid) => Ok(ResolvedView { service_uid: Some(uid), ..resolved }),
            None => Err("Sandbox Service UID is missing"@),
        },
    }
}

/// Adds the UID of a resolved sandbox's Service.
pub fn resolve_idle_service(
    resolved: ResolvedSandboxPod,
    service: Result<Service, ApiError>,
) -> (result: Result<ResolvedSandboxPod, String>)
    ensures
        resolved_outcome(result) == idle_service(resolved@, service),
{
    match service {
        Err(error) => Err(concat("Sandbox Service lookup failed: ", error.error.as_str())),
        Ok(service) => match service.metadata.present_uid() {
            Some(uid) => {
                let mut resolved = resolved;
                resolved.service_uid = Some(uid);
                Ok(resolved)
            },
            None => Err("Sandbox Service UID is missing".to_owned()),
        },
    }
}

/// The selector of a resolved sandbox's Pod, or why the sandbox is not current.
pub open spec fn workload_pods(
    template_name: Seq<char>,
    sandbox: DynamicObject,
    resolved: ResolvedView,
) -> Result<Seq<char>, Seq<char>> {
    let meta = sandbox.metadata@;
    if meta.any_name() != resolved.sandbox_name || meta.uid != Some(resolved.sandbox_uid)
        || meta.deleting() || !workload::ready_at_generation(sandbox) || meta.label(
        TEMPLATE_REF_HASH_LABEL@,
    ) != Some(names::name_hash(template_name)) {
        Err("Sandbox is deleting, replaced or not Ready for the current generation"@)
    } else {
        match status_text(sandbox.data@, "selector"@) {
            Some(selector) => Ok(selector),
            None => Err("Ready Sandbox has no Pod selector"@),
        }
    }
}

/// The selector by which a resolved sandbox's Pod is listed again.
pub fn workload_selector(
    template_name: &str,
    sandbox: &DynamicObject,
    resolved: &ResolvedSandboxPod,
) -> (result: Result<String, String>)
    ensures
        text::outcome(result) == workload_pods(template_name@, *sandbox, resolved@),
{
    let hash = upstream_name_hash(template_name);
    if !same_text(sandbox.metadata.name_any().as_str(), resolved.sandbox_name.as_str())
        || !holds_text(&sandbox.metadata.uid, resolved.sandbox_uid.as_str())
        || sandbox.metadata.is_deleting() || !dynamic_ready_at_generation(sandbox)
        || !sandbox.metadata.has_label(TEMPLATE_REF_HASH_LABEL, hash.as_str()) {
        return Err(
            "Sandbox is deleting, replaced or not Ready for the current generation".to_owned(),
        );
    }
    match dynamic_status_text(sandbox, "selector") {
        Some(selector) => Ok(selector),
        None => Err("Ready Sandbox has no Pod selector".to_owned()),
    }
}

/// The node of a resolved sandbox's Pod, or what is wrong with the Pod.
pub open spec fn workload_node(
    template_name: Seq<char>,
    policy: NetworkPolicy,
    expected_pod: PodSpec,
    resolved: ResolvedView,
    pods: Result<Vec<Pod>, ApiError>,
) -> Result<Seq<char>, Seq<char>> {
    match pods {
        Err(error) => Err("Sandbox Pod revalidation failed: "@ + error.error@),
        Ok(pods) => if pods@.len() != 1 || pods@[0].metadata@.uid != Some(resolved.pod_uid) {
            Err("Sandbox Pod selector no longer resolves to the exact single Pod"@)
        } else {
            let pod = pods@[0];
            let labels_error = workload::pod_labels_error(
                pod.metadata@,
                resolved.sandbox_name,
                template_name,
                policy,
            );
            if pod.metadata@.any_name() != resolved.pod_name || !pod.metadata@.controlled_by(
                SANDBOX_API_VERSION@,
                SANDBOX_KIND@,
                resolved.sandbox_name,
                resolved.sandbox_uid,
            ) || !workload::pod_is_ready(pod) {
                Err("Sandbox Pod is foreign, deleting or not Ready"@)
            } else {
                match (labels_error, pod.spec) {
                    (Some(error), _) => Err(error),
                    (_, None) => Err("Sandbox Pod spec is missing"@),
                    (None, Some(spec)) => match workload::pod_spec_error(expected_pod, spec) {
                        Some(error) => Err(error),
                        None => Ok(spec.node_name->0@),
                    },
                }
            }
        },
    }
}

/// Proves that a resolved sandbox still has the exact Pod, as projected, and
/// gives the node that the Pod is scheduled to.
pub fn validate_workload_pod(
    template_name: &str,
    policy: &NetworkPolicy,
    expected_pod: &PodSpec,
    resolved: &ResolvedSandboxPod,
    pods: Result<Vec<Pod>, ApiError>,
) -> (result: Result<String, String>)
    ensures
        text::outcome(result) == workload_node(
            template_name@,
            *policy,
            *expected_pod,
            resolved@,
            pods,
        ),
{
    let matching = match pods {
        Ok(pods) => pods,
        Err(error) => {
            return Err(concat("Sandbox Pod revalidation failed: ", error.error.as_str()));
        },
    };
    if matching.len() != 1 || !holds_text(&matching[0].metadata.uid, resolved.pod_uid.as_str()) {
        return Err(
            "Sandbox Pod selector no longer resolves to the exact single Pod".to_owned(),
        );
    }
    let pod = &matching[0];
    if !same_text(pod.metadata.name_any().as_str(), resolved.pod_name.as_str())
        || !pod.metadata.is_controlled_by(
        SANDBOX_API_VERSION,
        SANDBOX_KIND,
        resolved.sandbox_name.as_str(),
        resolved.sandbox_uid.as_str(),
    ) || !pod_ready(pod) {
        return Err("Sandbox Pod is foreign, deleting or not Ready".to_owned());
    }
    match validate_pod_labels(pod, resolved.sandbox_name.as_str(), template_name, policy) {
        Ok(_) => {},
        Err(error) => {
            return Err(error);
        },
    }
    let spec = match &pod.spec {
        Some(spec) => spec,
        None => {
            return Err("Sandbox Pod spec is missing".to_owned());
        },
    };
    match validate_pod_spec(expected_pod, spec) {
        Ok(_) => {},
        Err(error) => {
            return Err(error);
        },
    }
    match &spec.node_name {
        Some(node_name) => Ok(node_name.clone()),
        None => Err("Sandbox Pod is not scheduled to a node".to_owned()),
    }
}

/// The name and UID of the Service that is left to prove, nothing where none is
/// due; or what is wrong with the node or the Service's identity.
pub open spec fn workload_service(
    exposes_ports: bool,
    resolved: ResolvedView,
    node: Result<Node, ApiError>,
) -> Result<Option<(Seq<char>, Seq<char>)>, Seq<char>> {
    match node {
        Err(error) => Err("Sandbox node lookup failed: "@ + error.error@),
        Ok(node) => match workload::node_error(node) {
            Some(error) => Err(error),
            None => if !exposes_ports {
                if resolved.service_name is Some || resolved.service_uid is Some {
                    Err("Sandbox unexpectedly exposes a Service"@)
                } else {
                    Ok(None)
                }
            } else {
                match (resolved.service_name, resolved.service_uid) {
                    (Some(name), Some(uid)) => Ok(Some((name, uid))),
                    _ => Err("Sandbox has no exact required Service identity"@),
                }
            },
        },
    }
}

/// What a result that may hold two texts says.
pub open spec fn opt_pair_outcome(result: Result<Option<(String, String)>, String>) -> Result<
    Option<(Seq<char>, Seq<char>)>,
    Seq<char>,
> {
    match result {
        Ok(Some(pair)) => Ok(Some((pair.0@, pair.1@))),
        Ok(None) => Ok(None),
        Err(error) => Err(error@),
    }
}

/// Proves the node of a workload, and gives the name and UID of the Service
/// that is left to prove.
pub fn validate_workload_node(
    pool: &SandboxPool,
    resolved: &ResolvedSandboxPod,
    node: Result<Node, ApiError>,
) -> (result: Result<Option<(String, String)>, String>)
    ensures
        opt_pair_outcome(result) == workload_service(
            pool.spec.template.exposed_ports@.len() != 0,
            resolved@,
            node,
        ),
{
    let node = match node {
        Ok(node) => node,
        Err(error) => {
            return Err(concat("Sandbox node lookup failed: ", error.error.as_str()));
        },
    };
    match validate_node(&node) {
        Ok(_) => {},
        Err(error) => {
            return Err(error);
        },
    }
    if pool.spec.template.exposed_ports.len() == 0 {
        if resolved.service_name.is_some() || resolved.service_uid.is_some() {
            return Err("Sandbox unexpectedly exposes a Service".to_owned());
        }
        return Ok(None);
    }
    match (&resolved.service_name, &resolved.service_uid) {
        (Some(name), Some(uid)) => Ok(Some((name.clone(), uid.clone()))),
        _ => Err("Sandbox has no exact required Service identity".to_owned()),
    }
}

/// What is wrong with a workload's Service.
pub open spec fn workload_service_error(
    pool: SandboxPool,
    resolved: ResolvedView,
    service_uid: Seq<char>,
    service: Result<Service, ApiError>,
) -> Option<Seq<char>> {
    match service {
        Err(error) => Some("Sandbox Service revalidation failed: "@ + error.error@),
        Ok(service) => if service.metadata@.uid != Some(service_uid) {
            Some("Sandbox Service was replaced before certification"@)
        } else {
            workload::service_error(
                pool.spec.template,
                service,
                resolved.sandbox_name,
                resolved.sandbox_uid,
            )
        },
    }
}

/// Proves that a workload's Service is the exact one, as projected.
pub fn validate_workload_service(
    pool: &SandboxPool,
    resolved: &ResolvedSandboxPod,
    service_uid: &str,
    service: Result<Service, ApiError>,
) -> (result: Result<(), String>)
    ensures
        text::reported(result) == workload_service_error(*pool, resolved@, service_uid@, service),
{
    let service = match service {
        Ok(service) => service,
        Err(error) => {
            return Err(concat("Sandbox Service revalidation failed: ", error.error.as_str()));
        },
    };
    if !holds_text(&service.metadata.uid, service_uid) {
        return Err("Sandbox Service was replaced before certification".to_owned());
    }
    validate_service(
        pool,
        &service,
        resolved.sandbox_name.as_str(),
        resolved.sandbox_uid.as_str(),
    )
}

/// What is wrong with a pool's isolation tier: only the trusted one is
/// qualified.
pub open spec fn isolation_error(pool: SandboxPool) -> Option<Seq<char>> {
    if pool.spec.isolation is TrustedRunc {
        None
    } else {
        Some("gVisor and Kata remain unqualified until isolation issue #14 is closed"@)
    }
}

/// Refuses a pool whose isolation tier is not qualified.
pub fn check_isolation(pool: &SandboxPool) -> (result: Result<(), String>)
    ensures
        text::reported(result) == isolation_error(*pool),
{
    if pool.spec.isolation.is_trusted_runc() {
        Ok(())
    } else {
        Err("gVisor and Kata remain unqualified until isolation issue #14 is closed".to_owned())
    }
}

/// What is wrong with the runtime, from what its validation said.
pub open spec fn runtime_error(runtime: Result<(), String>) -> Option<Seq<char>> {
    match runtime {
        Ok(_) => None,
        Err(error) => Some("runtime APIs are not compatible: "@ + error@),
    }
}

/// Refuses a runtime whose APIs do not fit.
pub fn check_runtime(runtime: Result<(), String>) -> (result: Result<(), String>)
    ensures
        text::reported(result) == runtime_error(runtime),
{
    match runtime {
        Ok(_) => Ok(()),
        Err(error) => Err(concat("runtime APIs are not compatible: ", error.as_str())),
    }
}

/// The label selector of a warm pool's sandboxes.
pub open spec fn selector_text(warm_pool_name: Seq<char>) -> Seq<char> {
    WARM_POOL_LABEL@ + "="@ + names::name_hash(warm_pool_name)
}

/// The label selector of a warm pool's sandboxes.
pub fn warm_pool_selector(warm_pool_name: &str) -> (selector: String)
    ensures
        selector@ == selector_text(warm_pool_name@),
{
    concat3(WARM_POOL_LABEL, "=", upstream_name_hash(warm_pool_name).as_str())
}

/// Whether a warm pool reports, for its current generation, exactly the desired
/// population under its own selector.
pub open spec fn converged(warm_pool: DynamicObject, desired: u32) -> bool {
    &&& workload::status_is_current(warm_pool)
    &&& workload::status_integer(warm_pool.data@, "replicas"@, 0, u32::MAX as int) == Some(
        desired as int,
    )
    &&& workload::status_integer(warm_pool.data@, "readyReplicas"@, 0, u32::MAX as int) == Some(
        desired as int,
    )
    &&& json::member_at(Some(warm_pool.data@), "status"@, "selector"@) matches Some(selector)
        && selector.text() == Some(selector_text(warm_pool.metadata@.any_name()))
}

/// The UIDs of the pool's template and converged warm pool, or what is wrong
/// with them.
pub open spec fn pool_converged(
    pool: SandboxPool,
    namespace: Seq<char>,
    template: DynamicObject,
    warm_pool: DynamicObject,
    expected_template: Option<sandbox::ReferenceView>,
    expected_warm_pool: Option<sandbox::ReferenceView>,
    projection: PoolProjection,
) -> Result<(Seq<char>, Seq<char>), Seq<char>> {
    match identity::pool_objects(
        pool.metadata@,
        namespace,
        template,
        warm_pool,
        expected_template,
        expected_warm_pool,
        projection,
    ) {
        Err(error) => Err(error),
        Ok(uids) => if warm_pool.data@.get("status"@) is None {
            Err("SandboxWarmPool status is missing"@)
        } else if !converged(warm_pool, pool.spec.warm_capacity) {
            Err(
                "SandboxWarmPool has not observed its current generation and converged to its exact desired Ready population"@,
            )
        } else {
            Ok(uids)
        },
    }
}

fn counts(warm_pool: &DynamicObject, field: &str, desired: u32) -> (result: bool)
    ensures
        result == (workload::status_integer(warm_pool.data@, field@, 0, u32::MAX as int) == Some(
            desired as int,
        )),
{
    match dynamic_status_count(warm_pool, field) {
        Some(count) => count == desired,
        None => false,
    }
}

/// Proves the pool's template and warm pool, and that the warm pool has
/// converged to the desired population; gives their UIDs.
pub fn validate_pool_convergence(
    pool: &SandboxPool,
    namespace: &str,
    template: &DynamicObject,
    warm_pool: &DynamicObject,
    expected_template: Option<&SandboxObjectReference>,
    expected_warm_pool: Option<&SandboxObjectReference>,
    projection: &PoolProjection,
) -> (result: Result<(String, String), String>)
    ensures
        identity::pair_outcome(result) == pool_converged(
            *pool,
            namespace@,
            *template,
            *warm_pool,
            identity::opt_reference_view(expected_template),
            identity::opt_reference_view(expected_warm_pool),
            *projection,
        ),
{
    let uids = match validate_pool_objects(
        pool,
        namespace,
        template,
        warm_pool,
        expected_template,
        expected_warm_pool,
        projection,
    ) {
        Ok(uids) => uids,
        Err(error) => {
            return Err(error);
        },
    };
    let status = match warm_pool.data.get("status") {
        Some(status) => status,
        None => {
            return Err("SandboxWarmPool status is missing".to_owned());
        },
    };
    let expected_selector = warm_pool_selector(warm_pool.metadata.name_any().as_str());
    let selects = match status.get("selector") {
        Some(selector) => match selector.as_str() {
            Some(selector) => same_text(selector, expected_selector.as_str()),
            None => false,
        },
        None => false,
    };
    let desired: u32 = pool.spec.warm_capacity;
    if !warm_pool_status_is_current(warm_pool) || !counts(warm_pool, "replicas", desired)
        || !counts(warm_pool, "readyReplicas", desired) || !selects {
        return Err(
            "SandboxWarmPool has not observed its current generation and converged to its exact desired Ready population".to_owned(),
        );
    }
    Ok(uids)
}

/// The name of a template's strict network policy.
pub open spec fn policy_name(template: k8s::MetaView) -> Seq<char> {
    template.any_name() + "-network-policy"@
}

/// The name of a template's strict network policy.
pub fn network_policy_name(template: &DynamicObject) -> (name: String)
    ensures
        name@ == policy_name(template.metadata@),
{
    concat(template.metadata.name_any().as_str(), "-network-policy")
}

/// Whether a policy is the template's own strict one, and stays.
pub open spec fn policy_is_exact(
    policy: NetworkPolicy,
    template_name: Seq<char>,
    template_uid: Seq<char>,
) -> bool {
    &&& !policy.metadata@.deleting()
    &&& k8s::nonempty(policy.metadata@.uid) is Some
    &&& policy.metadata@.controlled_by(
        AGENT_SANDBOX_API_VERSION@,
        SANDBOX_TEMPLATE_KIND@,
        template_name,
        template_uid,
    )
    &&& policy.spec matches Some(spec) && spec@ == workload::strict_policy(template_name)
}

/// Proves that a template's strict network policy is in place.
pub fn validate_network_policy(
    template: &DynamicObject,
    template_uid: &str,
    lookup: Result<NetworkPolicy, ApiError>,
) -> (result: Result<NetworkPolicy, String>)
    ensures
        match lookup {
            Err(error) => result matches Err(message) && message@
                == "strict NetworkPolicy lookup failed: "@ + error.error@,
            Ok(policy) => if policy_is_exact(policy, template.metadata@.any_name(), template_uid@) {
                result == Ok::<NetworkPolicy, String>(policy)
            } else {
                result matches Err(message) && message@
                    == "the exact Template-owned strict NetworkPolicy is absent or drifted"@
            },
        },
{
    let policy = match lookup {
        Ok(policy) => policy,
        Err(error) => {
            return Err(concat("strict NetworkPolicy lookup failed: ", error.error.as_str()));
        },
    };
    let name = template.metadata.name_any();
    let expected = expected_network_policy_spec(name.as_str());
    let strict = match &policy.spec {
        Some(spec) => spec.same(&expected),
        None => false,
    };
    if policy.metadata.is_deleting() || policy.metadata.present_uid().is_none()
        || !policy.metadata.is_controlled_by(
        AGENT_SANDBOX_API_VERSION,
        SANDBOX_TEMPLATE_KIND,
        name.as_str(),
        template_uid,
    ) || !strict {
        return Err(
            "the exact Template-owned strict NetworkPolicy is absent or drifted".to_owned(),
        );
    }
    Ok(policy)
}

/// Proves that the warm pool's list of sandboxes is as long as its count.
pub fn validate_population_count(
    desired: u32,
    list: Result<Vec<DynamicObject>, ApiError>,
) -> (result: Result<Vec<DynamicObject>, String>)
    ensures
        match list {
            Err(error) => result matches Err(message) && message@
                == "WarmPool Sandbox list failed: "@ + error.error@,
            Ok(sandboxes) => if sandboxes@.len() == desired {
                result == Ok::<Vec<DynamicObject>, String>(sandboxes)
            } else {
                result matches Err(message) && message@
                    == "WarmPool status count does not match its exact live Sandbox list"@
            },
        },
{
    let sandboxes = match list {
        Ok(sandboxes) => sandboxes,
        Err(error) => {
            return Err(concat("WarmPool Sandbox list failed: ", error.error.as_str()));
        },
    };
    if sandboxes.len() as u64 != desired as u64 {
        return Err(
            "WarmPool status count does not match its exact live Sandbox list".to_owned(),
        );
    }
    Ok(sandboxes)
}

/// What is wrong with one member of the idle population.
pub open spec fn member_error(
    sandbox: DynamicObject,
    warm_pool_name: Seq<char>,
    warm_pool_uid: Seq<char>,
    template_name: Seq<char>,
) -> Option<Seq<char>> {
    if sandbox.metadata@.deleting() || !sandbox.metadata@.controlled_by(
        AGENT_SANDBOX_API_VERSION@,
        SANDBOX_WARM_POOL_KIND@,
        warm_pool_name,
        warm_pool_uid,
    ) || !workload::ready_at_generation(sandbox) {
        Some("WarmPool contains a deleting, foreign or stale-ready Sandbox"@)
    } else if sandbox.metadata@.label(TEMPLATE_REF_HASH_LABEL@) != Some(
        names::name_hash(template_name),
    ) {
        Some("WarmPool Sandbox does not identify the current Template"@)
    } else {
        None
    }
}

/// Proves that a sandbox is a current member of the warm pool's idle
/// population.
pub fn validate_member(
    sandbox: &DynamicObject,
    warm_pool_name: &str,
    warm_pool_uid: &str,
    template_name: &str,
) -> (result: Result<(), String>)
    ensures
        text::reported(result) == member_error(
            *sandbox,
            warm_pool_name@,
            warm_pool_uid@,
            template_name@,
        ),
{
    if sandbox.metadata.is_deleting() || !sandbox.metadata.is_controlled_by(
        AGENT_SANDBOX_API_VERSION,
        SANDBOX_WARM_POOL_KIND,
        warm_pool_name,
        warm_pool_uid,
    ) || !dynamic_ready_at_generation(sandbox) {
        return Err("WarmPool contains a deleting, foreign or stale-ready Sandbox".to_owned());
    }
    let hash = upstream_name_hash(template_name);
    if !sandbox.metadata.has_label(TEMPLATE_REF_HASH_LABEL, hash.as_str()) {
        return Err("WarmPool Sandbox does not identify the current Template".to_owned());
    }
    Ok(())
}

/// The UIDs of a list of sandboxes.
pub open spec fn sandbox_uids(sandboxes: Seq<DynamicObject>) -> Seq<Seq<char>> {
    sandboxes.map_values(|sandbox: DynamicObject| sandbox.metadata@.uid->0)
}

/// Whether every sandbox has a UID.
pub open spec fn all_identified(sandboxes: Seq<DynamicObject>) -> bool {
    forall|i: int|
        0 <= i < sandboxes.len() ==> k8s::nonempty((#[trigger] sandboxes[i]).metadata@.uid) is Some
}

/// The UIDs of the idle population, in order.
pub fn baseline_uids(sandboxes: &Vec<DynamicObject>) -> (result: Result<Vec<String>, String>)
    ensures
        match result {
            Ok(uids) => all_identified(sandboxes@) && text::texts(uids@) == text::sorted(
                sandbox_uids(sandboxes@),
            ),
            Err(error) => !all_identified(sandboxes@) && error@
                == "WarmPool Sandbox UID is missing"@,
        },
{
    let ghost model = sandbox_uids(sandboxes@);
    let mut uids: Vec<String> = Vec::new();
    assert(text::texts(uids@) =~= Seq::empty());
    assert(model.take(0) =~= Seq::empty());
    let mut i: usize = 0;
    while i < sandboxes.len()
        invariant
            model == sandbox_uids(sandboxes@),
            i <= sandboxes@.len(),
            forall|k: int|
                0 <= k < i ==> k8s::nonempty((#[trigger] sandboxes@[k]).metadata@.uid) is Some,
            text::texts(uids@) == text::sorted(model.take(i as int)),
        decreases sandboxes@.len() - i,
    {
        match sandboxes[i].metadata.present_uid() {
            Some(uid) => {
                assert(model.take(i + 1).drop_last() =~= model.take(i as int));
                assert(model.take(i + 1).last() == uid@);
                insert_text(&mut uids, uid);
            },
            None => {
                assert(!(k8s::nonempty(sandboxes@[i as int].metadata@.uid) is Some));
                return Err("WarmPool Sandbox UID is missing".to_owned());
            },
        }
        i = i + 1;
    }
    assert(model.take(sandboxes@.len() as int) =~= model);
    Ok(uids)
}

/// The Pod specification inside a projected template.
pub open spec fn projected_pod(template: json::JsonView) -> Option<json::JsonView> {
    match json::member_at(Some(template), "spec"@, "podTemplate"@) {
        Some(pod_template) => pod_template.get("spec"@),
        None => None,
    }
}

/// The Pod specification inside the restricted template's projection, or why there is
/// none.
pub open spec fn projection(template: Result<Json, String>) -> Result<json::JsonView, Seq<char>> {
    match template {
        Err(error) => Err("could not project the restricted template: "@ + error@),
        Ok(template) => match projected_pod(template@) {
            Some(spec) => Ok(spec),
            None => Err("restricted template has no Pod spec"@),
        },
    }
}

/// The Pod specification inside the restricted template's projection.
pub fn projected_pod_spec(template: Result<Json, String>) -> (result: Result<Json, String>)
    ensures
        match result {
            Ok(value) => projection(template) == Ok::<json::JsonView, Seq<char>>(value@),
            Err(message) => projection(template) == Err::<json::JsonView, Seq<char>>(message@),
        },
        match template {
            Err(error) => result matches Err(message) && message@
                == "could not project the restricted template: "@ + error@,
            Ok(template) => match projected_pod(template@) {
                Some(spec) => result matches Ok(value) && value@ == spec,
                None => result matches Err(message) && message@
                    == "restricted template has no Pod spec"@,
            },
        },
{
    let template = match template {
        Ok(template) => template,
        Err(error) => {
            return Err(concat("could not project the restricted template: ", error.as_str()));
        },
    };
    let pod_template = match template.get("spec") {
        Some(spec) => spec.get("podTemplate"),
        None => None,
    };
    match pod_template {
        Some(pod_template) => match pod_template.get("spec") {
            Some(spec) => Ok(spec.duplicate()),
            None => Err("restricted template has no Pod spec".to_owned()),
        },
        None => Err("restricted template has no Pod spec".to_owned()),
    }
}

/// The Pod specification that every scheduled Pod is held to, or why there is none.
pub open spec fn expected_pod(parsed: Result<PodSpec, String>) -> Result<PodSpec, Seq<char>> {
    match parsed {
        Ok(spec) => Ok(spec),
        Err(error) => Err("invalid projected Pod spec: "@ + error@),
    }
}

/// The Pod specification that every scheduled Pod is held to, from what parsing
/// the projection gave.
pub fn expected_pod_spec(parsed: Result<PodSpec, String>) -> (result: Result<PodSpec, String>)
    ensures
        match result {
            Ok(spec) => expected_pod(parsed) == Ok::<PodSpec, Seq<char>>(spec),
            Err(message) => expected_pod(parsed) == Err::<PodSpec, Seq<char>>(message@),
        },
        match parsed {
            Ok(spec) => result == Ok::<PodSpec, String>(spec),
            Err(error) => result matches Err(message) && message@ == "invalid projected Pod spec: "@
                + error@,
        },
{
    match parsed {
        Ok(spec) => Ok(spec),
        Err(error) => Err(concat("invalid projected Pod spec: ", error.as_str())),
    }
}

/// The baseline is in order, and it holds each idle sandbox's UID as often as
/// the population does.
pub proof fn law_baseline_is_the_whole_population(sandboxes: Seq<DynamicObject>)
    ensures
        text::in_order(text::sorted(sandbox_uids(sandboxes))),
        text::sorted(sandbox_uids(sandboxes)).to_multiset() == sandbox_uids(
            sandboxes,
        ).to_multiset(),
{
    text::lemma_sorted(sandbox_uids(sandboxes));
}

} // verus!
