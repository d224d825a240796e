//! What the objects of one sandbox workload must look like.

use crate::certification::names::{
    self, upstream_name_hash, SandboxPool, SANDBOX_API_VERSION, SANDBOX_HASH_LABEL, SANDBOX_KIND,
    TEMPLATE_REF_HASH_LABEL,
};
use crate::crd::sandbox::{SandboxContainerSpec, SandboxPortSpec, SandboxTemplateSpec};
use crate::json::{self, same_opt, same_opt_list, Json};
use crate::k8s::{
    self, has_condition, Container, DynamicObject, IntOrString, IpBlock, LabelSelector,
    NetworkPolicy, NetworkPolicyPeer, NetworkPolicyRule, NetworkPolicySpec, Node, Pod, PodSpec,
    Service, ServicePort,
};
use crate::text::{
    self, holds_text, same_opt_text, same_opt_texts, same_text,
};
use vstd::prelude::*;
use vstd::string::*;

verus! {

/// A number that an object's status reports.
pub open spec fn status_integer(data: json::JsonView, field: Seq<char>, low: int, high: int) -> Option<
    int,
> {
    match json::member_at(Some(data), "status"@, field) {
        Some(value) => value.integer_within(low, high),
        None => None,
    }
}

/// A count that a warm pool's status reports.
pub fn dynamic_status_count(warm_pool: &DynamicObject, field: &str) -> (count: Option<u32>)
    ensures
        match count {
            Some(count) => status_integer(warm_pool.data@, field@, 0, u32::MAX as int) == Some(
                count as int,
            ),
            None => status_integer(warm_pool.data@, field@, 0, u32::MAX as int) is None,
        },
{
    match warm_pool.data.get("status") {
        Some(status) => match status.get(field) {
            Some(value) => match value.as_u64() {
                Some(value) => {
                    if value <= 0xffff_ffff {
                        Some(value as u32)
                    } else {
                        None
                    }
                },
                None => None,
            },
            None => None,
        },
        None => None,
    }
}

/// The generation that an object's status reports as observed.
pub open spec fn observed_generation(data: json::JsonView) -> Option<int> {
    status_integer(data, "observedGeneration"@, i64::MIN as int, i64::MAX as int)
}

/// The generation that a warm pool's status reports as observed.
pub fn dynamic_observed_generation(object: &DynamicObject) -> (generation: Option<i64>)
    ensures
        match generation {
            Some(generation) => observed_generation(object.data@) == Some(generation as int),
            None => observed_generation(object.data@) is None,
        },
{
    match object.data.get("status") {
        Some(status) => match status.get("observedGeneration") {
            Some(value) => value.as_i64(),
            None => None,
        },
        None => None,
    }
}

/// Whether a status was written for the object's current generation.
pub open spec fn status_is_current(object: DynamicObject) -> bool {
    match object.metadata.generation {
        Some(generation) => observed_generation(object.data@) == Some(generation as int),
        None => false,
    }
}

/// Whether a warm pool's status was written for its current generation. Its
/// counts mean nothing before that.
pub fn warm_pool_status_is_current(warm_pool: &DynamicObject) -> (current: bool)
    ensures
        current == status_is_current(*warm_pool),
{
    match (warm_pool.metadata.generation, dynamic_observed_generation(warm_pool)) {
        (Some(generation), Some(observed)) => generation == observed,
        _ => false,
    }
}

/// Whether a condition says that the object is ready at this generation.
pub open spec fn ready_condition(condition: json::JsonView, generation: i64) -> bool {
    &&& condition.get("type"@) matches Some(kind) && kind.text() == Some("Ready"@)
    &&& condition.get("status"@) matches Some(status) && status.text() == Some("True"@)
    &&& condition.get("observedGeneration"@) matches Some(observed) && observed.integer_within(
        i64::MIN as int,
        i64::MAX as int,
    ) == Some(generation as int)
}

/// Whether one of the conditions says that the object is ready at this
/// generation.
pub open spec fn ready_conditions(conditions: Seq<json::JsonView>, generation: i64) -> bool {
    exists|i: int| 0 <= i < conditions.len() && ready_condition(#[trigger] conditions[i], generation)
}

/// Whether an object reports itself ready at its current generation.
pub open spec fn ready_at_generation(object: DynamicObject) -> bool {
    match (
        object.metadata.generation,
        json::member_at(Some(object.data@), "status"@, "conditions"@),
    ) {
        (Some(generation), Some(json::JsonView::Array(conditions))) => ready_conditions(
            conditions,
            generation,
        ),
        _ => false,
    }
}

fn has_text(value: Option<&Json>, expected: &str) -> (result: bool)
    ensures
        result == (json::opt_model(value) matches Some(value) && value.text() == Some(expected@)),
{
    match value {
        Some(value) => match value.as_str() {
            Some(text) => same_text(text, expected),
            None => false,
        },
        None => false,
    }
}

fn is_ready_condition(condition: &Json, generation: i64) -> (result: bool)
    ensures
        result == ready_condition(condition@, generation),
{
    let observed = match condition.get("observedGeneration") {
        Some(observed) => match observed.as_i64() {
            Some(observed) => observed == generation,
            None => false,
        },
        None => false,
    };
    has_text(condition.get("type"), "Ready") && has_text(condition.get("status"), "True")
        && observed
}

/// Whether an object reports itself ready at its current generation.
pub fn dynamic_ready_at_generation(object: &DynamicObject) -> (ready: bool)
    ensures
        ready == ready_at_generation(*object),
{
    let generation: i64 = match object.metadata.generation {
        Some(generation) => generation,
        None => {
            return false;
        },
    };
    let conditions = match object.data.get("status") {
        Some(status) => status.get("conditions"),
        None => None,
    };
    match conditions {
        Some(Json::Array(conditions)) => {
            let ghost model = json::opt_model(
                Some(&Json::Array(*conditions)),
            )->0->Array_0;
            assert(json::member_at(Some(object.data@), "status"@, "conditions"@) == Some(
                json::JsonView::Array(model),
            ));
            let mut i: usize = 0;
            while i < conditions.len()
                invariant
                    model.len() == conditions@.len(),
                    forall|k: int| 0 <= k < conditions@.len() ==> #[trigger] model[k] == conditions@[k]@,
                    json::member_at(Some(object.data@), "status"@, "conditions"@) == Some(
                        json::JsonView::Array(model),
                    ),
                    object.metadata.generation == Some(generation),
                    i <= conditions@.len(),
                    forall|k: int| 0 <= k < i ==> !ready_condition(#[trigger] model[k], generation),
                decreases conditions@.len() - i,
            {
                if is_ready_condition(&conditions[i], generation) {
                    assert(ready_condition(model[i as int], generation));
                    return true;
                }
                i = i + 1;
            }
            false
        },
        _ => false,
    }
}

/// Whether a Pod is ready and stays.
pub open spec fn pod_is_ready(pod: Pod) -> bool {
    !pod.metadata@.deleting() && k8s::condition_holds(pod.conditions@, "Ready"@, "True"@)
}

/// Whether a Pod is ready and stays.
pub fn pod_ready(pod: &Pod) -> (ready: bool)
    ensures
        ready == pod_is_ready(*pod),
{
    !pod.metadata.is_deleting() && has_condition(&pod.conditions, "Ready", "True")
}

/// Whether a running container is the projected one and nothing was added to
/// it.
pub open spec fn containers_agree(expected: Container, actual: Container) -> bool {
    &&& expected.name@ == actual.name@
    &&& text::opt_text(expected.image) == text::opt_text(actual.image)
    &&& text::opt_texts(expected.command) == text::opt_texts(actual.command)
    &&& text::opt_texts(expected.args) == text::opt_texts(actual.args)
    &&& json::opt_compared(expected.ports) == json::opt_compared(actual.ports)
    &&& json::opt_alike(json::opt_owned(expected.resources), json::opt_owned(actual.resources))
    &&& json::opt_alike(
        json::opt_owned(expected.security_context),
        json::opt_owned(actual.security_context),
    )
    &&& actual.env@.len() == 0
    &&& actual.env_from@.len() == 0
    &&& actual.volume_mounts@.len() == 0
    &&& actual.volume_devices@.len() == 0
}

/// Whether a running container is the projected one and nothing was added to
/// it.
pub fn container_matches(expected: &Container, actual: &Container) -> (matches: bool)
    ensures
        matches == containers_agree(*expected, *actual),
{
    same_text(expected.name.as_str(), actual.name.as_str()) && same_opt_text(
        &expected.image,
        &actual.image,
    ) && same_opt_texts(&expected.command, &actual.command) && same_opt_texts(
        &expected.args,
        &actual.args,
    ) && same_opt_list(&expected.ports, &actual.ports) && same_opt(
        &expected.resources,
        &actual.resources,
    ) && same_opt(&expected.security_context, &actual.security_context) && actual.env.len() == 0
        && actual.env_from.len() == 0 && actual.volume_mounts.len() == 0
        && actual.volume_devices.len() == 0
}

/// Whether two optional flags agree.
fn same_flag(a: Option<bool>, b: Option<bool>) -> (same: bool)
    ensures
        same == (a == b),
{
    match (a, b) {
        (Some(left), Some(right)) => left == right,
        (None, None) => true,
        _ => false,
    }
}

/// Whether a flag is set.
fn flag_set(flag: Option<bool>) -> (set: bool)
    ensures
        set == (flag == Some(true)),
{
    match flag {
        Some(value) => value,
        None => false,
    }
}

/// Whether every container agrees with the projected one at its place.
pub open spec fn container_lists_agree(expected: Seq<Container>, actual: Seq<Container>) -> bool {
    expected.len() == actual.len() && forall|i: int|
        0 <= i < expected.len() ==> containers_agree(#[trigger] expected[i], actual[i])
}

/// What is wrong with a scheduled Pod's specification.
pub open spec fn pod_spec_error(expected: PodSpec, actual: PodSpec) -> Option<Seq<char>> {
    if text::opt_text(expected.runtime_class_name) != text::opt_text(actual.runtime_class_name) {
        Some("scheduled Pod does not use the exact pool RuntimeClass"@)
    } else if k8s::nonempty(text::opt_text(actual.node_name)) is None {
        Some("Sandbox Pod is not scheduled to a node"@)
    } else if expected.automount_service_account_token != actual.automount_service_account_token
        || expected.enable_service_links != actual.enable_service_links || !json::opt_alike(
        json::opt_owned(expected.security_context),
        json::opt_owned(actual.security_context),
    ) || expected.host_users != actual.host_users
        || text::opt_text(actual.restart_policy) != Some("Never"@) {
        Some("Sandbox Pod security context drifted from the restricted projection"@)
    } else if actual.host_network == Some(true) || actual.host_pid == Some(true) || actual.host_ipc
        == Some(true) || actual.share_process_namespace == Some(true) || actual.volumes@.len() != 0
        || actual.init_containers@.len() != 0 || actual.ephemeral_containers@.len() != 0 {
        Some("Sandbox Pod contains a prohibited host, volume, init or ephemeral surface"@)
    } else if !container_lists_agree(expected.containers@, actual.containers@) {
        Some("Sandbox Pod containers drifted from the closed pool template"@)
    } else {
        None
    }
}

fn container_lists_match(expected: &Vec<Container>, actual: &Vec<Container>) -> (matches: bool)
    ensures
        matches == container_lists_agree(expected@, actual@),
{
    if expected.len() != actual.len() {
        return false;
    }
    let mut i: usize = 0;
    while i < expected.len()
        invariant
            expected@.len() == actual@.len(),
            i <= expected@.len(),
            forall|k: int| 0 <= k < i ==> containers_agree(#[trigger] expected@[k], actual@[k]),
        decreases expected@.len() - i,
    {
        if !container_matches(&expected[i], &actual[i]) {
            assert(!containers_agree(expected@[i as int], actual@[i as int]));
            return false;
        }
        i = i + 1;
    }
    true
}

/// Proves that a scheduled Pod has the restricted projection's specification
/// and nothing beyond it.
pub fn validate_pod_spec(expected: &PodSpec, actual: &PodSpec) -> (result: Result<(), String>)
    ensures
        text::reported(result) == pod_spec_error(*expected, *actual),
{
    if !same_opt_text(&expected.runtime_class_name, &actual.runtime_class_name) {
        return Err("scheduled Pod does not use the exact pool RuntimeClass".to_owned());
    }
    if k8s::nonempty_text(&actual.node_name).is_none() {
        return Err("Sandbox Pod is not scheduled to a node".to_owned());
    }
    if !same_flag(
        expected.automount_service_account_token,
        actual.automount_service_account_token,
    ) || !same_flag(expected.enable_service_links, actual.enable_service_links) || !same_opt(
        &expected.security_context,
        &actual.security_context,
    ) || !same_flag(expected.host_users, actual.host_users) || !holds_text(
        &actual.restart_policy,
        "Never",
    ) {
        return Err(
            "Sandbox Pod security context drifted from the restricted projection".to_owned(),
        );
    }
    if flag_set(actual.host_network) || flag_set(actual.host_pid) || flag_set(actual.host_ipc)
        || flag_set(actual.share_process_namespace) || actual.volumes.len() != 0
        || actual.init_containers.len() != 0 || actual.ephemeral_containers.len() != 0 {
        return Err(
            "Sandbox Pod contains a prohibited host, volume, init or ephemeral surface".to_owned(),
        );
    }
    if !container_lists_match(&expected.containers, &actual.containers) {
        return Err("Sandbox Pod containers drifted from the closed pool template".to_owned());
    }
    Ok(())
}

/// A selector of one label.
pub open spec fn one_label(key: Seq<char>, value: Seq<char>) -> k8s::SelectorView {
    k8s::SelectorView { match_labels: Some(seq![(key, value)]), match_expressions: None }
}

fn label_selector(key: &str, value: &str) -> (selector: LabelSelector)
    ensures
        selector@ == one_label(key@, value@),
{
    let pairs = vec![(key.to_owned(), value.to_owned())];
    assert(text::pair_texts(pairs@) =~= seq![(key@, value@)]);
    LabelSelector { match_labels: Some(pairs), match_expressions: None }
}

/// A range of addresses without some others, as a peer.
pub open spec fn address_peer(cidr: Seq<char>, except: Seq<Seq<char>>) -> k8s::PeerView {
    k8s::PeerView {
        ip_block: Some(k8s::BlockView { cidr, except: Some(except) }),
        namespace_selector: None,
        pod_selector: None,
    }
}

fn public_peer(cidr: &str, except: Vec<String>) -> (peer: NetworkPolicyPeer)
    ensures
        peer@ == address_peer(cidr@, text::texts(except@)),
{
    NetworkPolicyPeer {
        ip_block: Some(IpBlock { cidr: cidr.to_owned(), except: Some(except) }),
        namespace_selector: None,
        pod_selector: None,
    }
}

/// A rule for these peers on every port.
pub open spec fn rule_for(peers: Seq<k8s::PeerView>) -> k8s::RuleView {
    k8s::RuleView { peers: Some(peers), ports: None }
}

/// The strict policy of a template: from the router only, and to public
/// addresses only.
pub open spec fn strict_policy(template_name: Seq<char>) -> k8s::PolicyView {
    k8s::PolicyView {
        pod_selector: Some(one_label(TEMPLATE_REF_HASH_LABEL@, names::name_hash(template_name))),
        policy_types: Some(seq!["Ingress"@, "Egress"@]),
        ingress: Some(
            seq![
                rule_for(
                    seq![
                        k8s::PeerView {
                            ip_block: None,
                            namespace_selector: Some(
                                one_label("kubernetes.io/metadata.name"@, "agent-sandbox-system"@),
                            ),
                            pod_selector: Some(one_label("app"@, "sandbox-router"@)),
                        },
                    ],
                ),
            ],
        ),
        egress: Some(
            seq![
                rule_for(
                    seq![
                        address_peer(
                            "0.0.0.0/0"@,
                            seq![
                                "10.0.0.0/8"@,
                                "172.16.0.0/12"@,
                                "192.168.0.0/16"@,
                                "169.254.0.0/16"@,
                            ],
                        ),
                        address_peer("::/0"@, seq!["fc00::/7"@, "fe80::/10"@]),
                    ],
                ),
            ],
        ),
    }
}

/// The strict policy of a template: from the router only, and to public
/// addresses only.
pub fn expected_network_policy_spec(template_name: &str) -> (spec: NetworkPolicySpec)
    ensures
        spec@ == strict_policy(template_name@),
        spec@.is_keyed(),
{
    let hash = upstream_name_hash(template_name);
    let selector = label_selector(TEMPLATE_REF_HASH_LABEL, hash.as_str());
    let router = NetworkPolicyPeer {
        ip_block: None,
        namespace_selector: Some(
            label_selector("kubernetes.io/metadata.name", "agent-sandbox-system"),
        ),
        pod_selector: Some(label_selector("app", "sandbox-router")),
    };
    let private4 = vec![
        "10.0.0.0/8".to_owned(),
        "172.16.0.0/12".to_owned(),
        "192.168.0.0/16".to_owned(),
        "169.254.0.0/16".to_owned(),
    ];
    assert(text::texts(private4@) =~= seq![
        "10.0.0.0/8"@,
        "172.16.0.0/12"@,
        "192.168.0.0/16"@,
        "169.254.0.0/16"@,
    ]);
    let private6 = vec!["fc00::/7".to_owned(), "fe80::/10".to_owned()];
    assert(text::texts(private6@) =~= seq!["fc00::/7"@, "fe80::/10"@]);
    let ingress = vec![router];
    let egress = vec![public_peer("0.0.0.0/0", private4), public_peer("::/0", private6)];
    let ghost wanted = strict_policy(template_name@);
    assert(k8s::peer_views(ingress@) =~= wanted.ingress->0[0].peers->0);
    assert(k8s::peer_views(egress@) =~= wanted.egress->0[0].peers->0);
    let ingress_rules = vec![NetworkPolicyRule { peers: Some(ingress), ports: None }];
    let egress_rules = vec![NetworkPolicyRule { peers: Some(egress), ports: None }];
    assert(k8s::rule_views(ingress_rules@) =~= wanted.ingress->0);
    assert(k8s::rule_views(egress_rules@) =~= wanted.egress->0);
    let types = vec!["Ingress".to_owned(), "Egress".to_owned()];
    assert(text::texts(types@) =~= wanted.policy_types->0);
    NetworkPolicySpec {
        pod_selector: Some(selector),
        policy_types: Some(types),
        ingress: Some(ingress_rules),
        egress: Some(egress_rules),
    }
}

/// Whether every one of the pairs is among the labels.
pub open spec fn labels_cover(
    labels: k8s::MetaView,
    required: Seq<(Seq<char>, Seq<char>)>,
) -> bool {
    forall|i: int|
        0 <= i < required.len() ==> labels.label((#[trigger] required[i]).0) == Some(required[i].1)
}

/// Whether a policy selects a Pod by labels alone.
pub open spec fn selects(policy: NetworkPolicy, pod: k8s::MetaView) -> bool {
    match policy.spec {
        Some(spec) => match k8s::opt_selector(spec.pod_selector) {
            Some(selector) => {
                &&& selector.match_expressions matches Some(expressions) ==> expressions.len() == 0
                &&& selector.match_labels matches Some(required) && labels_cover(pod, required)
            },
            None => false,
        },
        None => false,
    }
}

/// Whether a policy selects a Pod by labels alone.
pub fn policy_selects_pod(policy: &NetworkPolicy, pod: &Pod) -> (result: bool)
    ensures
        result == selects(*policy, pod.metadata@),
{
    let selector = match &policy.spec {
        Some(spec) => match &spec.pod_selector {
            Some(selector) => selector,
            None => {
                return false;
            },
        },
        None => {
            return false;
        },
    };
    match &selector.match_expressions {
        Some(expressions) => {
            if expressions.len() != 0 {
                return false;
            }
        },
        None => {},
    }
    match &selector.match_labels {
        Some(required) => {
            let ghost pairs = text::pair_texts(required@);
            let mut i: usize = 0;
            while i < required.len()
                invariant
                    pairs == text::pair_texts(required@),
                    selects(*policy, pod.metadata@) == labels_cover(pod.metadata@, pairs),
                    i <= required@.len(),
                    forall|k: int|
                        0 <= k < i ==> pod.metadata@.label((#[trigger] pairs[k]).0) == Some(
                            pairs[k].1,
                        ),
                decreases required@.len() - i,
            {
                assert(pairs[i as int] == (required@[i as int].0@, required@[i as int].1@));
                if !pod.metadata.has_label(required[i].0.as_str(), required[i].1.as_str()) {
                    return false;
                }
                i = i + 1;
            }
            true
        },
        None => false,
    }
}

/// What is wrong with a Pod's labels.
pub open spec fn pod_labels_error(
    pod: k8s::MetaView,
    sandbox_name: Seq<char>,
    template_name: Seq<char>,
    policy: NetworkPolicy,
) -> Option<Seq<char>> {
    if pod.label(SANDBOX_HASH_LABEL@) == Some(names::name_hash(sandbox_name)) && pod.label(
        TEMPLATE_REF_HASH_LABEL@,
    ) == Some(names::name_hash(template_name)) && selects(policy, pod) {
        None
    } else {
        Some("Sandbox Pod is not selected by its exact Sandbox and strict Template policy labels"@)
    }
}

/// Proves that a Pod is labelled for its sandbox and its template, and that the
/// policy selects it.
pub fn validate_pod_labels(
    pod: &Pod,
    sandbox_name: &str,
    template_name: &str,
    policy: &NetworkPolicy,
) -> (result: Result<(), String>)
    ensures
        text::reported(result) == pod_labels_error(
            pod.metadata@,
            sandbox_name@,
            template_name@,
            *policy,
        ),
{
    let sandbox_hash = upstream_name_hash(sandbox_name);
    let template_hash = upstream_name_hash(template_name);
    if !pod.metadata.has_label(SANDBOX_HASH_LABEL, sandbox_hash.as_str())
        || !pod.metadata.has_label(TEMPLATE_REF_HASH_LABEL, template_hash.as_str())
        || !policy_selects_pod(policy, pod) {
        return Err(
            "Sandbox Pod is not selected by its exact Sandbox and strict Template policy labels".to_owned(),
        );
    }
    Ok(())
}

/// Named ports in ascending order, with one more unless its number is there.
pub open spec fn with_port(ports: Seq<(Seq<char>, int)>, name: Seq<char>, port: int) -> Seq<
    (Seq<char>, int),
>
    decreases ports.len(),
{
    if ports.len() == 0 {
        seq![(name, port)]
    } else if ports[0].1 == port {
        ports
    } else if port < ports[0].1 {
        seq![(name, port)] + ports
    } else {
        seq![ports[0]] + with_port(ports.skip(1), name, port)
    }
}

/// Named ports with those that a container exposes.
pub open spec fn with_container(
    ports: Seq<(Seq<char>, int)>,
    exposed: Seq<SandboxPortSpec>,
    container: Seq<char>,
) -> Seq<(Seq<char>, int)>
    decreases exposed.len(),
{
    if exposed.len() == 0 {
        ports
    } else {
        let rest = with_container(ports, exposed.drop_last(), container);
        let port = exposed.last();
        if port.container@ == container {
            with_port(rest, port.name@, port.port as int)
        } else {
            rest
        }
    }
}

/// The ports of a sandbox's Service: those of the first container first, each
/// number under the name that it had first, in ascending order.
pub open spec fn service_ports(
    containers: Seq<SandboxContainerSpec>,
    exposed: Seq<SandboxPortSpec>,
) -> Seq<(Seq<char>, int)>
    decreases containers.len(),
{
    if containers.len() == 0 {
        Seq::empty()
    } else {
        with_container(
            service_ports(containers.drop_last(), exposed),
            exposed,
            containers.last().name@,
        )
    }
}

/// What a list of named ports holds.
pub open spec fn named_ports(ports: Seq<(String, i32)>) -> Seq<(Seq<char>, int)> {
    ports.map_values(|port: (String, i32)| (port.0@, port.1 as int))
}

proof fn lemma_with_port_inserts(
    ports: Seq<(Seq<char>, int)>,
    name: Seq<char>,
    port: int,
    at: int,
)
    requires
        0 <= at <= ports.len(),
        forall|k: int| 0 <= k < at ==> (#[trigger] ports[k]).1 < port,
        at < ports.len() ==> ports[at].1 >= port,
    ensures
        at < ports.len() && ports[at].1 == port ==> with_port(ports, name, port) == ports,
        at == ports.len() || ports[at].1 > port ==> with_port(ports, name, port) == ports.insert(
            at,
            (name, port),
        ),
    decreases ports.len(),
{
    if ports.len() == 0 {
        assert(ports.insert(at, (name, port)) =~= seq![(name, port)]);
    } else if at == 0 {
        assert(ports.insert(at, (name, port)) =~= seq![(name, port)] + ports);
    } else {
        let rest = ports.skip(1);
        assert(ports[0].1 < port);
        assert forall|k: int| 0 <= k < at - 1 implies (#[trigger] rest[k]).1 < port by {
            assert(rest[k] == ports[k + 1]);
        }
        if at < ports.len() {
            assert(rest[at - 1] == ports[at]);
        }
        lemma_with_port_inserts(rest, name, port, at - 1);
        if at < ports.len() && ports[at].1 == port {
            assert(seq![ports[0]] + rest =~= ports);
        } else {
            assert(seq![ports[0]] + rest.insert(at - 1, (name, port)) =~= ports.insert(
                at,
                (name, port),
            ));
        }
    }
}

fn add_port(ports: &mut Vec<(String, i32)>, name: &str, port: i32)
    ensures
        named_ports(final(ports)@) == with_port(named_ports(old(ports)@), name@, port as int),
{
    let ghost model = named_ports(ports@);
    let mut i: usize = 0;
    while i < ports.len() && ports[i].1 < port
        invariant
            ports@ == old(ports)@,
            model == named_ports(ports@),
            i <= ports@.len(),
            forall|k: int| 0 <= k < i ==> (#[trigger] model[k]).1 < port,
        decreases ports@.len() - i,
    {
        assert(model[i as int].1 == ports@[i as int].1);
        i = i + 1;
    }
    proof {
        if i < ports@.len() {
            assert(model[i as int].1 == ports@[i as int].1);
        }
        lemma_with_port_inserts(model, name@, port as int, i as int);
    }
    if i == ports.len() || ports[i].1 != port {
        ports.insert(i, (name.to_owned(), port));
        assert(named_ports(ports@) =~= model.insert(i as int, (name@, port as int)));
    }
}

/// The ports of a sandbox's Service: those of the first container first, each
/// number under the name that it had first, in ascending order.
pub fn expected_service_ports(pool: &SandboxPool) -> (ports: Vec<(String, i32)>)
    ensures
        named_ports(ports@) == service_ports(
            pool.spec.template.containers@,
            pool.spec.template.exposed_ports@,
        ),
{
    let containers = &pool.spec.template.containers;
    let exposed = &pool.spec.template.exposed_ports;
    let mut ports: Vec<(String, i32)> = Vec::new();
    assert(named_ports(ports@) =~= Seq::empty());
    assert(containers@.take(0) =~= Seq::empty());
    let mut i: usize = 0;
    while i < containers.len()
        invariant
            i <= containers@.len(),
            named_ports(ports@) == service_ports(containers@.take(i as int), exposed@),
        decreases containers@.len() - i,
    {
        let ghost before = named_ports(ports@);
        let container = containers[i].name.as_str();
        let mut j: usize = 0;
        assert(exposed@.take(0) =~= Seq::empty());
        while j < exposed.len()
            invariant
                j <= exposed@.len(),
                named_ports(ports@) == with_container(before, exposed@.take(j as int), container@),
            decreases exposed@.len() - j,
        {
            assert(exposed@.take(j + 1).drop_last() =~= exposed@.take(j as int));
            if same_text(exposed[j].container.as_str(), container) {
                add_port(&mut ports, exposed[j].name.as_str(), exposed[j].port as i32);
            }
            j = j + 1;
        }
        assert(exposed@.take(exposed@.len() as int) =~= exposed@);
        assert(containers@.take(i + 1).drop_last() =~= containers@.take(i as int));
        i = i + 1;
    }
    assert(containers@.take(containers@.len() as int) =~= containers@);
    ports
}

/// Whether port numbers ascend.
pub open spec fn ascending(ports: Seq<(Seq<char>, int)>) -> bool {
    forall|i: int, j: int|
        0 <= i < j < ports.len() ==> (#[trigger] ports[i]).1 < (#[trigger] ports[j]).1
}

proof fn lemma_with_port_ascends(ports: Seq<(Seq<char>, int)>, name: Seq<char>, port: int)
    requires
        ascending(ports),
    ensures
        ascending(with_port(ports, name, port)),
        forall|low: int|
            (forall|k: int| 0 <= k < ports.len() ==> low < (#[trigger] ports[k]).1) && low < port
                ==> #[trigger] all_above(with_port(ports, name, port), low),
    decreases ports.len(),
{
    if ports.len() == 0 {
    } else if ports[0].1 == port {
    } else if port < ports[0].1 {
        let result = seq![(name, port)] + ports;
        assert forall|i: int, j: int| 0 <= i < j < result.len() implies (#[trigger] result[i]).1 < (
        #[trigger] result[j]).1 by {
            assert(result[j] == ports[j - 1]);
            if i > 0 {
                assert(result[i] == ports[i - 1]);
            } else if j > 1 {
                assert(ports[0].1 < ports[j - 1].1);
            }
        }
        assert forall|low: int|
            (forall|k: int| 0 <= k < ports.len() ==> low < (#[trigger] ports[k]).1) && low
                < port implies #[trigger] all_above(result, low) by {
            assert forall|k: int| 0 <= k < result.len() implies low < (#[trigger] result[k]).1 by {
                if k > 0 {
                    assert(result[k] == ports[k - 1]);
                }
            }
        }
    } else {
        let rest = ports.skip(1);
        assert forall|i: int, j: int| 0 <= i < j < rest.len() implies (#[trigger] rest[i]).1 < (
        #[trigger] rest[j]).1 by {
            assert(rest[i] == ports[i + 1]);
            assert(rest[j] == ports[j + 1]);
        }
        lemma_with_port_ascends(rest, name, port);
        let tail = with_port(rest, name, port);
        let result = seq![ports[0]] + tail;
        assert forall|k: int| 0 <= k < rest.len() implies ports[0].1 < (#[trigger] rest[k]).1 by {
            assert(rest[k] == ports[k + 1]);
        }
        assert(all_above(tail, ports[0].1));
        assert forall|i: int, j: int| 0 <= i < j < result.len() implies (#[trigger] result[i]).1 < (
        #[trigger] result[j]).1 by {
            assert(result[j] == tail[j - 1]);
            if i > 0 {
                assert(result[i] == tail[i - 1]);
            }
        }
        assert forall|low: int|
            (forall|k: int| 0 <= k < ports.len() ==> low < (#[trigger] ports[k]).1) && low
                < port implies #[trigger] all_above(result, low) by {
            assert(low < ports[0].1);
            assert forall|k: int| 0 <= k < rest.len() implies low < (#[trigger] rest[k]).1 by {
                assert(rest[k] == ports[k + 1]);
            }
            assert(all_above(tail, low));
            assert forall|k: int| 0 <= k < result.len() implies low < (#[trigger] result[k]).1 by {
                if k > 0 {
                    assert(result[k] == tail[k - 1]);
                }
            }
        }
    }
}

/// Whether every port number is above `low`.
pub open spec fn all_above(ports: Seq<(Seq<char>, int)>, low: int) -> bool {
    forall|k: int| 0 <= k < ports.len() ==> low < (#[trigger] ports[k]).1
}

/// Ports in ascending order stay so with those of one more container.
pub proof fn lemma_with_container_ascends(
    ports: Seq<(Seq<char>, int)>,
    exposed: Seq<SandboxPortSpec>,
    container: Seq<char>,
)
    requires
        ascending(ports),
    ensures
        ascending(with_container(ports, exposed, container)),
    decreases exposed.len(),
{
    if exposed.len() > 0 {
        lemma_with_container_ascends(ports, exposed.drop_last(), container);
        lemma_with_port_ascends(
            with_container(ports, exposed.drop_last(), container),
            exposed.last().name@,
            exposed.last().port as int,
        );
    }
}

/// The ports of a sandbox's Service are in ascending order, each number once.
pub proof fn law_service_ports_ascend(
    containers: Seq<SandboxContainerSpec>,
    exposed: Seq<SandboxPortSpec>,
)
    ensures
        ascending(service_ports(containers, exposed)),
    decreases containers.len(),
{
    if containers.len() > 0 {
        law_service_ports_ascend(containers.drop_last(), exposed);
        lemma_with_container_ascends(
            service_ports(containers.drop_last(), exposed),
            exposed,
            containers.last().name@,
        );
    }
}

/// Whether one port of a Service is the expected one and is not exposed
/// otherwise.
pub open spec fn service_port_agrees(actual: ServicePort, expected: (Seq<char>, int)) -> bool {
    &&& text::opt_text(actual.name) == Some(expected.0)
    &&& actual.protocol is None || text::opt_text(actual.protocol) == Some("TCP"@)
    &&& actual.port == expected.1
    &&& actual.target_port matches Some(IntOrString::Int(target)) && target == expected.1
    &&& actual.node_port is None
    &&& actual.app_protocol is None
}

/// Whether a Service has exactly the expected ports.
pub open spec fn service_ports_agree(
    actual: Seq<ServicePort>,
    expected: Seq<(Seq<char>, int)>,
) -> bool {
    actual.len() == expected.len() && forall|i: int|
        0 <= i < actual.len() ==> service_port_agrees(#[trigger] actual[i], expected[i])
}

fn service_port_matches(actual: &ServicePort, expected: &(String, i32)) -> (matches: bool)
    ensures
        matches == service_port_agrees(*actual, (expected.0@, expected.1 as int)),
{
    let target = match &actual.target_port {
        Some(IntOrString::Int(target)) => *target == expected.1,
        _ => false,
    };
    holds_text(&actual.name, expected.0.as_str()) && (actual.protocol.is_none() || holds_text(
        &actual.protocol,
        "TCP",
    )) && actual.port == expected.1 && target && actual.node_port.is_none()
        && actual.app_protocol.is_none()
}

/// Whether a Service has exactly the expected ports.
pub fn service_ports_match(actual: &Vec<ServicePort>, expected: &Vec<(String, i32)>) -> (matches:
    bool)
    ensures
        matches == service_ports_agree(actual@, named_ports(expected@)),
{
    if actual.len() != expected.len() {
        return false;
    }
    let ghost model = named_ports(expected@);
    let mut i: usize = 0;
    while i < actual.len()
        invariant
            model == named_ports(expected@),
            actual@.len() == expected@.len(),
            i <= actual@.len(),
            forall|k: int| 0 <= k < i ==> service_port_agrees(#[trigger] actual@[k], model[k]),
        decreases actual@.len() - i,
    {
        assert(model[i as int] == (expected@[i as int].0@, expected@[i as int].1 as int));
        if !service_port_matches(&actual[i], &expected[i]) {
            assert(!service_port_agrees(actual@[i as int], model[i as int]));
            return false;
        }
        i = i + 1;
    }
    true
}

/// Whether a Service is headless, internal, the sandbox's own and has exactly
/// the template's ports.
pub open spec fn service_is_exact(
    template: SandboxTemplateSpec,
    service: Service,
    spec: k8s::ServiceSpec,
    sandbox_name: Seq<char>,
    sandbox_uid: Seq<char>,
) -> bool {
    let meta = service.metadata@;
    let hash = names::name_hash(sandbox_name);
    &&& !meta.deleting()
    &&& meta.controlled_by(SANDBOX_API_VERSION@, SANDBOX_KIND@, sandbox_name, sandbox_uid)
    &&& meta.label(SANDBOX_HASH_LABEL@) == Some(hash)
    &&& text::opt_text(spec.cluster_ip) == Some("None"@)
    &&& text::opt_pairs(spec.selector) == Some(seq![(SANDBOX_HASH_LABEL@, hash)])
    &&& spec.service_type is None || text::opt_text(spec.service_type) == Some("ClusterIP"@)
    &&& spec.external_name is None
    &&& spec.external_ips@.len() == 0
    &&& spec.load_balancer_class is None
    &&& spec.load_balancer_ip is None
    &&& spec.load_balancer_source_ranges@.len() == 0
    &&& spec.health_check_node_port is None
    &&& spec.allocate_load_balancer_node_ports != Some(true)
    &&& spec.publish_not_ready_addresses != Some(true)
    &&& service_ports_agree(
        spec.ports@,
        service_ports(template.containers@, template.exposed_ports@),
    )
}

/// What is wrong with a sandbox's Service.
pub open spec fn service_error(
    template: SandboxTemplateSpec,
    service: Service,
    sandbox_name: Seq<char>,
    sandbox_uid: Seq<char>,
) -> Option<Seq<char>> {
    match service.spec {
        None => Some("Sandbox Service spec is missing"@),
        Some(spec) => if service_is_exact(template, service, spec, sandbox_name, sandbox_uid) {
            None
        } else {
            Some("Sandbox Service is not the exact headless, internal-only template projection"@)
        },
    }
}

/// Proves that a Service is headless, internal, the sandbox's own and has
/// exactly the template's ports.
pub fn validate_service(
    pool: &SandboxPool,
    service: &Service,
    sandbox_name: &str,
    sandbox_uid: &str,
) -> (result: Result<(), String>)
    ensures
        text::reported(result) == service_error(
            pool.spec.template,
            *service,
            sandbox_name@,
            sandbox_uid@,
        ),
{
    let spec = match &service.spec {
        Some(spec) => spec,
        None => {
            return Err("Sandbox Service spec is missing".to_owned());
        },
    };
    let hash = upstream_name_hash(sandbox_name);
    let selector = vec![(SANDBOX_HASH_LABEL.to_owned(), hash.clone())];
    assert(text::pair_texts(selector@) =~= seq![(SANDBOX_HASH_LABEL@, hash@)]);
    let selector = Some(selector);
    let ports = expected_service_ports(pool);
    if service.metadata.is_deleting() || !service.metadata.is_controlled_by(
        SANDBOX_API_VERSION,
        SANDBOX_KIND,
        sandbox_name,
        sandbox_uid,
    ) || !service.metadata.has_label(SANDBOX_HASH_LABEL, hash.as_str()) || !holds_text(
        &spec.cluster_ip,
        "None",
    ) || !text::same_opt_pairs(&spec.selector, &selector) || !(spec.service_type.is_none()
        || holds_text(&spec.service_type, "ClusterIP")) || spec.external_name.is_some()
        || spec.external_ips.len() != 0 || spec.load_balancer_class.is_some()
        || spec.load_balancer_ip.is_some() || spec.load_balancer_source_ranges.len() != 0
        || spec.health_check_node_port.is_some() || flag_set(spec.allocate_load_balancer_node_ports)
        || flag_set(spec.publish_not_ready_addresses) || !service_ports_match(&spec.ports, &ports) {
        return Err(
            "Sandbox Service is not the exact headless, internal-only template projection".to_owned(),
        );
    }
    Ok(())
}

/// What is wrong with a node.
pub open spec fn node_error(node: Node) -> Option<Seq<char>> {
    if node.metadata@.deleting() || node.unschedulable == Some(true) {
        Some("Sandbox Pod node is deleting or unschedulable"@)
    } else if !k8s::condition_holds(node.conditions@, "Ready"@, "True"@) {
        Some("Sandbox Pod node is not Ready"@)
    } else {
        None
    }
}

/// Proves that a node stays, can be scheduled to and is ready.
pub fn validate_node(node: &Node) -> (result: Result<(), String>)
    ensures
        text::reported(result) == node_error(*node),
{
    if node.metadata.is_deleting() || flag_set(node.unschedulable) {
        return Err("Sandbox Pod node is deleting or unschedulable".to_owned());
    }
    if !has_condition(&node.conditions, "Ready", "True") {
        return Err("Sandbox Pod node is not Ready".to_owned());
    }
    Ok(())
}

} // verus!
