//! Which objects of a sandbox workload are accepted, said of their fields.

use crate::base_laws;
use crate::certification::names;
use crate::certification::workload;
use crate::crd::sandbox::{SandboxContainerSpec, SandboxPortSpec, SandboxTemplateSpec};
use crate::json;
use crate::k8s::{
    Container, DynamicObject, IntOrString, NetworkPolicy, Node, Pod, PodSpec, Service,
};
use crate::text;
use vstd::prelude::*;

verus! {

/// A sandbox's Service is accepted exactly where it has a specification and stays,
/// is controlled by this sandbox and labelled for it, is headless, selects by the
/// sandbox's label alone, is of no type or of type `ClusterIP`, has none of the
/// surfaces that lead outside the cluster, publishes ready addresses only, and has
/// exactly the template's ports in their order, by TCP and to the same number.
pub proof fn law_service_is_accepted_exactly(
    template: SandboxTemplateSpec,
    service: Service,
    sandbox_name: Seq<char>,
    sandbox_uid: Seq<char>,
    result: Result<(), String>,
)
    requires
        text::reported(result) == workload::service_error(
            template,
            service,
            sandbox_name,
            sandbox_uid,
        ),
    ensures
        result is Ok <==> (service.spec matches Some(spec) && {
            let hash = names::name_hash(sandbox_name);
            let expected = workload::service_ports(template.containers@, template.exposed_ports@);
            &&& service.metadata.deletion_timestamp is None
            &&& exists|i: int|
                0 <= i < service.metadata.owner_references@.len() && {
                    let owner = #[trigger] service.metadata.owner_references@[i];
                    owner.controller == Some(true) && owner.api_version@
                        == "agents.x-k8s.io/v1beta1"@ && owner.kind@ == "Sandbox"@ && owner.name@
                        == sandbox_name && owner.uid@ == sandbox_uid
                }
            &&& service.metadata@.label("agents.x-k8s.io/sandbox-name-hash"@) == Some(hash)
            &&& spec.cluster_ip matches Some(address) && address@ == "None"@
            &&& spec.selector matches Some(pairs) && pairs@.len() == 1 && pairs@[0].0@
                == "agents.x-k8s.io/sandbox-name-hash"@ && pairs@[0].1@ == hash
            &&& spec.service_type matches Some(kind) ==> kind@ == "ClusterIP"@
            &&& spec.external_name is None
            &&& spec.external_ips@.len() == 0
            &&& spec.load_balancer_class is None
            &&& spec.load_balancer_ip is None
            &&& spec.load_balancer_source_ranges@.len() == 0
            &&& spec.health_check_node_port is None
            &&& spec.allocate_load_balancer_node_ports != Some(true)
            &&& spec.publish_not_ready_addresses != Some(true)
            &&& spec.ports@.len() == expected.len()
            &&& forall|i: int|
                0 <= i < spec.ports@.len() ==> {
                    let port = #[trigger] spec.ports@[i];
                    &&& port.name matches Some(name) && name@ == expected[i].0
                    &&& port.protocol matches Some(protocol) ==> protocol@ == "TCP"@
                    &&& port.port as int == expected[i].1
                    &&& port.target_port matches Some(IntOrString::Int(target)) && target as int
                        == expected[i].1
                    &&& port.node_port is None
                    &&& port.app_protocol is None
                }
        }),
        result matches Err(message) ==> message@ == (if service.spec is None {
            "Sandbox Service spec is missing"@
        } else {
            "Sandbox Service is not the exact headless, internal-only template projection"@
        }),
{
    base_laws::law_metadata_reads_its_fields(service.metadata);
    if let Some(spec) = service.spec {
        let hash = names::name_hash(sandbox_name);
        let expected = workload::service_ports(template.containers@, template.exposed_ports@);
        let wanted = seq![("agents.x-k8s.io/sandbox-name-hash"@, hash)];
        if let Some(pairs) = spec.selector {
            let held = text::pair_texts(pairs@);
            if pairs@.len() == 1 && pairs@[0].0@ == "agents.x-k8s.io/sandbox-name-hash"@
                && pairs@[0].1@ == hash {
                assert(held =~= wanted);
            }
            if held == wanted {
                assert(held.len() == 1);
                assert(held[0] == wanted[0]);
            }
        }
        if workload::service_is_exact(template, service, spec, sandbox_name, sandbox_uid) {
            assert forall|i: int| 0 <= i < spec.ports@.len() implies {
                let port = #[trigger] spec.ports@[i];
                &&& port.name matches Some(name) && name@ == expected[i].0
                &&& port.protocol matches Some(protocol) ==> protocol@ == "TCP"@
                &&& port.port as int == expected[i].1
                &&& port.target_port matches Some(IntOrString::Int(target)) && target as int
                    == expected[i].1
                &&& port.node_port is None
                &&& port.app_protocol is None
            } by {
                assert(workload::service_port_agrees(spec.ports@[i], expected[i]));
            }
        }
    }
}

/// Whether exposed port `j` belongs to container `i`.
pub open spec fn belongs(
    containers: Seq<SandboxContainerSpec>,
    exposed: Seq<SandboxPortSpec>,
    i: int,
    j: int,
) -> bool {
    0 <= i < containers.len() && 0 <= j < exposed.len() && exposed[j].container@
        == containers[i].name@
}

/// Whether a port takes its name and number from exposed port `j` of container `i`,
/// and no port of an earlier container, nor an earlier one of the same container,
/// has the number.
pub open spec fn comes_from(
    containers: Seq<SandboxContainerSpec>,
    exposed: Seq<SandboxPortSpec>,
    i: int,
    j: int,
    entry: (Seq<char>, int),
) -> bool {
    &&& belongs(containers, exposed, i, j)
    &&& exposed[j].name@ == entry.0
    &&& exposed[j].port as int == entry.1
    &&& forall|a: int, b: int|
        #[trigger] belongs(containers, exposed, a, b) && (a < i || (a == i && b < j))
            ==> exposed[b].port as int != entry.1
}

/// Whether a port comes from some exposed port of some container.
pub open spec fn is_exposed(
    containers: Seq<SandboxContainerSpec>,
    exposed: Seq<SandboxPortSpec>,
    entry: (Seq<char>, int),
) -> bool {
    exists|i: int, j: int| comes_from(containers, exposed, i, j, entry)
}

/// Whether a number is among those of a list of ports.
pub open spec fn numbered(ports: Seq<(Seq<char>, int)>, number: int) -> bool {
    exists|k: int| 0 <= k < ports.len() && (#[trigger] ports[k]).1 == number
}

proof fn lemma_rest_ascends(ports: Seq<(Seq<char>, int)>)
    requires
        workload::ascending(ports),
        ports.len() > 0,
    ensures
        workload::ascending(ports.skip(1)),
        forall|k: int| 0 <= k < ports.skip(1).len() ==> ports[0].1 < (#[trigger] ports.skip(1)[k]).1,
{
    let rest = ports.skip(1);
    assert forall|i: int, j: int| 0 <= i < j < rest.len() implies (#[trigger] rest[i]).1 < (
    #[trigger] rest[j]).1 by {
        assert(rest[i] == ports[i + 1]);
        assert(rest[j] == ports[j + 1]);
    }
    assert forall|k: int| 0 <= k < rest.len() implies ports[0].1 < (#[trigger] rest[k]).1 by {
        assert(rest[k] == ports[k + 1]);
    }
}

proof fn lemma_with_port_holds(
    ports: Seq<(Seq<char>, int)>,
    name: Seq<char>,
    port: int,
    entry: (Seq<char>, int),
)
    requires
        workload::ascending(ports),
    ensures
        workload::with_port(ports, name, port).contains(entry) <==> ports.contains(entry) || (entry
            == (name, port) && !numbered(ports, port)),
    decreases ports.len(),
{
    let result = workload::with_port(ports, name, port);
    if ports.len() == 0 {
        assert(result[0] == (name, port));
    } else if ports[0].1 == port {
        assert(numbered(ports, port));
    } else if port < ports[0].1 {
        assert(result =~= seq![(name, port)] + ports);
        assert(!numbered(ports, port)) by {
            if numbered(ports, port) {
                let k = choose|k: int| 0 <= k < ports.len() && (#[trigger] ports[k]).1 == port;
                if k > 0 {
                    assert(ports[0].1 < ports[k].1);
                }
            }
        }
        if ports.contains(entry) {
            let k = choose|k: int| 0 <= k < ports.len() && ports[k] == entry;
            assert(result[k + 1] == entry);
        }
        assert(result[0] == (name, port));
        if result.contains(entry) {
            let k = choose|k: int| 0 <= k < result.len() && result[k] == entry;
            if k > 0 {
                assert(ports[k - 1] == entry);
            }
        }
    } else {
        let rest = ports.skip(1);
        lemma_rest_ascends(ports);
        lemma_with_port_holds(rest, name, port, entry);
        let tail = workload::with_port(rest, name, port);
        assert(result =~= seq![ports[0]] + tail);
        assert(result[0] == ports[0]);
        if numbered(rest, port) {
            let k = choose|k: int| 0 <= k < rest.len() && (#[trigger] rest[k]).1 == port;
            assert(ports[k + 1].1 == port);
        }
        if numbered(ports, port) {
            let k = choose|k: int| 0 <= k < ports.len() && (#[trigger] ports[k]).1 == port;
            assert(rest[k - 1].1 == port);
        }
        if tail.contains(entry) {
            let k = choose|k: int| 0 <= k < tail.len() && tail[k] == entry;
            assert(result[k + 1] == entry);
        }
        if rest.contains(entry) {
            let k = choose|k: int| 0 <= k < rest.len() && rest[k] == entry;
            assert(ports[k + 1] == entry);
        }
        if ports.contains(entry) && entry != ports[0] {
            let k = choose|k: int| 0 <= k < ports.len() && ports[k] == entry;
            assert(rest[k - 1] == entry);
        }
        if result.contains(entry) && entry != ports[0] {
            let k = choose|k: int| 0 <= k < result.len() && result[k] == entry;
            assert(tail[k - 1] == entry);
        }
        if entry == ports[0] {
            assert(ports.contains(entry));
            assert(result.contains(entry));
        }
    }
}

/// Whether exposed port `j` is the first of this container with its number, and is
/// named and numbered so.
pub open spec fn first_of_container(
    exposed: Seq<SandboxPortSpec>,
    container: Seq<char>,
    j: int,
    entry: (Seq<char>, int),
) -> bool {
    &&& 0 <= j < exposed.len()
    &&& exposed[j].container@ == container
    &&& exposed[j].name@ == entry.0
    &&& exposed[j].port as int == entry.1
    &&& forall|k: int|
        0 <= k < j ==> (#[trigger] exposed[k]).container@ != container || exposed[k].port as int
            != entry.1
}

proof fn lemma_with_container_holds(
    ports: Seq<(Seq<char>, int)>,
    exposed: Seq<SandboxPortSpec>,
    container: Seq<char>,
    entry: (Seq<char>, int),
)
    requires
        workload::ascending(ports),
    ensures
        workload::with_container(ports, exposed, container).contains(entry) <==> ports.contains(
            entry,
        ) || (!numbered(ports, entry.1) && exists|j: int| #[trigger]
            first_of_container(exposed, container, j, entry)),
    decreases exposed.len(),
{
    if exposed.len() > 0 {
        let less = exposed.drop_last();
        let rest = workload::with_container(ports, less, container);
        let port = exposed.last();
        let n = exposed.len() - 1;
        lemma_with_container_holds(ports, less, container, entry);
        workload::lemma_with_container_ascends(ports, less, container);
        assert forall|j: int| 0 <= j < n implies #[trigger] first_of_container(
            exposed,
            container,
            j,
            entry,
        ) == first_of_container(less, container, j, entry) by {
            assert(exposed[j] == less[j]);
            assert forall|k: int| 0 <= k < j implies #[trigger] exposed[k] == less[k] by {}
            assert forall|k: int| 0 <= k < j implies #[trigger] less[k] == exposed[k] by {}
        }
        if exists|j: int| #[trigger] first_of_container(less, container, j, entry) {
            let j = choose|j: int| #[trigger] first_of_container(less, container, j, entry);
            assert(first_of_container(exposed, container, j, entry));
        }
        if exists|j: int|
            #[trigger] first_of_container(exposed, container, j, entry) && j < n {
            let j = choose|j: int|
                #[trigger] first_of_container(exposed, container, j, entry) && j < n;
            assert(first_of_container(less, container, j, entry));
        }
        if port.container@ == container {
            lemma_with_port_holds(rest, port.name@, port.port as int, entry);
            lemma_numbers_of_container(ports, less, container, port.port as int);
            if entry == (port.name@, port.port as int) && !numbered(rest, entry.1) {
                assert forall|k: int| 0 <= k < n implies (#[trigger] exposed[k]).container@
                    != container || exposed[k].port as int != entry.1 by {
                    assert(less[k] == exposed[k]);
                }
                assert(first_of_container(exposed, container, n, entry));
            }
            if first_of_container(exposed, container, n, entry) && !numbered(ports, entry.1) {
                if numbered(rest, entry.1) {
                    let k = choose|k: int|
                        0 <= k < less.len() && (#[trigger] less[k]).container@ == container
                            && less[k].port as int == entry.1;
                    assert(exposed[k] == less[k]);
                }
            }
        } else {
            assert(!first_of_container(exposed, container, n, entry));
        }
    } else {
        assert forall|j: int| !#[trigger] first_of_container(exposed, container, j, entry) by {}
    }
}

proof fn lemma_numbers_of_container(
    ports: Seq<(Seq<char>, int)>,
    exposed: Seq<SandboxPortSpec>,
    container: Seq<char>,
    number: int,
)
    requires
        workload::ascending(ports),
    ensures
        numbered(workload::with_container(ports, exposed, container), number) <==> numbered(
            ports,
            number,
        ) || exists|k: int|
            0 <= k < exposed.len() && (#[trigger] exposed[k]).container@ == container
                && exposed[k].port as int == number,
    decreases exposed.len(),
{
    if exposed.len() > 0 {
        let less = exposed.drop_last();
        let rest = workload::with_container(ports, less, container);
        let port = exposed.last();
        lemma_numbers_of_container(ports, less, container, number);
        workload::lemma_with_container_ascends(ports, less, container);
        let result = workload::with_container(ports, exposed, container);
        assert forall|k: int| 0 <= k < less.len() implies #[trigger] less[k] == exposed[k] by {}
        if exists|k: int|
            0 <= k < less.len() && (#[trigger] less[k]).container@ == container
                && less[k].port as int == number {
            let k = choose|k: int|
                0 <= k < less.len() && (#[trigger] less[k]).container@ == container
                    && less[k].port as int == number;
            assert(exposed[k].container@ == container);
        }
        if exists|k: int|
            0 <= k < exposed.len() - 1 && (#[trigger] exposed[k]).container@ == container
                && exposed[k].port as int == number {
            let k = choose|k: int|
                0 <= k < exposed.len() - 1 && (#[trigger] exposed[k]).container@ == container
                    && exposed[k].port as int == number;
            assert(less[k].container@ == container);
        }
        if port.container@ == container {
            if numbered(result, number) {
                let k = choose|k: int| 0 <= k < result.len() && (#[trigger] result[k]).1 == number;
                lemma_with_port_holds(rest, port.name@, port.port as int, result[k]);
                assert(result.contains(result[k]));
                if rest.contains(result[k]) {
                    let m = choose|m: int| 0 <= m < rest.len() && rest[m] == result[k];
                    assert(rest[m].1 == number);
                } else {
                    assert(exposed[exposed.len() - 1].port as int == number);
                }
            }
            if numbered(rest, number) {
                let k = choose|k: int| 0 <= k < rest.len() && (#[trigger] rest[k]).1 == number;
                lemma_with_port_holds(rest, port.name@, port.port as int, rest[k]);
                assert(rest.contains(rest[k]));
                let m = choose|m: int| 0 <= m < result.len() && result[m] == rest[k];
                assert(result[m].1 == number);
            } else if port.port as int == number {
                let entry = (port.name@, port.port as int);
                lemma_with_port_holds(rest, port.name@, port.port as int, entry);
                let m = choose|m: int| 0 <= m < result.len() && result[m] == entry;
                assert(result[m].1 == number);
            }
        }
    }
}

/// A port of a sandbox's Service is an exposed port of one of the template's
/// containers, and takes its name from the first of those with its number, in the
/// order of the containers and then of the exposed ports. The number of every
/// exposed port of every container is among the ports, and each number once, in
/// ascending order.
pub proof fn law_service_ports_are_the_exposed_ones(
    containers: Seq<SandboxContainerSpec>,
    exposed: Seq<SandboxPortSpec>,
)
    ensures
        forall|k: int|
            0 <= k < workload::service_ports(containers, exposed).len() ==> is_exposed(
                containers,
                exposed,
                #[trigger] workload::service_ports(containers, exposed)[k],
            ),
        forall|i: int, j: int| #[trigger]
            belongs(containers, exposed, i, j) ==> numbered(
                workload::service_ports(containers, exposed),
                exposed[j].port as int,
            ),
        forall|a: int, b: int|
            0 <= a < b < workload::service_ports(containers, exposed).len() ==> (
            #[trigger] workload::service_ports(containers, exposed)[a]).1 < (
            #[trigger] workload::service_ports(containers, exposed)[b]).1,
    decreases containers.len(),
{
    let result = workload::service_ports(containers, exposed);
    workload::law_service_ports_ascend(containers, exposed);
    if containers.len() > 0 {
        let less = containers.drop_last();
        let before = workload::service_ports(less, exposed);
        let name = containers.last().name@;
        let n = containers.len() - 1;
        law_service_ports_are_the_exposed_ones(less, exposed);
        workload::law_service_ports_ascend(less, exposed);
        assert forall|i: int, j: int| i < n implies #[trigger] belongs(containers, exposed, i, j)
            == belongs(less, exposed, i, j) by {
            if 0 <= i < n {
                assert(containers[i] == less[i]);
            }
        }
        assert forall|i: int, j: int| #[trigger] belongs(less, exposed, i, j) implies belongs(
            containers,
            exposed,
            i,
            j,
        ) by {
            assert(containers[i] == less[i]);
        }
        assert forall|k: int| 0 <= k < result.len() implies is_exposed(
            containers,
            exposed,
            #[trigger] result[k],
        ) by {
            let entry = result[k];
            lemma_with_container_holds(before, exposed, name, entry);
            assert(result.contains(entry));
            if before.contains(entry) {
                let m = choose|m: int| 0 <= m < before.len() && before[m] == entry;
                assert(is_exposed(less, exposed, before[m]));
                let (i, j) = choose|i: int, j: int| comes_from(less, exposed, i, j, before[m]);
                assert(comes_from(less, exposed, i, j, entry));
                assert forall|a: int, b: int|
                    #[trigger] belongs(containers, exposed, a, b) && (a < i || (a == i && b
                        < j)) implies exposed[b].port as int != entry.1 by {
                    assert(belongs(less, exposed, a, b));
                }
                assert(comes_from(containers, exposed, i, j, entry));
            } else {
                let j = choose|j: int| #[trigger] first_of_container(exposed, name, j, entry);
                assert(belongs(containers, exposed, n, j));
                assert forall|a: int, b: int|
                    #[trigger] belongs(containers, exposed, a, b) && (a < n || (a == n && b
                        < j)) implies exposed[b].port as int != entry.1 by {
                    if a < n {
                        assert(belongs(less, exposed, a, b));
                        assert(!numbered(before, entry.1));
                    } else {
                        assert(exposed[b].container@ == name);
                    }
                }
                assert(comes_from(containers, exposed, n, j, entry));
            }
        }
        assert forall|i: int, j: int| #[trigger]
            belongs(containers, exposed, i, j) implies numbered(
            result,
            exposed[j].port as int,
        ) by {
            lemma_numbers_of_container(before, exposed, name, exposed[j].port as int);
            if i < n {
                assert(belongs(less, exposed, i, j));
            } else {
                assert(exposed[j].container@ == name);
            }
        }
    }
}

/// A running container is the projected one exactly where name, image, command and
/// arguments are the same, ports, resources and security context are alike, and
/// nothing was added: no environment, no mount and no device.
pub proof fn law_container_is_accepted_exactly(expected: Container, actual: Container)
    ensures
        workload::containers_agree(expected, actual) <==> {
            &&& expected.name@ == actual.name@
            &&& text::opt_text(expected.image) == text::opt_text(actual.image)
            &&& match (expected.command, actual.command) {
                (Some(wanted), Some(found)) => wanted@.len() == found@.len() && forall|i: int|
                    0 <= i < wanted@.len() ==> (#[trigger] wanted@[i])@ == found@[i]@,
                (None, None) => true,
                _ => false,
            }
            &&& match (expected.args, actual.args) {
                (Some(wanted), Some(found)) => wanted@.len() == found@.len() && forall|i: int|
                    0 <= i < wanted@.len() ==> (#[trigger] wanted@[i])@ == found@[i]@,
                (None, None) => true,
                _ => false,
            }
            &&& match (expected.ports, actual.ports) {
                (Some(wanted), Some(found)) => wanted@.len() == found@.len() && forall|i: int|
                    0 <= i < wanted@.len() ==> json::alike((#[trigger] wanted@[i])@, found@[i]@),
                (None, None) => true,
                _ => false,
            }
            &&& match (expected.resources, actual.resources) {
                (Some(wanted), Some(found)) => json::alike(wanted@, found@),
                (None, None) => true,
                _ => false,
            }
            &&& match (expected.security_context, actual.security_context) {
                (Some(wanted), Some(found)) => json::alike(wanted@, found@),
                (None, None) => true,
                _ => false,
            }
            &&& actual.env@.len() == 0
            &&& actual.env_from@.len() == 0
            &&& actual.volume_mounts@.len() == 0
            &&& actual.volume_devices@.len() == 0
        },
{
    lemma_opt_texts(expected.command, actual.command);
    lemma_opt_texts(expected.args, actual.args);
    if let (Some(wanted), Some(found)) = (expected.ports, actual.ports) {
        let left = wanted@.map_values(|value: json::Json| json::compared(value@));
        let right = found@.map_values(|value: json::Json| json::compared(value@));
        if left == right {
            assert(left.len() == right.len());
            assert forall|i: int| 0 <= i < wanted@.len() implies json::alike(
                (#[trigger] wanted@[i])@,
                found@[i]@,
            ) by {
                assert(left[i] == right[i]);
            }
        }
        if wanted@.len() == found@.len() && forall|i: int|
            0 <= i < wanted@.len() ==> json::alike((#[trigger] wanted@[i])@, found@[i]@) {
            assert forall|i: int| 0 <= i < left.len() implies left[i] == right[i] by {
                assert(json::alike(wanted@[i]@, found@[i]@));
            }
            assert(left =~= right);
        }
    }
}

proof fn lemma_opt_texts(a: Option<Vec<String>>, b: Option<Vec<String>>)
    ensures
        text::opt_texts(a) == text::opt_texts(b) <==> match (a, b) {
            (Some(wanted), Some(found)) => wanted@.len() == found@.len() && forall|i: int|
                0 <= i < wanted@.len() ==> (#[trigger] wanted@[i])@ == found@[i]@,
            (None, None) => true,
            _ => false,
        },
{
    if let (Some(wanted), Some(found)) = (a, b) {
        let left = text::texts(wanted@);
        let right = text::texts(found@);
        if left == right {
            assert(left.len() == right.len());
            assert forall|i: int| 0 <= i < wanted@.len() implies (#[trigger] wanted@[i])@
                == found@[i]@ by {
                assert(left[i] == right[i]);
            }
        }
        if wanted@.len() == found@.len() && forall|i: int|
            0 <= i < wanted@.len() ==> (#[trigger] wanted@[i])@ == found@[i]@ {
            assert(left =~= right);
        }
    }
}

/// A scheduled Pod's specification is accepted exactly where it has the projection's
/// runtime class, names a node, has the projection's service account, service link,
/// security and user settings, never restarts, shares nothing of the host or between
/// its processes, has no volume, init or ephemeral container, and has the projected
/// containers, one for one.
pub proof fn law_pod_spec_is_accepted_exactly(
    expected: PodSpec,
    actual: PodSpec,
    result: Result<(), String>,
)
    requires
        text::reported(result) == workload::pod_spec_error(expected, actual),
    ensures
        result is Ok <==> {
            &&& text::opt_text(expected.runtime_class_name) == text::opt_text(
                actual.runtime_class_name,
            )
            &&& actual.node_name matches Some(node) && node@.len() > 0
            &&& expected.automount_service_account_token == actual.automount_service_account_token
            &&& expected.enable_service_links == actual.enable_service_links
            &&& match (expected.security_context, actual.security_context) {
                (Some(wanted), Some(found)) => json::alike(wanted@, found@),
                (None, None) => true,
                _ => false,
            }
            &&& expected.host_users == actual.host_users
            &&& actual.restart_policy matches Some(policy) && policy@ == "Never"@
            &&& actual.host_network != Some(true)
            &&& actual.host_pid != Some(true)
            &&& actual.host_ipc != Some(true)
            &&& actual.share_process_namespace != Some(true)
            &&& actual.volumes@.len() == 0
            &&& actual.init_containers@.len() == 0
            &&& actual.ephemeral_containers@.len() == 0
            &&& expected.containers@.len() == actual.containers@.len()
            &&& forall|i: int|
                0 <= i < expected.containers@.len() ==> workload::containers_agree(
                    #[trigger] expected.containers@[i],
                    actual.containers@[i],
                )
        },
{
}

/// A Pod is labelled for its sandbox and its template exactly where both hashes are
/// on it and the policy has a selector of labels alone, each of which the Pod has.
pub proof fn law_pod_labels_are_accepted_exactly(
    pod: Pod,
    sandbox_name: Seq<char>,
    template_name: Seq<char>,
    policy: NetworkPolicy,
    result: Result<(), String>,
)
    requires
        text::reported(result) == workload::pod_labels_error(
            pod.metadata@,
            sandbox_name,
            template_name,
            policy,
        ),
    ensures
        result is Ok <==> {
            &&& pod.metadata@.label("agents.x-k8s.io/sandbox-name-hash"@) == Some(
                names::name_hash(sandbox_name),
            )
            &&& pod.metadata@.label("agents.x-k8s.io/sandbox-template-ref-hash"@) == Some(
                names::name_hash(template_name),
            )
            &&& policy.spec matches Some(spec) && spec.pod_selector matches Some(selector) && (
            selector.match_expressions matches Some(expressions) ==> expressions@.len() == 0) && (
            selector.match_labels matches Some(required) && forall|i: int|
                0 <= i < required@.len() ==> pod.metadata@.label((#[trigger] required@[i]).0@)
                    == Some(required@[i].1@))
        },
{
    if let Some(spec) = policy.spec {
        if let Some(selector) = spec.pod_selector {
            if let Some(required) = selector.match_labels {
                let pairs = text::pair_texts(required@);
                assert forall|i: int| 0 <= i < required@.len() implies #[trigger] pairs[i] == (
                    required@[i].0@,
                    required@[i].1@,
                ) by {}
                if workload::labels_cover(pod.metadata@, pairs) {
                    assert forall|i: int| 0 <= i < required@.len() implies pod.metadata@.label(
                        (#[trigger] required@[i]).0@,
                    ) == Some(required@[i].1@) by {
                        assert(pod.metadata@.label(pairs[i].0) == Some(pairs[i].1));
                    }
                }
            }
        }
    }
}

/// A node is accepted exactly where it stays, can be scheduled to and is ready.
pub proof fn law_node_is_accepted_exactly(node: Node, result: Result<(), String>)
    requires
        text::reported(result) == workload::node_error(node),
    ensures
        result is Ok <==> {
            &&& node.metadata.deletion_timestamp is None
            &&& node.unschedulable != Some(true)
            &&& exists|i: int|
                0 <= i < node.conditions@.len() && (#[trigger] node.conditions@[i]).condition_type@
                    == "Ready"@ && node.conditions@[i].status@ == "True"@
        },
{
}

/// A Pod is ready exactly where it stays and one of its conditions says so.
pub proof fn law_pod_is_ready_exactly(pod: Pod)
    ensures
        workload::pod_is_ready(pod) <==> {
            &&& pod.metadata.deletion_timestamp is None
            &&& exists|i: int|
                0 <= i < pod.conditions@.len() && (#[trigger] pod.conditions@[i]).condition_type@
                    == "Ready"@ && pod.conditions@[i].status@ == "True"@
        },
{
}

/// A count that an object's status reports is the integer member of its `status`
/// with that name, within the range; anything else is no count.
pub proof fn law_status_integer_is_a_member(
    data: json::JsonView,
    field: Seq<char>,
    low: int,
    high: int,
    count: int,
)
    ensures
        workload::status_integer(data, field, low, high) == Some(count) <==> low <= count <= high
            && (data.get("status"@) matches Some(status) && status.get(field) == Some(
            json::JsonView::Number(json::NumberView::Integer(count)),
        )),
{
}

/// An object's status is current exactly where the object has a generation and its
/// status says that this one was observed.
pub proof fn law_status_is_current_exactly(object: DynamicObject)
    ensures
        workload::status_is_current(object) <==> (object.metadata.generation matches Some(
            generation,
        ) && object.data@.get("status"@) matches Some(status) && status.get("observedGeneration"@)
            == Some(json::JsonView::Number(json::NumberView::Integer(generation as int)))),
{
}

/// An object is ready at its generation exactly where it has one and its status has
/// a list of conditions, one of which is of type `Ready`, is `True` and was observed
/// at this generation.
pub proof fn law_ready_at_generation_exactly(object: DynamicObject)
    ensures
        workload::ready_at_generation(object) <==> (object.metadata.generation matches Some(
            generation,
        ) && object.data@.get("status"@) matches Some(status) && status.get("conditions"@) matches Some(
            json::JsonView::Array(conditions),
        ) && exists|i: int|
            0 <= i < conditions.len() && {
                let condition = #[trigger] conditions[i];
                &&& condition.get("type"@) == Some(json::JsonView::Text("Ready"@))
                &&& condition.get("status"@) == Some(json::JsonView::Text("True"@))
                &&& condition.get("observedGeneration"@) == Some(
                    json::JsonView::Number(json::NumberView::Integer(generation as int)),
                )
            }),
{
    if let Some(generation) = object.metadata.generation {
        if let Some(status) = object.data@.get("status"@) {
            if let Some(json::JsonView::Array(conditions)) = status.get("conditions"@) {
                assert forall|i: int| 0 <= i < conditions.len() implies workload::ready_condition(
                    #[trigger] conditions[i],
                    generation,
                ) == {
                    let condition = conditions[i];
                    &&& condition.get("type"@) == Some(json::JsonView::Text("Ready"@))
                    &&& condition.get("status"@) == Some(json::JsonView::Text("True"@))
                    &&& condition.get("observedGeneration"@) == Some(
                        json::JsonView::Number(json::NumberView::Integer(generation as int)),
                    )
                } by {}
            }
        }
    }
}

/// The strict policy of a template applies to the Pods with the template's label
/// and to both directions. It lets in the router of the sandbox system and nothing
/// else, and lets out to public addresses only: to every address of either family
/// but the private, local and link-local ones.
pub proof fn law_strict_policy_is_strict(template_name: Seq<char>)
    ensures
        ({
            let policy = workload::strict_policy(template_name);
            &&& policy.pod_selector matches Some(selector) && selector.match_expressions is None
                && selector.match_labels == Some(
                seq![
                    (
                        "agents.x-k8s.io/sandbox-template-ref-hash"@,
                        names::name_hash(template_name),
                    ),
                ],
            )
            &&& policy.policy_types == Some(seq!["Ingress"@, "Egress"@])
            &&& policy.ingress matches Some(rules)
            &&& rules.len() == 1
            &&& rules[0].ports is None
            &&& rules[0].peers matches Some(sources)
            &&& sources.len() == 1
            &&& sources[0].ip_block is None
            &&& sources[0].namespace_selector matches Some(namespaces)
            &&& namespaces.match_expressions is None
            &&& namespaces.match_labels == Some(
                seq![("kubernetes.io/metadata.name"@, "agent-sandbox-system"@)],
            )
            &&& sources[0].pod_selector matches Some(pods)
            &&& pods.match_expressions is None
            &&& pods.match_labels == Some(seq![("app"@, "sandbox-router"@)])
            &&& policy.egress matches Some(ways)
            &&& ways.len() == 1
            &&& ways[0].ports is None
            &&& ways[0].peers matches Some(targets)
            &&& targets.len() == 2
            &&& targets[0].namespace_selector is None
            &&& targets[0].pod_selector is None
            &&& targets[0].ip_block matches Some(block)
            &&& block.cidr == "0.0.0.0/0"@
            &&& block.except == Some(
                seq!["10.0.0.0/8"@, "172.16.0.0/12"@, "192.168.0.0/16"@, "169.254.0.0/16"@],
            )
            &&& targets[1].namespace_selector is None
            &&& targets[1].pod_selector is None
            &&& targets[1].ip_block matches Some(range)
            &&& range.cidr == "::/0"@
            &&& range.except == Some(seq!["fc00::/7"@, "fe80::/10"@])
        }),
{
}

} // verus!
