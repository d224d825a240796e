//! Which sandbox pools are valid, said of their fields.

use crate::crd::sandbox::{
    self, SandboxContainerSpec, SandboxIsolation, SandboxPlacement, SandboxPoolSpec,
    SandboxPoolValidationError, SandboxPortSpec,
};
use crate::text;
use vstd::prelude::*;

verus! {

/// A pool that validates meets every requirement: its durations are named, its warm
/// capacity fits upstream's replica count, it is placed in the management cluster or
/// in the clusters of a pool that is named, its template has containers and links
/// that hold together, a hardened tier names its runtime class, and the canary has
/// arguments, none of them empty, and a time limit.
pub proof fn law_valid_pool_meets_every_requirement(
    spec: SandboxPoolSpec,
    result: Result<(), SandboxPoolValidationError>,
)
    requires
        sandbox::reported_fault(result) == spec.fault(),
        result is Ok,
    ensures
        !text::is_blank(spec.default_ttl@),
        !text::is_blank(spec.max_ttl@),
        !text::is_blank(spec.provisioning_timeout@),
        spec.warm_capacity <= 0x7fff_ffff,
        spec.placement matches SandboxPlacement::ChildCluster { cluster_pool_ref } ==> !text::is_blank(
            cluster_pool_ref@,
        ),
        spec.template.containers@.len() > 0,
        forall|i: int|
            0 <= i < spec.template.containers@.len() ==> {
                let container = #[trigger] spec.template.containers@[i];
                &&& !text::is_blank(container.name@)
                &&& !text::is_blank(container.image@)
                &&& !text::is_blank(container.resources.requests.cpu@)
                &&& !text::is_blank(container.resources.requests.memory@)
                &&& !text::is_blank(container.resources.requests.ephemeral_storage@)
                &&& !text::is_blank(container.resources.limits.cpu@)
                &&& !text::is_blank(container.resources.limits.memory@)
                &&& !text::is_blank(container.resources.limits.ephemeral_storage@)
            },
        forall|i: int, j: int|
            0 <= i < j < spec.template.containers@.len() ==> (
            #[trigger] spec.template.containers@[i]).name@ != (
            #[trigger] spec.template.containers@[j]).name@,
        exists|i: int|
            0 <= i < spec.template.containers@.len() && (
            #[trigger] spec.template.containers@[i]).name@ == spec.template.default_container@,
        forall|i: int|
            0 <= i < spec.template.exposed_ports@.len() ==> {
                let port = #[trigger] spec.template.exposed_ports@[i];
                &&& !text::is_blank(port.name@)
                &&& port.port > 0
                &&& exists|k: int|
                    0 <= k < spec.template.containers@.len() && (
                    #[trigger] spec.template.containers@[k]).name@ == port.container@
            },
        forall|i: int, j: int|
            0 <= i < j < spec.template.exposed_ports@.len() ==> {
                let first = #[trigger] spec.template.exposed_ports@[i];
                let second = #[trigger] spec.template.exposed_ports@[j];
                first.name@ != second.name@ && (first.container@ != second.container@ || first.port
                    != second.port)
            },
        spec.isolation matches SandboxIsolation::Gvisor { runtime_class_name } ==> !text::is_blank(
            runtime_class_name@,
        ),
        spec.isolation matches SandboxIsolation::Kata { runtime_class_name } ==> !text::is_blank(
            runtime_class_name@,
        ),
        spec.readiness.canary.argv@.len() > 0,
        forall|i: int|
            0 <= i < spec.readiness.canary.argv@.len() ==> (
            #[trigger] spec.readiness.canary.argv@[i])@.len() > 0,
        !text::is_blank(spec.readiness.canary.timeout@),
{
    let containers = spec.template.containers@;
    let ports = spec.template.exposed_ports@;
    assert forall|i: int| 0 <= i < containers.len() implies sandbox::container_fault(
        containers,
        i,
    ) is None && !sandbox::container_named(containers, i, (#[trigger] containers[i]).name@) by {
        sandbox::lemma_no_container_fault(containers, 0, i);
    }
    assert forall|i: int, j: int| 0 <= i < j < containers.len() implies (
    #[trigger] containers[i]).name@ != (#[trigger] containers[j]).name@ by {
        assert(!sandbox::container_named(containers, j, containers[j].name@));
    }
    assert forall|i: int| 0 <= i < ports.len() implies sandbox::port_fault(
        containers,
        ports,
        i,
    ) is None && !sandbox::port_named(ports, i, (#[trigger] ports[i]).name@)
        && !sandbox::port_targeted(ports, i, ports[i].container@, ports[i].port) by {
        sandbox::lemma_no_port_fault(containers, ports, 0, i);
    }
    assert forall|i: int, j: int| 0 <= i < j < ports.len() implies {
        let first = #[trigger] ports[i];
        let second = #[trigger] ports[j];
        first.name@ != second.name@ && (first.container@ != second.container@ || first.port
            != second.port)
    } by {
        assert(!sandbox::port_named(ports, j, ports[j].name@));
        assert(!sandbox::port_targeted(ports, j, ports[j].container@, ports[j].port));
    }
    assert(!sandbox::argv_incomplete(spec.readiness.canary.argv@));
}

proof fn lemma_no_fault_in_containers(containers: Seq<SandboxContainerSpec>, i: int)
    requires
        0 <= i <= containers.len(),
        forall|k: int|
            0 <= k < containers.len() ==> sandbox::container_fault(containers, k) is None,
    ensures
        sandbox::containers_fault(containers, i) is None,
    decreases containers.len() - i,
{
    if i < containers.len() {
        lemma_no_fault_in_containers(containers, i + 1);
    }
}

proof fn lemma_no_fault_in_ports(
    containers: Seq<SandboxContainerSpec>,
    ports: Seq<SandboxPortSpec>,
    i: int,
)
    requires
        0 <= i <= ports.len(),
        forall|k: int|
            0 <= k < ports.len() ==> sandbox::port_fault(containers, ports, k) is None,
    ensures
        sandbox::ports_fault(containers, ports, i) is None,
    decreases ports.len() - i,
{
    if i < ports.len() {
        lemma_no_fault_in_ports(containers, ports, i + 1);
    }
}

/// A pool that meets every requirement validates, whether it is placed in the
/// management cluster or in the clusters of a named pool, and whichever its tier.
pub proof fn law_pool_that_meets_every_requirement_is_valid(
    spec: SandboxPoolSpec,
    result: Result<(), SandboxPoolValidationError>,
)
    requires
        sandbox::reported_fault(result) == spec.fault(),
        !text::is_blank(spec.default_ttl@),
        !text::is_blank(spec.max_ttl@),
        !text::is_blank(spec.provisioning_timeout@),
        spec.warm_capacity <= 0x7fff_ffff,
        spec.placement matches SandboxPlacement::ChildCluster { cluster_pool_ref } ==> !text::is_blank(
            cluster_pool_ref@,
        ),
        spec.template.containers@.len() > 0,
        forall|i: int|
            0 <= i < spec.template.containers@.len() ==> {
                let container = #[trigger] spec.template.containers@[i];
                &&& !text::is_blank(container.name@)
                &&& !text::is_blank(container.image@)
                &&& !text::is_blank(container.resources.requests.cpu@)
                &&& !text::is_blank(container.resources.requests.memory@)
                &&& !text::is_blank(container.resources.requests.ephemeral_storage@)
                &&& !text::is_blank(container.resources.limits.cpu@)
                &&& !text::is_blank(container.resources.limits.memory@)
                &&& !text::is_blank(container.resources.limits.ephemeral_storage@)
            },
        forall|i: int, j: int|
            0 <= i < j < spec.template.containers@.len() ==> (
            #[trigger] spec.template.containers@[i]).name@ != (
            #[trigger] spec.template.containers@[j]).name@,
        exists|i: int|
            0 <= i < spec.template.containers@.len() && (
            #[trigger] spec.template.containers@[i]).name@ == spec.template.default_container@,
        forall|i: int|
            0 <= i < spec.template.exposed_ports@.len() ==> {
                let port = #[trigger] spec.template.exposed_ports@[i];
                &&& !text::is_blank(port.name@)
                &&& port.port > 0
                &&& exists|k: int|
                    0 <= k < spec.template.containers@.len() && (
                    #[trigger] spec.template.containers@[k]).name@ == port.container@
            },
        forall|i: int, j: int|
            0 <= i < j < spec.template.exposed_ports@.len() ==> {
                let first = #[trigger] spec.template.exposed_ports@[i];
                let second = #[trigger] spec.template.exposed_ports@[j];
                first.name@ != second.name@ && (first.container@ != second.container@ || first.port
                    != second.port)
            },
        spec.isolation matches SandboxIsolation::Gvisor { runtime_class_name } ==> !text::is_blank(
            runtime_class_name@,
        ),
        spec.isolation matches SandboxIsolation::Kata { runtime_class_name } ==> !text::is_blank(
            runtime_class_name@,
        ),
        spec.readiness.canary.argv@.len() > 0,
        forall|i: int|
            0 <= i < spec.readiness.canary.argv@.len() ==> (
            #[trigger] spec.readiness.canary.argv@[i])@.len() > 0,
        !text::is_blank(spec.readiness.canary.timeout@),
    ensures
        result is Ok,
{
    let containers = spec.template.containers@;
    let ports = spec.template.exposed_ports@;
    assert forall|k: int| 0 <= k < containers.len() implies sandbox::container_fault(
        containers,
        k,
    ) is None by {
        let container = containers[k];
        assert(!sandbox::container_named(containers, k, container.name@));
    }
    lemma_no_fault_in_containers(containers, 0);
    assert forall|k: int| 0 <= k < ports.len() implies sandbox::port_fault(
        containers,
        ports,
        k,
    ) is None by {
        let port = ports[k];
        assert(!sandbox::port_named(ports, k, port.name@));
        assert(!sandbox::port_targeted(ports, k, port.container@, port.port));
    }
    lemma_no_fault_in_ports(containers, ports, 0);
    assert(!sandbox::argv_incomplete(spec.readiness.canary.argv@));
}

proof fn lemma_container_fault_is_found(
    containers: Seq<SandboxContainerSpec>,
    i: int,
) -> (k: int)
    requires
        sandbox::containers_fault(containers, i) is Some,
        0 <= i,
    ensures
        i <= k < containers.len(),
        sandbox::container_fault(containers, k) == sandbox::containers_fault(containers, i),
    decreases containers.len() - i,
{
    if sandbox::container_fault(containers, i) is Some {
        i
    } else {
        lemma_container_fault_is_found(containers, i + 1)
    }
}

proof fn lemma_port_fault_is_found(
    containers: Seq<SandboxContainerSpec>,
    ports: Seq<SandboxPortSpec>,
    i: int,
) -> (k: int)
    requires
        sandbox::ports_fault(containers, ports, i) is Some,
        0 <= i,
    ensures
        i <= k < ports.len(),
        sandbox::port_fault(containers, ports, k) == sandbox::ports_fault(containers, ports, i),
    decreases ports.len() - i,
{
    if sandbox::port_fault(containers, ports, i) is Some {
        i
    } else {
        lemma_port_fault_is_found(containers, ports, i + 1)
    }
}

/// What is wrong with the pool as a whole is reported before anything in its
/// template: the first duration that is not named, then too large a warm capacity,
/// then a child cluster placement that names no pool, then a template without
/// containers. What is reported is really wrong.
pub proof fn law_pool_faults_come_first(
    spec: SandboxPoolSpec,
    result: Result<(), SandboxPoolValidationError>,
)
    requires
        sandbox::reported_fault(result) == spec.fault(),
    ensures
        (result matches Err(SandboxPoolValidationError::EmptyDuration(field)) && field@
            == "defaultTtl"@) <==> text::is_blank(spec.default_ttl@),
        text::is_blank(spec.max_ttl@) && !text::is_blank(spec.default_ttl@) ==> (result matches Err(
            SandboxPoolValidationError::EmptyDuration(field),
        ) && field@ == "maxTtl"@),
        text::is_blank(spec.provisioning_timeout@) && !text::is_blank(spec.default_ttl@)
            && !text::is_blank(spec.max_ttl@) ==> (result matches Err(
            SandboxPoolValidationError::EmptyDuration(field),
        ) && field@ == "provisioningTimeout"@),
        result matches Err(SandboxPoolValidationError::EmptyDuration(_)) ==> text::is_blank(
            spec.default_ttl@,
        ) || text::is_blank(spec.max_ttl@) || text::is_blank(spec.provisioning_timeout@),
        !text::is_blank(spec.default_ttl@) && !text::is_blank(spec.max_ttl@) && !text::is_blank(
            spec.provisioning_timeout@,
        ) ==> {
            &&& (result matches Err(SandboxPoolValidationError::WarmCapacityTooLarge))
                <==> spec.warm_capacity > 0x7fff_ffff
            &&& spec.warm_capacity <= 0x7fff_ffff ==> {
                &&& (result matches Err(SandboxPoolValidationError::EmptyClusterPoolRef)) <==> (
                spec.placement matches SandboxPlacement::ChildCluster { cluster_pool_ref }
                    && text::is_blank(cluster_pool_ref@))
                &&& !(result matches Err(SandboxPoolValidationError::EmptyClusterPoolRef)) ==> ((
                result matches Err(SandboxPoolValidationError::NoContainers))
                    <==> spec.template.containers@.len() == 0)
            }
        },
{
    reveal_strlit("defaultTtl");
    reveal_strlit("maxTtl");
    reveal_strlit("provisioningTimeout");
    assert("defaultTtl"@.len() == 10);
    assert("maxTtl"@.len() == 6);
    assert("provisioningTimeout"@.len() == 19);
    if let Some(fault) = spec.fault() {
        if spec.template.containers@.len() > 0 {
            let containers = spec.template.containers@;
            if sandbox::containers_fault(containers, 0) is Some {
                let k = lemma_container_fault_is_found(containers, 0);
            } else if sandbox::ports_fault(containers, spec.template.exposed_ports@, 0) is Some {
                let k = lemma_port_fault_is_found(containers, spec.template.exposed_ports@, 0);
            }
        }
    }
}

/// What is reported of a template or of the readiness requirements is really
/// wrong with the container, the port or the requirement that it names.
pub proof fn law_template_faults_are_real(
    spec: SandboxPoolSpec,
    result: Result<(), SandboxPoolValidationError>,
)
    requires
        sandbox::reported_fault(result) == spec.fault(),
    ensures
        result matches Err(SandboxPoolValidationError::EmptyContainerName) ==> exists|i: int|
            0 <= i < spec.template.containers@.len() && text::is_blank(
                (#[trigger] spec.template.containers@[i]).name@,
            ),
        result matches Err(SandboxPoolValidationError::DuplicateContainer(name)) ==> exists|
            i: int,
            j: int,
        |
            0 <= i < j < spec.template.containers@.len() && (
            #[trigger] spec.template.containers@[i]).name@ == name@ && (
            #[trigger] spec.template.containers@[j]).name@ == name@,
        result matches Err(SandboxPoolValidationError::EmptyContainerImage(name)) ==> exists|i: int|
            0 <= i < spec.template.containers@.len() && (
            #[trigger] spec.template.containers@[i]).name@ == name@ && text::is_blank(
                spec.template.containers@[i].image@,
            ),
        result matches Err(SandboxPoolValidationError::EmptyResource { container, field })
            ==> exists|i: int|
            0 <= i < spec.template.containers@.len() && {
                let found = #[trigger] spec.template.containers@[i];
                &&& found.name@ == container@
                &&& {
                    ||| field@ == "requests.cpu"@ && text::is_blank(found.resources.requests.cpu@)
                    ||| field@ == "requests.memory"@ && text::is_blank(
                        found.resources.requests.memory@,
                    )
                    ||| field@ == "requests.ephemeralStorage"@ && text::is_blank(
                        found.resources.requests.ephemeral_storage@,
                    )
                    ||| field@ == "limits.cpu"@ && text::is_blank(found.resources.limits.cpu@)
                    ||| field@ == "limits.memory"@ && text::is_blank(found.resources.limits.memory@)
                    ||| field@ == "limits.ephemeralStorage"@ && text::is_blank(
                        found.resources.limits.ephemeral_storage@,
                    )
                }
            },
        result matches Err(SandboxPoolValidationError::UnknownDefaultContainer(name)) ==> {
            &&& name@ == spec.template.default_container@
            &&& forall|i: int|
                0 <= i < spec.template.containers@.len() ==> (
                #[trigger] spec.template.containers@[i]).name@ != name@
        },
        result matches Err(SandboxPoolValidationError::EmptyPortName) ==> exists|i: int|
            0 <= i < spec.template.exposed_ports@.len() && text::is_blank(
                (#[trigger] spec.template.exposed_ports@[i]).name@,
            ),
        result matches Err(SandboxPoolValidationError::DuplicatePortName(name)) ==> exists|
            i: int,
            j: int,
        |
            0 <= i < j < spec.template.exposed_ports@.len() && (
            #[trigger] spec.template.exposed_ports@[i]).name@ == name@ && (
            #[trigger] spec.template.exposed_ports@[j]).name@ == name@,
        result matches Err(SandboxPoolValidationError::ZeroPort(name)) ==> exists|i: int|
            0 <= i < spec.template.exposed_ports@.len() && (
            #[trigger] spec.template.exposed_ports@[i]).name@ == name@
                && spec.template.exposed_ports@[i].port == 0,
        result matches Err(SandboxPoolValidationError::UnknownPortContainer { port, container })
            ==> (exists|i: int|
            0 <= i < spec.template.exposed_ports@.len() && (
            #[trigger] spec.template.exposed_ports@[i]).name@ == port@
                && spec.template.exposed_ports@[i].container@ == container@) && forall|i: int|
            0 <= i < spec.template.containers@.len() ==> (
            #[trigger] spec.template.containers@[i]).name@ != container@,
        result matches Err(SandboxPoolValidationError::DuplicateContainerPort { container, port })
            ==> exists|i: int, j: int|
            0 <= i < j < spec.template.exposed_ports@.len() && {
                let first = #[trigger] spec.template.exposed_ports@[i];
                let second = #[trigger] spec.template.exposed_ports@[j];
                first.container@ == container@ && second.container@ == container@ && first.port
                    == port && second.port == port
            },
        result matches Err(SandboxPoolValidationError::EmptyRuntimeClass) ==> match spec.isolation {
            SandboxIsolation::TrustedRunc {  } => false,
            SandboxIsolation::Gvisor { runtime_class_name } => text::is_blank(runtime_class_name@),
            SandboxIsolation::Kata { runtime_class_name } => text::is_blank(runtime_class_name@),
        },
        result matches Err(SandboxPoolValidationError::EmptyCanaryArgv)
            ==> spec.readiness.canary.argv@.len() == 0 || exists|i: int|
            0 <= i < spec.readiness.canary.argv@.len() && (
            #[trigger] spec.readiness.canary.argv@[i])@.len() == 0,
        result matches Err(SandboxPoolValidationError::EmptyCanaryTimeout) ==> text::is_blank(
            spec.readiness.canary.timeout@,
        ),
{
    if let Some(fault) = spec.fault() {
        let containers = spec.template.containers@;
        let ports = spec.template.exposed_ports@;
        if containers.len() > 0 {
            if sandbox::containers_fault(containers, 0) is Some {
                let k = lemma_container_fault_is_found(containers, 0);
                let container = containers[k];
                if sandbox::container_named(containers, k, container.name@) {
                    let i = choose|i: int|
                        0 <= i < k && (#[trigger] containers[i]).name@ == container.name@;
                    assert(containers[i].name@ == containers[k].name@);
                }
            } else if sandbox::ports_fault(containers, ports, 0) is Some {
                let k = lemma_port_fault_is_found(containers, ports, 0);
                let port = ports[k];
                if sandbox::port_named(ports, k, port.name@) {
                    let i = choose|i: int| 0 <= i < k && (#[trigger] ports[i]).name@ == port.name@;
                    assert(ports[i].name@ == ports[k].name@);
                }
                if sandbox::port_targeted(ports, k, port.container@, port.port) {
                    let i = choose|i: int|
                        0 <= i < k && (#[trigger] ports[i]).container@ == port.container@
                            && ports[i].port == port.port;
                    assert(ports[i].container@ == ports[k].container@);
                }
            }
        }
    }
}

} // verus!
