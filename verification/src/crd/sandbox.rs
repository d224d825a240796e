//! Sandbox pools and leases: a small, bounded surface over upstream sandbox capacity.

use crate::crd::receipt::TeardownEvidenceReference;
use crate::number::{self, decimal_text};
use crate::text::{self, blank, concat, concat3, same_opt_text, same_text};
use vstd::prelude::*;
use vstd::string::*;

verus! {

/// Administrator-owned class of sandbox capacity.
#[derive(Debug, Clone, PartialEq, Eq)]
pub struct SandboxPoolSpec {
    /// Unclaimed sandboxes to keep warm.
    pub warm_capacity: u32,
    /// Time to live of a lease that names none.
    pub default_ttl: String,
    /// Longest time to live that the pool accepts.
    pub max_ttl: String,
    /// Bound on placement and provisioning.
    pub provisioning_timeout: String,
    pub placement: SandboxPlacement,
    pub template: SandboxTemplateSpec,
    pub isolation: SandboxIsolation,
    pub readiness: SandboxReadinessRequirements,
}

/// Where a sandbox pool is reconciled.
#[derive(Debug, Clone, PartialEq, Eq)]
pub enum SandboxPlacement {
    /// In the management cluster.
    Management {},
    /// In a child cluster of this pool.
    ChildCluster { cluster_pool_ref: String },
}

/// Restricted template of one sandbox Pod.
#[derive(Debug, Clone, PartialEq, Eq)]
pub struct SandboxTemplateSpec {
    /// Container that executions select by default.
    pub default_container: String,
    pub containers: Vec<SandboxContainerSpec>,
    /// Ports that may be exposed.
    pub exposed_ports: Vec<SandboxPortSpec>,
    /// Path of the runner in the default container.
    pub runner_path: Option<String>,
}

/// One container of a template.
#[derive(Debug, Clone, PartialEq, Eq)]
pub struct SandboxContainerSpec {
    pub name: String,
    pub image: String,
    pub command: Vec<String>,
    pub args: Vec<String>,
    pub resources: SandboxContainerResources,
}

/// Requests and limits of a container.
#[derive(Debug, Clone, PartialEq, Eq)]
pub struct SandboxContainerResources {
    pub requests: SandboxResourceQuantity,
    pub limits: SandboxResourceQuantity,
}

/// One set of Kubernetes quantities.
#[derive(Debug, Clone, PartialEq, Eq)]
pub struct SandboxResourceQuantity {
    pub cpu: String,
    pub memory: String,
    pub ephemeral_storage: String,
}

/// Ceiling on one sandbox's resources.
#[derive(Debug, Clone, PartialEq, Eq)]
pub struct SandboxResourceCeiling {
    pub max_cpu: String,
    pub max_memory: String,
}

/// One TCP port that may be forwarded.
#[derive(Debug, Clone, PartialEq, Eq)]
pub struct SandboxPortSpec {
    pub name: String,
    pub container: String,
    pub port: u16,
}

/// How workloads are isolated. A hardened tier names its runtime class; the
/// trusted one cannot.
#[derive(Debug, Clone, PartialEq, Eq)]
pub enum SandboxIsolation {
    TrustedRunc {},
    Gvisor { runtime_class_name: String },
    Kata { runtime_class_name: String },
}

impl SandboxIsolation {
    /// The runtime class of a hardened tier.
    pub open spec fn runtime_class_text(self) -> Option<Seq<char>> {
        match self {
            SandboxIsolation::TrustedRunc {  } => None,
            SandboxIsolation::Gvisor { runtime_class_name } => Some(runtime_class_name@),
            SandboxIsolation::Kata { runtime_class_name } => Some(runtime_class_name@),
        }
    }

    /// The runtime class of a hardened tier.
    pub fn runtime_class_name(&self) -> (name: Option<&str>)
        ensures
            match name {
                Some(name) => self.runtime_class_text() == Some(name@),
                None => self.runtime_class_text() is None,
            },
    {
        match self {
            SandboxIsolation::TrustedRunc {  } => None,
            SandboxIsolation::Gvisor { runtime_class_name } => Some(runtime_class_name.as_str()),
            SandboxIsolation::Kata { runtime_class_name } => Some(runtime_class_name.as_str()),
        }
    }

    /// Whether this is the trusted tier.
    pub open spec fn trusted(self) -> bool {
        self is TrustedRunc
    }

    /// Whether this is the trusted tier.
    pub fn is_trusted_runc(&self) -> (result: bool)
        ensures
            result == (self is TrustedRunc),
            result == self.trusted(),
    {
        match self {
            SandboxIsolation::TrustedRunc {  } => true,
            _ => false,
        }
    }
}

/// What readiness asks of a pool.
#[derive(Debug, Clone, PartialEq, Eq)]
pub struct SandboxReadinessRequirements {
    pub canary: SandboxExecutionCanary,
}

/// A command that must succeed in the pool's capacity; it may be run again.
#[derive(Debug, Clone, PartialEq, Eq)]
pub struct SandboxExecutionCanary {
    pub argv: Vec<String>,
    pub timeout: String,
}

/// What is wrong with a pool.
#[derive(Debug, Clone, PartialEq, Eq)]
pub enum SandboxPoolValidationError {
    EmptyDuration(&'static str),
    WarmCapacityTooLarge,
    EmptyClusterPoolRef,
    NoContainers,
    EmptyContainerName,
    DuplicateContainer(String),
    EmptyContainerImage(String),
    EmptyResource { container: String, field: &'static str },
    UnknownDefaultContainer(String),
    EmptyPortName,
    DuplicatePortName(String),
    ZeroPort(String),
    UnknownPortContainer { port: String, container: String },
    DuplicateContainerPort { container: String, port: u16 },
    EmptyRuntimeClass,
    EmptyCanaryArgv,
    EmptyCanaryTimeout,
}

/// What a validation error says.
pub enum PoolFault {
    EmptyDuration(Seq<char>),
    WarmCapacityTooLarge,
    EmptyClusterPoolRef,
    NoContainers,
    EmptyContainerName,
    DuplicateContainer(Seq<char>),
    EmptyContainerImage(Seq<char>),
    EmptyResource { container: Seq<char>, field: Seq<char> },
    UnknownDefaultContainer(Seq<char>),
    EmptyPortName,
    DuplicatePortName(Seq<char>),
    ZeroPort(Seq<char>),
    UnknownPortContainer { port: Seq<char>, container: Seq<char> },
    DuplicateContainerPort { container: Seq<char>, port: u16 },
    EmptyRuntimeClass,
    EmptyCanaryArgv,
    EmptyCanaryTimeout,
}

impl View for SandboxPoolValidationError {
    type V = PoolFault;

    open spec fn view(&self) -> PoolFault {
        match *self {
            SandboxPoolValidationError::EmptyDuration(field) => PoolFault::EmptyDuration(field@),
            SandboxPoolValidationError::WarmCapacityTooLarge => PoolFault::WarmCapacityTooLarge,
            SandboxPoolValidationError::EmptyClusterPoolRef => PoolFault::EmptyClusterPoolRef,
            SandboxPoolValidationError::NoContainers => PoolFault::NoContainers,
            SandboxPoolValidationError::EmptyContainerName => PoolFault::EmptyContainerName,
            SandboxPoolValidationError::DuplicateContainer(name) => PoolFault::DuplicateContainer(
                name@,
            ),
            SandboxPoolValidationError::EmptyContainerImage(name) => PoolFault::EmptyContainerImage(
                name@,
            ),
            SandboxPoolValidationError::EmptyResource { container, field } =>
                PoolFault::EmptyResource { container: container@, field: field@ },
            SandboxPoolValidationError::UnknownDefaultContainer(name) =>
                PoolFault::UnknownDefaultContainer(name@),
            SandboxPoolValidationError::EmptyPortName => PoolFault::EmptyPortName,
            SandboxPoolValidationError::DuplicatePortName(name) => PoolFault::DuplicatePortName(
                name@,
            ),
            SandboxPoolValidationError::ZeroPort(name) => PoolFault::ZeroPort(name@),
            SandboxPoolValidationError::UnknownPortContainer { port, container } =>
                PoolFault::UnknownPortContainer { port: port@, container: container@ },
            SandboxPoolValidationError::DuplicateContainerPort { container, port } =>
                PoolFault::DuplicateContainerPort { container: container@, port },
            SandboxPoolValidationError::EmptyRuntimeClass => PoolFault::EmptyRuntimeClass,
            SandboxPoolValidationError::EmptyCanaryArgv => PoolFault::EmptyCanaryArgv,
            SandboxPoolValidationError::EmptyCanaryTimeout => PoolFault::EmptyCanaryTimeout,
        }
    }
}

impl PoolFault {
    /// The fault in words.
    pub open spec fn message_text(self) -> Seq<char> {
        match self {
            PoolFault::EmptyDuration(field) => field + " must not be empty"@,
            PoolFault::WarmCapacityTooLarge => "warmCapacity exceeds upstream int32 replicas"@,
            PoolFault::EmptyClusterPoolRef =>
                "childCluster placement requires a non-empty clusterPoolRef"@,
            PoolFault::NoContainers => "template must contain at least one container"@,
            PoolFault::EmptyContainerName => "container name must not be empty"@,
            PoolFault::DuplicateContainer(name) => "duplicate container name "@ + name,
            PoolFault::EmptyContainerImage(name) => "container "@ + name + " has an empty image"@,
            PoolFault::EmptyResource { container, field } => "container "@ + container
                + " has an empty "@ + field + " resource quantity"@,
            PoolFault::UnknownDefaultContainer(name) => "default container "@ + name
                + " is not declared"@,
            PoolFault::EmptyPortName => "port name must not be empty"@,
            PoolFault::DuplicatePortName(name) => "duplicate port name "@ + name,
            PoolFault::ZeroPort(name) => "port "@ + name + " must be in the range 1-65535"@,
            PoolFault::UnknownPortContainer { port, container } => "port "@ + port
                + " references undeclared container "@ + container,
            PoolFault::DuplicateContainerPort { container, port } => "container "@ + container
                + " exposes port "@ + number::decimal(port as nat) + " more than once"@,
            PoolFault::EmptyRuntimeClass =>
                "hardened isolation requires a non-empty runtimeClassName"@,
            PoolFault::EmptyCanaryArgv => "readiness canary argv must contain non-empty arguments"@,
            PoolFault::EmptyCanaryTimeout => "readiness canary timeout must not be empty"@,
        }
    }
}

impl SandboxPoolValidationError {
    /// The error in words.
    pub fn message(&self) -> (message: String)
        ensures
            message@ == self@.message_text(),
    {
        match self {
            SandboxPoolValidationError::EmptyDuration(field) => concat(field, " must not be empty"),
            SandboxPoolValidationError::WarmCapacityTooLarge => {
                "warmCapacity exceeds upstream int32 replicas".to_owned()
            },
            SandboxPoolValidationError::EmptyClusterPoolRef => {
                "childCluster placement requires a non-empty clusterPoolRef".to_owned()
            },
            SandboxPoolValidationError::NoContainers => {
                "template must contain at least one container".to_owned()
            },
            SandboxPoolValidationError::EmptyContainerName => {
                "container name must not be empty".to_owned()
            },
            SandboxPoolValidationError::DuplicateContainer(name) => {
                concat("duplicate container name ", name.as_str())
            },
            SandboxPoolValidationError::EmptyContainerImage(name) => {
                concat3("container ", name.as_str(), " has an empty image")
            },
            SandboxPoolValidationError::EmptyResource { container, field } => {
                let head = concat3("container ", container.as_str(), " has an empty ");
                concat3(head.as_str(), field, " resource quantity")
            },
            SandboxPoolValidationError::UnknownDefaultContainer(name) => {
                concat3("default container ", name.as_str(), " is not declared")
            },
            SandboxPoolValidationError::EmptyPortName => "port name must not be empty".to_owned(),
            SandboxPoolValidationError::DuplicatePortName(name) => {
                concat("duplicate port name ", name.as_str())
            },
            SandboxPoolValidationError::ZeroPort(name) => {
                concat3("port ", name.as_str(), " must be in the range 1-65535")
            },
            SandboxPoolValidationError::UnknownPortContainer { port, container } => {
                let head = concat3("port ", port.as_str(), " references undeclared container ");
                concat(head.as_str(), container.as_str())
            },
            SandboxPoolValidationError::DuplicateContainerPort { container, port } => {
                let head = concat3("container ", container.as_str(), " exposes port ");
                let numeral = decimal_text(*port as u64);
                concat3(head.as_str(), numeral.as_str(), " more than once")
            },
            SandboxPoolValidationError::EmptyRuntimeClass => {
                "hardened isolation requires a non-empty runtimeClassName".to_owned()
            },
            SandboxPoolValidationError::EmptyCanaryArgv => {
                "readiness canary argv must contain non-empty arguments".to_owned()
            },
            SandboxPoolValidationError::EmptyCanaryTimeout => {
                "readiness canary timeout must not be empty".to_owned()
            },
        }
    }
}

/// Whether one of the first `count` containers has this name.
pub open spec fn container_named(
    containers: Seq<SandboxContainerSpec>,
    count: int,
    name: Seq<char>,
) -> bool {
    exists|i: int| 0 <= i < count && (#[trigger] containers[i]).name@ == name
}

/// Whether one of the first `count` ports has this name.
pub open spec fn port_named(ports: Seq<SandboxPortSpec>, count: int, name: Seq<char>) -> bool {
    exists|i: int| 0 <= i < count && (#[trigger] ports[i]).name@ == name
}

/// Whether one of the first `count` ports is this port of this container.
pub open spec fn port_targeted(
    ports: Seq<SandboxPortSpec>,
    count: int,
    container: Seq<char>,
    port: u16,
) -> bool {
    exists|i: int|
        0 <= i < count && (#[trigger] ports[i]).container@ == container && ports[i].port == port
}

/// What is wrong with the quantities of a container.
pub open spec fn resources_fault(container: SandboxContainerSpec) -> Option<PoolFault> {
    let name = container.name@;
    let requests = container.resources.requests;
    let limits = container.resources.limits;
    if text::is_blank(requests.cpu@) {
        Some(PoolFault::EmptyResource { container: name, field: "requests.cpu"@ })
    } else if text::is_blank(requests.memory@) {
        Some(PoolFault::EmptyResource { container: name, field: "requests.memory"@ })
    } else if text::is_blank(requests.ephemeral_storage@) {
        Some(PoolFault::EmptyResource { container: name, field: "requests.ephemeralStorage"@ })
    } else if text::is_blank(limits.cpu@) {
        Some(PoolFault::EmptyResource { container: name, field: "limits.cpu"@ })
    } else if text::is_blank(limits.memory@) {
        Some(PoolFault::EmptyResource { container: name, field: "limits.memory"@ })
    } else if text::is_blank(limits.ephemeral_storage@) {
        Some(PoolFault::EmptyResource { container: name, field: "limits.ephemeralStorage"@ })
    } else {
        None
    }
}

/// What is wrong with container `i`, given those before it.
pub open spec fn container_fault(containers: Seq<SandboxContainerSpec>, i: int) -> Option<
    PoolFault,
> {
    let container = containers[i];
    if text::is_blank(container.name@) {
        Some(PoolFault::EmptyContainerName)
    } else if container_named(containers, i, container.name@) {
        Some(PoolFault::DuplicateContainer(container.name@))
    } else if text::is_blank(container.image@) {
        Some(PoolFault::EmptyContainerImage(container.name@))
    } else {
        resources_fault(container)
    }
}

/// The first thing wrong with the containers from `i` on.
pub open spec fn containers_fault(containers: Seq<SandboxContainerSpec>, i: int) -> Option<
    PoolFault,
>
    decreases containers.len() - i,
{
    if i < 0 || i >= containers.len() {
        None
    } else {
        match container_fault(containers, i) {
            Some(fault) => Some(fault),
            None => containers_fault(containers, i + 1),
        }
    }
}

/// What is wrong with port `i`, given those before it.
pub open spec fn port_fault(
    containers: Seq<SandboxContainerSpec>,
    ports: Seq<SandboxPortSpec>,
    i: int,
) -> Option<PoolFault> {
    let port = ports[i];
    if text::is_blank(port.name@) {
        Some(PoolFault::EmptyPortName)
    } else if port_named(ports, i, port.name@) {
        Some(PoolFault::DuplicatePortName(port.name@))
    } else if port.port == 0 {
        Some(PoolFault::ZeroPort(port.name@))
    } else if !container_named(containers, containers.len() as int, port.container@) {
        Some(PoolFault::UnknownPortContainer { port: port.name@, container: port.container@ })
    } else if port_targeted(ports, i, port.container@, port.port) {
        Some(PoolFault::DuplicateContainerPort { container: port.container@, port: port.port })
    } else {
        None
    }
}

/// The first thing wrong with the ports from `i` on.
pub open spec fn ports_fault(
    containers: Seq<SandboxContainerSpec>,
    ports: Seq<SandboxPortSpec>,
    i: int,
) -> Option<PoolFault>
    decreases ports.len() - i,
{
    if i < 0 || i >= ports.len() {
        None
    } else {
        match port_fault(containers, ports, i) {
            Some(fault) => Some(fault),
            None => ports_fault(containers, ports, i + 1),
        }
    }
}

/// Whether a command line names nothing to run or holds an empty argument.
pub open spec fn argv_incomplete(argv: Seq<String>) -> bool {
    argv.len() == 0 || exists|i: int| 0 <= i < argv.len() && (#[trigger] argv[i])@.len() == 0
}

/// What is wrong with a template's links between containers and ports.
pub open spec fn template_fault(template: SandboxTemplateSpec) -> Option<PoolFault> {
    let containers = template.containers@;
    if containers.len() == 0 {
        Some(PoolFault::NoContainers)
    } else {
        match containers_fault(containers, 0) {
            Some(fault) => Some(fault),
            None => if !container_named(
                containers,
                containers.len() as int,
                template.default_container@,
            ) {
                Some(PoolFault::UnknownDefaultContainer(template.default_container@))
            } else {
                ports_fault(containers, template.exposed_ports@, 0)
            },
        }
    }
}

/// What is wrong with isolation and readiness.
pub open spec fn readiness_fault(
    isolation: SandboxIsolation,
    readiness: SandboxReadinessRequirements,
) -> Option<PoolFault> {
    if isolation.runtime_class_text() matches Some(name) && text::is_blank(name) {
        Some(PoolFault::EmptyRuntimeClass)
    } else if argv_incomplete(readiness.canary.argv@) {
        Some(PoolFault::EmptyCanaryArgv)
    } else if text::is_blank(readiness.canary.timeout@) {
        Some(PoolFault::EmptyCanaryTimeout)
    } else {
        None
    }
}

impl SandboxPoolSpec {
    /// The first thing wrong with the pool.
    pub open spec fn fault(self) -> Option<PoolFault> {
        if text::is_blank(self.default_ttl@) {
            Some(PoolFault::EmptyDuration("defaultTtl"@))
        } else if text::is_blank(self.max_ttl@) {
            Some(PoolFault::EmptyDuration("maxTtl"@))
        } else if text::is_blank(self.provisioning_timeout@) {
            Some(PoolFault::EmptyDuration("provisioningTimeout"@))
        } else if self.warm_capacity > i32::MAX {
            Some(PoolFault::WarmCapacityTooLarge)
        } else if self.placement matches SandboxPlacement::ChildCluster { cluster_pool_ref }
            && text::is_blank(cluster_pool_ref@) {
            Some(PoolFault::EmptyClusterPoolRef)
        } else {
            match template_fault(self.template) {
                Some(fault) => Some(fault),
                None => readiness_fault(self.isolation, self.readiness),
            }
        }
    }
}

/// The fault that a result reports.
pub open spec fn reported_fault(result: Result<(), SandboxPoolValidationError>) -> Option<
    PoolFault,
> {
    match result {
        Ok(_) => None,
        Err(error) => Some(error@),
    }
}

fn find_container(containers: &Vec<SandboxContainerSpec>, count: usize, name: &str) -> (found: bool)
    requires
        count <= containers@.len(),
    ensures
        found == container_named(containers@, count as int, name@),
{
    let mut i: usize = 0;
    while i < count
        invariant
            i <= count <= containers@.len(),
            forall|k: int| 0 <= k < i ==> (#[trigger] containers@[k]).name@ != name@,
        decreases count - i,
    {
        if same_text(containers[i].name.as_str(), name) {
            assert(containers@[i as int].name@ == name@);
            return true;
        }
        i = i + 1;
    }
    false
}

fn find_port_name(ports: &Vec<SandboxPortSpec>, count: usize, name: &str) -> (found: bool)
    requires
        count <= ports@.len(),
    ensures
        found == port_named(ports@, count as int, name@),
{
    let mut i: usize = 0;
    while i < count
        invariant
            i <= count <= ports@.len(),
            forall|k: int| 0 <= k < i ==> (#[trigger] ports@[k]).name@ != name@,
        decreases count - i,
    {
        if same_text(ports[i].name.as_str(), name) {
            assert(ports@[i as int].name@ == name@);
            return true;
        }
        i = i + 1;
    }
    false
}

fn find_port_target(
    ports: &Vec<SandboxPortSpec>,
    count: usize,
    container: &str,
    port: u16,
) -> (found: bool)
    requires
        count <= ports@.len(),
    ensures
        found == port_targeted(ports@, count as int, container@, port),
{
    let mut i: usize = 0;
    while i < count
        invariant
            i <= count <= ports@.len(),
            forall|k: int|
                0 <= k < i ==> !((#[trigger] ports@[k]).container@ == container@ && ports@[k].port
                    == port),
        decreases count - i,
    {
        if same_text(ports[i].container.as_str(), container) && ports[i].port == port {
            assert(ports@[i as int].container@ == container@);
            return true;
        }
        i = i + 1;
    }
    false
}

fn check_quantity(container: &SandboxContainerSpec, field: &'static str, value: &str) -> (result:
    Result<(), SandboxPoolValidationError>)
    ensures
        reported_fault(result) == (if text::is_blank(value@) {
            Some(PoolFault::EmptyResource { container: container.name@, field: field@ })
        } else {
            None
        }),
{
    if blank(value) {
        Err(
            SandboxPoolValidationError::EmptyResource { container: container.name.clone(), field },
        )
    } else {
        Ok(())
    }
}

fn check_resources(container: &SandboxContainerSpec) -> (result: Result<
    (),
    SandboxPoolValidationError,
>)
    ensures
        reported_fault(result) == resources_fault(*container),
{
    let requests = &container.resources.requests;
    let limits = &container.resources.limits;
    check_quantity(container, "requests.cpu", requests.cpu.as_str())?;
    check_quantity(container, "requests.memory", requests.memory.as_str())?;
    check_quantity(
        container,
        "requests.ephemeralStorage",
        requests.ephemeral_storage.as_str(),
    )?;
    check_quantity(container, "limits.cpu", limits.cpu.as_str())?;
    check_quantity(container, "limits.memory", limits.memory.as_str())?;
    check_quantity(container, "limits.ephemeralStorage", limits.ephemeral_storage.as_str())
}

fn check_containers(containers: &Vec<SandboxContainerSpec>) -> (result: Result<
    (),
    SandboxPoolValidationError,
>)
    ensures
        reported_fault(result) == containers_fault(containers@, 0),
{
    let mut i: usize = 0;
    while i < containers.len()
        invariant
            i <= containers@.len(),
            containers_fault(containers@, 0) == containers_fault(containers@, i as int),
        decreases containers@.len() - i,
    {
        let container = &containers[i];
        if blank(container.name.as_str()) {
            return Err(SandboxPoolValidationError::EmptyContainerName);
        }
        if find_container(containers, i, container.name.as_str()) {
            return Err(SandboxPoolValidationError::DuplicateContainer(container.name.clone()));
        }
        if blank(container.image.as_str()) {
            return Err(SandboxPoolValidationError::EmptyContainerImage(container.name.clone()));
        }
        let resources = check_resources(container);
        if resources.is_err() {
            return resources;
        }
        i = i + 1;
    }
    Ok(())
}

fn check_ports(containers: &Vec<SandboxContainerSpec>, ports: &Vec<SandboxPortSpec>) -> (result:
    Result<(), SandboxPoolValidationError>)
    ensures
        reported_fault(result) == ports_fault(containers@, ports@, 0),
{
    let mut i: usize = 0;
    while i < ports.len()
        invariant
            i <= ports@.len(),
            ports_fault(containers@, ports@, 0) == ports_fault(containers@, ports@, i as int),
        decreases ports@.len() - i,
    {
        let port = &ports[i];
        if blank(port.name.as_str()) {
            return Err(SandboxPoolValidationError::EmptyPortName);
        }
        if find_port_name(ports, i, port.name.as_str()) {
            return Err(SandboxPoolValidationError::DuplicatePortName(port.name.clone()));
        }
        if port.port == 0 {
            return Err(SandboxPoolValidationError::ZeroPort(port.name.clone()));
        }
        if !find_container(containers, containers.len(), port.container.as_str()) {
            return Err(
                SandboxPoolValidationError::UnknownPortContainer {
                    port: port.name.clone(),
                    container: port.container.clone(),
                },
            );
        }
        if find_port_target(ports, i, port.container.as_str(), port.port) {
            return Err(
                SandboxPoolValidationError::DuplicateContainerPort {
                    container: port.container.clone(),
                    port: port.port,
                },
            );
        }
        i = i + 1;
    }
    Ok(())
}

fn check_template(template: &SandboxTemplateSpec) -> (result: Result<
    (),
    SandboxPoolValidationError,
>)
    ensures
        reported_fault(result) == template_fault(*template),
{
    if template.containers.len() == 0 {
        return Err(SandboxPoolValidationError::NoContainers);
    }
    let containers = check_containers(&template.containers);
    if containers.is_err() {
        return containers;
    }
    if !find_container(
        &template.containers,
        template.containers.len(),
        template.default_container.as_str(),
    ) {
        return Err(
            SandboxPoolValidationError::UnknownDefaultContainer(template.default_container.clone()),
        );
    }
    check_ports(&template.containers, &template.exposed_ports)
}

fn check_argv(argv: &Vec<String>) -> (incomplete: bool)
    ensures
        incomplete == argv_incomplete(argv@),
{
    if argv.len() == 0 {
        return true;
    }
    let mut i: usize = 0;
    while i < argv.len()
        invariant
            i <= argv@.len(),
            forall|k: int| 0 <= k < i ==> (#[trigger] argv@[k])@.len() != 0,
        decreases argv@.len() - i,
    {
        if argv[i].as_str().is_empty() {
            assert(argv@[i as int]@.len() == 0);
            return true;
        }
        i = i + 1;
    }
    false
}

impl SandboxPoolSpec {
    /// Validates the relationships that the shape of the type does not express.
    pub fn validate(&self) -> (result: Result<(), SandboxPoolValidationError>)
        ensures
            reported_fault(result) == self.fault(),
    {
        if blank(self.default_ttl.as_str()) {
            return Err(SandboxPoolValidationError::EmptyDuration("defaultTtl"));
        }
        if blank(self.max_ttl.as_str()) {
            return Err(SandboxPoolValidationError::EmptyDuration("maxTtl"));
        }
        if blank(self.provisioning_timeout.as_str()) {
            return Err(SandboxPoolValidationError::EmptyDuration("provisioningTimeout"));
        }
        if self.warm_capacity > 0x7fff_ffff {
            return Err(SandboxPoolValidationError::WarmCapacityTooLarge);
        }
        match &self.placement {
            SandboxPlacement::ChildCluster { cluster_pool_ref } => {
                if blank(cluster_pool_ref.as_str()) {
                    return Err(SandboxPoolValidationError::EmptyClusterPoolRef);
                }
            },
            SandboxPlacement::Management {  } => {},
        }
        let template = check_template(&self.template);
        if template.is_err() {
            return template;
        }
        match self.isolation.runtime_class_name() {
            Some(runtime_class) => {
                if blank(runtime_class) {
                    return Err(SandboxPoolValidationError::EmptyRuntimeClass);
                }
            },
            None => {},
        }
        if check_argv(&self.readiness.canary.argv) {
            return Err(SandboxPoolValidationError::EmptyCanaryArgv);
        }
        if blank(self.readiness.canary.timeout.as_str()) {
            return Err(SandboxPoolValidationError::EmptyCanaryTimeout);
        }
        Ok(())
    }
}

/// Where no container from `i` on has a fault, container `k` has none.
pub proof fn lemma_no_container_fault(containers: Seq<SandboxContainerSpec>, i: int, k: int)
    requires
        containers_fault(containers, i) is None,
        0 <= i <= k < containers.len(),
    ensures
        container_fault(containers, k) is None,
    decreases k - i,
{
    if i < k {
        lemma_no_container_fault(containers, i + 1, k);
    }
}

/// Where no port from `i` on has a fault, port `k` has none.
pub proof fn lemma_no_port_fault(
    containers: Seq<SandboxContainerSpec>,
    ports: Seq<SandboxPortSpec>,
    i: int,
    k: int,
)
    requires
        ports_fault(containers, ports, i) is None,
        0 <= i <= k < ports.len(),
    ensures
        port_fault(containers, ports, k) is None,
    decreases k - i,
{
    if i < k {
        lemma_no_port_fault(containers, ports, i + 1, k);
    }
}

/// In a valid pool container names are unique and the default container is one
/// of them; every exposed port names a declared container; port names are
/// unique, and so is each port of a container.
pub proof fn law_valid_pool_has_coherent_links(spec: SandboxPoolSpec)
    requires
        spec.fault() is None,
    ensures
        spec.template.containers@.len() > 0,
        container_named(
            spec.template.containers@,
            spec.template.containers@.len() as int,
            spec.template.default_container@,
        ),
        forall|i: int, j: int|
            0 <= i < j < spec.template.containers@.len() ==> (
            #[trigger] spec.template.containers@[i]).name@ != (
            #[trigger] spec.template.containers@[j]).name@,
        forall|i: int|
            0 <= i < spec.template.exposed_ports@.len() ==> container_named(
                spec.template.containers@,
                spec.template.containers@.len() as int,
                (#[trigger] spec.template.exposed_ports@[i]).container@,
            ) && spec.template.exposed_ports@[i].port != 0,
        forall|i: int, j: int|
            0 <= i < j < spec.template.exposed_ports@.len() ==> {
                &&& (#[trigger] spec.template.exposed_ports@[i]).name@ != (
                #[trigger] spec.template.exposed_ports@[j]).name@
                &&& !(spec.template.exposed_ports@[i].container@
                    == spec.template.exposed_ports@[j].container@
                    && spec.template.exposed_ports@[i].port == spec.template.exposed_ports@[j].port)
            },
{
    let containers = spec.template.containers@;
    let ports = spec.template.exposed_ports@;
    assert forall|i: int, j: int| 0 <= i < j < containers.len() implies (
    #[trigger] containers[i]).name@ != (#[trigger] containers[j]).name@ by {
        lemma_no_container_fault(containers, 0, j);
        assert(!container_named(containers, j, containers[j].name@));
    }
    assert forall|i: int| 0 <= i < ports.len() implies container_named(
        containers,
        containers.len() as int,
        (#[trigger] ports[i]).container@,
    ) && ports[i].port != 0 by {
        lemma_no_port_fault(containers, ports, 0, i);
    }
    assert forall|i: int, j: int| 0 <= i < j < ports.len() implies {
        &&& (#[trigger] ports[i]).name@ != (#[trigger] ports[j]).name@
        &&& !(ports[i].container@ == ports[j].container@ && ports[i].port == ports[j].port)
    } by {
        lemma_no_port_fault(containers, ports, 0, j);
        assert(!port_named(ports, j, ports[j].name@));
        assert(!port_targeted(ports, j, ports[j].container@, ports[j].port));
    }
}

/// Caller-safe intent for one disposable sandbox.
#[derive(Debug, Clone, PartialEq, Eq)]
pub struct SandboxLeaseSpec {
    /// The exact pool that was admitted.
    pub pool_ref: SandboxPoolReference,
    /// The exact child pool, for child placement only.
    pub placement_authority: Option<SandboxPlacementAuthority>,
    pub ttl: String,
    pub alias: Option<String>,
    /// The authenticated owner.
    pub requester: SandboxPrincipal,
}

/// Reference to an exact sandbox pool.
#[derive(Debug, Clone, PartialEq, Eq)]
pub struct SandboxPoolReference {
    pub name: String,
    pub uid: String,
    pub generation: i64,
}

/// The child cluster pool that placement is authorized for.
#[derive(Debug, Clone, PartialEq, Eq)]
pub struct SandboxPlacementAuthority {
    pub api_version: String,
    pub kind: String,
    pub namespace: String,
    pub name: String,
    pub uid: String,
    pub generation: i64,
}

/// Authenticated owner of a sandbox lease.
#[derive(Debug, Clone, PartialEq, Eq)]
pub struct SandboxPrincipal {
    pub provider: String,
    pub requester_type: String,
    pub issuer: String,
    pub identity: String,
}

/// Runtime status of a sandbox pool.
#[derive(Debug, Clone, PartialEq, Eq)]
pub struct SandboxPoolStatus {
    pub observed_generation: Option<i64>,
    /// Clean, idle sandboxes.
    pub ready: u32,
    /// Leases that consume capacity.
    pub allocated: u32,
    /// Those of them that are quarantined.
    pub quarantined: u32,
    /// The placement that this generation is reconciled under.
    pub placement: Option<SandboxPlacement>,
    pub placement_authority: Option<SandboxPlacementAuthority>,
    /// Certification attempt for this generation.
    pub certification: Option<SandboxPoolCertificationStatus>,
    pub conditions: Vec<SandboxCondition>,
}

impl Default for SandboxPoolStatus {
    fn default() -> (status: Self)
        ensures
            status.observed_generation is None,
            status.ready == 0,
            status.allocated == 0,
            status.quarantined == 0,
            status.placement is None,
            status.placement_authority is None,
            status.certification is None,
            status.conditions@.len() == 0,
    {
        SandboxPoolStatus {
            observed_generation: None,
            ready: 0,
            allocated: 0,
            quarantined: 0,
            placement: None,
            placement_authority: None,
            certification: None,
            conditions: Vec::new(),
        }
    }
}

/// Durable phase of one certification attempt.
#[derive(Debug, Clone, Copy, PartialEq, Eq, Structural)]
pub enum SandboxPoolCertificationPhase {
    Initialized,
    ClaimCreated,
    WorkloadCaptured,
    CanaryPassed,
    FenceInstalled,
    DrainAcknowledged,
    ClaimDeleting,
    AbsenceProven,
    Replenished,
    FenceFinalizerRemoved,
    FenceDeleting,
    /// The only phase in which a pool may be ready.
    Certified,
    /// Cleanup cannot be proven; every reference is kept.
    CleanupBlocked,
}

impl Default for SandboxPoolCertificationPhase {
    fn default() -> (phase: Self)
        ensures
            phase == SandboxPoolCertificationPhase::Initialized,
    {
        SandboxPoolCertificationPhase::Initialized
    }
}

/// Evidence kept across the steps of a certification attempt.
#[derive(Debug, Clone, PartialEq, Eq)]
pub struct SandboxPoolCertificationStatus {
    /// Digest of everything that the attempt certifies.
    pub fingerprint: String,
    pub observed_generation: i64,
    pub phase: SandboxPoolCertificationPhase,
    pub sandbox_template: SandboxObjectReference,
    pub sandbox_warm_pool: SandboxObjectReference,
    pub sandbox_claim: Option<SandboxObjectReference>,
    pub sandbox: Option<SandboxObjectReference>,
    pub pod: Option<SandboxObjectReference>,
    pub service: Option<SandboxObjectReference>,
    /// Volume claims seen before teardown.
    pub persistent_volume_claims: Vec<SandboxObjectReference>,
    /// Volumes seen before teardown.
    pub persistent_volumes: Vec<SandboxObjectReference>,
    /// The object that fences creations during teardown.
    pub teardown_fence: Option<SandboxObjectReference>,
    /// Idle sandboxes that were there before the sacrificial claim.
    pub baseline_idle_sandbox_uids: Vec<String>,
    /// Warm pool generation of the scale to zero.
    pub drain_generation: Option<i64>,
    /// Warm pool generation of the restored capacity.
    pub replenish_generation: Option<i64>,
    pub canary_passed_at: Option<String>,
    pub certified_at: Option<String>,
    pub message: Option<String>,
}

/// Runtime status of a sandbox lease.
#[derive(Debug, Clone, PartialEq, Eq)]
pub struct SandboxLeaseStatus {
    pub phase: SandboxLeasePhase,
    pub observed_generation: Option<i64>,
    /// Bound on setup.
    pub provisioning_deadline: Option<String>,
    pub ready_at: Option<String>,
    /// Set once the sandbox is ready.
    pub expires_at: Option<String>,
    /// Extensions granted so far.
    pub extensions_count: u32,
    /// Seconds that the extensions add to the expiry.
    pub granted_extension_seconds: i64,
    /// Why the lease first began to be released.
    pub release_cause: Option<SandboxReleaseCause>,
    pub placement: Option<ResolvedSandboxPlacement>,
    pub target: Option<SandboxTargetProvenance>,
    pub claim_cleanup_fence: Option<SandboxClaimCleanupFence>,
    pub sandbox_claim_tombstone: Option<SandboxObjectReference>,
    pub allocation_fence: Option<SandboxObjectReference>,
    pub child_teardown_mode: Option<SandboxChildTeardownMode>,
    /// Acknowledged token of the child's teardown receipt.
    pub child_teardown_receipt_acknowledgement: Option<String>,
    pub child_teardown_evidence: Option<TeardownEvidenceReference>,
    pub child_unbound_release_proof: Option<ChildUnboundReleaseProof>,
    pub conditions: Vec<SandboxCondition>,
}

impl Default for SandboxLeaseStatus {
    fn default() -> (status: Self)
        ensures
            status.phase == SandboxLeasePhase::Pending,
            status.observed_generation is None,
            status.provisioning_deadline is None,
            status.ready_at is None,
            status.expires_at is None,
            status.extensions_count == 0,
            status.granted_extension_seconds == 0,
            status.release_cause is None,
            status.placement is None,
            status.target is None,
            status.claim_cleanup_fence is None,
            status.sandbox_claim_tombstone is None,
            status.allocation_fence is None,
            status.child_teardown_mode is None,
            status.child_teardown_receipt_acknowledgement is None,
            status.child_teardown_evidence is None,
            status.child_unbound_release_proof is None,
            status.conditions@.len() == 0,
    {
        SandboxLeaseStatus {
            phase: SandboxLeasePhase::Pending,
            observed_generation: None,
            provisioning_deadline: None,
            ready_at: None,
            expires_at: None,
            extensions_count: 0,
            granted_extension_seconds: 0,
            release_cause: None,
            placement: None,
            target: None,
            claim_cleanup_fence: None,
            sandbox_claim_tombstone: None,
            allocation_fence: None,
            child_teardown_mode: None,
            child_teardown_receipt_acknowledgement: None,
            child_teardown_evidence: None,
            child_unbound_release_proof: None,
            conditions: Vec::new(),
        }
    }
}

/// How deletion of a management claim is fenced.
#[derive(Debug, Clone, Copy, PartialEq, Eq, Structural)]
pub enum SandboxClaimCleanupFence {
    /// Release won before any placement.
    AdmissionOnlyV1,
    /// Release won before any create was authorized.
    PreCreateV1,
    /// A cleanup finalizer was durable before the first create.
    FinalizerV1,
}

/// What was proven before a bound child cluster is released.
#[derive(Debug, Clone, Copy, PartialEq, Eq, Structural)]
pub enum SandboxChildTeardownMode {
    /// The child was reachable and proven clean.
    ReachableCleanupV1,
    /// Only the verified destruction of the child proves it clean.
    VerifiedDestroyFallbackV1,
}

/// Proof that a child lease ended without ever being bound.
#[derive(Debug, Clone, PartialEq, Eq)]
pub struct ChildUnboundReleaseProof {
    pub attempt_id: String,
    pub verified_at: String,
}

/// Public phases of a sandbox lease.
#[derive(Debug, Clone, Copy, PartialEq, Eq, Structural)]
pub enum SandboxLeasePhase {
    Pending,
    Provisioning,
    Ready,
    Releasing,
    Released,
    Expired,
    Quarantined,
}

impl Default for SandboxLeasePhase {
    fn default() -> (phase: Self)
        ensures
            phase == SandboxLeasePhase::Pending,
    {
        SandboxLeasePhase::Pending
    }
}

/// Why a sandbox is torn down.
#[derive(Debug, Clone, Copy, PartialEq, Eq, Structural)]
pub enum SandboxReleaseCause {
    Requested,
    RuntimeTtl,
    ProvisioningDeadline,
    ModeDisabled,
    /// The lease's own admission could not be verified.
    Unverifiable,
}

impl SandboxLeasePhase {
    /// The phase's name.
    pub open spec fn name_text(self) -> Seq<char> {
        match self {
            SandboxLeasePhase::Pending => "Pending"@,
            SandboxLeasePhase::Provisioning => "Provisioning"@,
            SandboxLeasePhase::Ready => "Ready"@,
            SandboxLeasePhase::Releasing => "Releasing"@,
            SandboxLeasePhase::Released => "Released"@,
            SandboxLeasePhase::Expired => "Expired"@,
            SandboxLeasePhase::Quarantined => "Quarantined"@,
        }
    }

    /// The name under which the phase is shown.
    pub fn name(self) -> (name: &'static str)
        ensures
            name@ == self.name_text(),
    {
        match self {
            SandboxLeasePhase::Pending => "Pending",
            SandboxLeasePhase::Provisioning => "Provisioning",
            SandboxLeasePhase::Ready => "Ready",
            SandboxLeasePhase::Releasing => "Releasing",
            SandboxLeasePhase::Released => "Released",
            SandboxLeasePhase::Expired => "Expired",
            SandboxLeasePhase::Quarantined => "Quarantined",
        }
    }

    /// Whether a lease in this phase still counts against the capacity.
    pub open spec fn holds_capacity(self) -> bool {
        !(self is Released || self is Expired)
    }

    /// Whether the lease may still own or reserve capacity. Only a clean end
    /// frees it; quarantined capacity stays accounted for.
    pub fn consumes_capacity(self) -> (consumes: bool)
        ensures
            consumes == !(self is Released || self is Expired),
            consumes == self.holds_capacity(),
    {
        match self {
            SandboxLeasePhase::Released | SandboxLeasePhase::Expired => false,
            _ => true,
        }
    }
}

/// Placement that a lease was given.
#[derive(Debug, Clone, PartialEq, Eq)]
pub enum ResolvedSandboxPlacement {
    Management {},
    ChildCluster { cluster_pool: SandboxObjectReference },
}

/// Identity of one exact Kubernetes object.
#[derive(Debug, Clone, PartialEq, Eq)]
pub struct SandboxObjectReference {
    pub api_version: String,
    pub kind: String,
    pub namespace: Option<String>,
    pub name: String,
    pub uid: String,
    pub generation: Option<i64>,
}

/// What a reference names.
#[verifier::ext_equal]
pub struct ReferenceView {
    pub api_version: Seq<char>,
    pub kind: Seq<char>,
    pub namespace: Option<Seq<char>>,
    pub name: Seq<char>,
    pub uid: Seq<char>,
    pub generation: Option<i64>,
}

impl View for SandboxObjectReference {
    type V = ReferenceView;

    open spec fn view(&self) -> ReferenceView {
        ReferenceView {
            api_version: self.api_version@,
            kind: self.kind@,
            namespace: text::opt_text(self.namespace),
            name: self.name@,
            uid: self.uid@,
            generation: self.generation,
        }
    }
}

/// What a list of references names.
pub open spec fn reference_views(references: Seq<SandboxObjectReference>) -> Seq<ReferenceView> {
    references.map_values(|reference: SandboxObjectReference| reference@)
}

/// What an optional reference names.
pub open spec fn opt_reference(reference: Option<SandboxObjectReference>) -> Option<ReferenceView> {
    match reference {
        Some(reference) => Some(reference@),
        None => None,
    }
}

/// Whether two optional generations agree.
pub fn same_generation(a: Option<i64>, b: Option<i64>) -> (same: bool)
    ensures
        same == (a == b),
{
    match (a, b) {
        (Some(left), Some(right)) => left == right,
        (None, None) => true,
        _ => false,
    }
}

impl SandboxObjectReference {
    /// A copy of the reference.
    pub fn duplicate(&self) -> (copy: SandboxObjectReference)
        ensures
            copy@ == self@,
    {
        let namespace = match &self.namespace {
            Some(namespace) => Some(namespace.clone()),
            None => None,
        };
        SandboxObjectReference {
            api_version: self.api_version.clone(),
            kind: self.kind.clone(),
            namespace,
            name: self.name.clone(),
            uid: self.uid.clone(),
            generation: self.generation,
        }
    }

    /// Whether both name the same object at the same generation.
    pub fn same(&self, other: &SandboxObjectReference) -> (result: bool)
        ensures
            result == (self@ == other@),
    {
        same_text(self.api_version.as_str(), other.api_version.as_str()) && same_text(
            self.kind.as_str(),
            other.kind.as_str(),
        ) && same_opt_text(&self.namespace, &other.namespace) && same_text(
            self.name.as_str(),
            other.name.as_str(),
        ) && same_text(self.uid.as_str(), other.uid.as_str()) && same_generation(
            self.generation,
            other.generation,
        )
    }
}

/// Whether two lists name the same objects in the same order.
pub fn same_references(
    a: &Vec<SandboxObjectReference>,
    b: &Vec<SandboxObjectReference>,
) -> (same: bool)
    ensures
        same == (reference_views(a@) == reference_views(b@)),
{
    if a.len() != b.len() {
        assert(reference_views(a@).len() != reference_views(b@).len());
        return false;
    }
    let mut i: usize = 0;
    while i < a.len()
        invariant
            a@.len() == b@.len(),
            i <= a@.len(),
            forall|k: int| 0 <= k < i ==> a@[k]@ == b@[k]@,
        decreases a@.len() - i,
    {
        if !a[i].same(&b[i]) {
            assert(reference_views(a@)[i as int] != reference_views(b@)[i as int]);
            return false;
        }
        i = i + 1;
    }
    assert(reference_views(a@) =~= reference_views(b@));
    true
}

/// The objects that a lease's sandbox is made of, filled in one after the other.
#[derive(Debug, Clone, PartialEq, Eq)]
pub struct SandboxTargetProvenance {
    pub namespace: String,
    pub child_cluster_lease: Option<SandboxObjectReference>,
    pub child_cluster_instance: Option<SandboxObjectReference>,
    pub child_cluster_kubeconfig_secret: Option<SandboxObjectReference>,
    pub child_cluster_kubeconfig_sha256: Option<String>,
    pub sandbox_template: Option<SandboxObjectReference>,
    pub sandbox_warm_pool: Option<SandboxObjectReference>,
    pub sandbox_claim: Option<SandboxObjectReference>,
    pub sandbox: Option<SandboxObjectReference>,
    pub pod: Option<SandboxObjectReference>,
    pub service: Option<SandboxObjectReference>,
}

/// Condition with the generation that it was derived from.
#[derive(Debug, Clone, PartialEq, Eq)]
pub struct SandboxCondition {
    pub condition_type: String,
    pub status: SandboxConditionStatus,
    pub reason: String,
    pub message: String,
    pub observed_generation: Option<i64>,
    pub last_transition_time: Option<String>,
}

impl Default for SandboxCondition {
    fn default() -> (condition: Self)
        ensures
            condition.condition_type@ == Seq::<char>::empty(),
            condition.status == SandboxConditionStatus::Unknown,
            condition.reason@ == Seq::<char>::empty(),
            condition.message@ == Seq::<char>::empty(),
            condition.observed_generation is None,
            condition.last_transition_time is None,
    {
        SandboxCondition {
            condition_type: String::new(),
            status: SandboxConditionStatus::Unknown,
            reason: String::new(),
            message: String::new(),
            observed_generation: None,
            last_transition_time: None,
        }
    }
}

/// Status of a condition.
#[derive(Debug, Clone, Copy, PartialEq, Eq, Structural)]
pub enum SandboxConditionStatus {
    True,
    False,
    Unknown,
}

impl Default for SandboxConditionStatus {
    fn default() -> (status: Self)
        ensures
            status == SandboxConditionStatus::Unknown,
    {
        SandboxConditionStatus::Unknown
    }
}

} // verus!
