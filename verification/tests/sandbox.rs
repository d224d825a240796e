//! Sandbox pools and leases.

use kobe::crd::sandbox::{
    same_references, SandboxConditionStatus, SandboxContainerResources, SandboxContainerSpec,
    SandboxExecutionCanary, SandboxIsolation, SandboxLeasePhase, SandboxLeaseStatus,
    SandboxObjectReference, SandboxPlacement, SandboxPoolSpec, SandboxPoolStatus,
    SandboxPoolValidationError, SandboxPortSpec, SandboxReadinessRequirements,
    SandboxResourceQuantity, SandboxTemplateSpec,
};

fn valid_pool_spec() -> SandboxPoolSpec {
    SandboxPoolSpec {
        warm_capacity: 2,
        default_ttl: "1h".into(),
        max_ttl: "8h".into(),
        provisioning_timeout: "10m".into(),
        placement: SandboxPlacement::Management {},
        template: SandboxTemplateSpec {
            default_container: "agent".into(),
            containers: vec![SandboxContainerSpec {
                name: "agent".into(),
                image: "example.invalid/agent@sha256:abc".into(),
                command: vec!["/agent".into()],
                args: vec![],
                resources: SandboxContainerResources {
                    requests: SandboxResourceQuantity {
                        cpu: "500m".into(),
                        memory: "512Mi".into(),
                        ephemeral_storage: "512Mi".into(),
                    },
                    limits: SandboxResourceQuantity {
                        cpu: "1".into(),
                        memory: "1Gi".into(),
                        ephemeral_storage: "1Gi".into(),
                    },
                },
            }],
            exposed_ports: vec![SandboxPortSpec {
                name: "http".into(),
                container: "agent".into(),
                port: 3000,
            }],
            runner_path: None,
        },
        isolation: SandboxIsolation::TrustedRunc {},
        readiness: SandboxReadinessRequirements {
            canary: SandboxExecutionCanary {
                argv: vec!["/agent".into(), "health".into()],
                timeout: "30s".into(),
            },
        },
    }
}

#[test]
fn sandbox_lease_defaults_to_pending() {
    assert_eq!(
        SandboxLeaseStatus::default().phase,
        SandboxLeasePhase::Pending
    );
}

#[test]
fn pool_validation_rejects_invalid_container_and_port_links() {
    let mut spec = valid_pool_spec();
    spec.placement = SandboxPlacement::ChildCluster {
        cluster_pool_ref: " ".into(),
    };
    assert_eq!(
        spec.validate(),
        Err(SandboxPoolValidationError::EmptyClusterPoolRef)
    );

    let mut spec = valid_pool_spec();
    spec.template.default_container = "missing".into();
    assert_eq!(
        spec.validate(),
        Err(SandboxPoolValidationError::UnknownDefaultContainer(
            "missing".into()
        ))
    );

    let mut spec = valid_pool_spec();
    spec.template.exposed_ports[0].container = "missing".into();
    assert_eq!(
        spec.validate(),
        Err(SandboxPoolValidationError::UnknownPortContainer {
            port: "http".into(),
            container: "missing".into(),
        })
    );
}

#[test]
fn lease_phase_capacity_contract_keeps_quarantine_active() {
    for phase in [
        SandboxLeasePhase::Pending,
        SandboxLeasePhase::Provisioning,
        SandboxLeasePhase::Ready,
        SandboxLeasePhase::Releasing,
        SandboxLeasePhase::Quarantined,
    ] {
        assert!(
            phase.consumes_capacity(),
            "{} must consume capacity",
            phase.name()
        );
    }
    assert!(!SandboxLeasePhase::Released.consumes_capacity());
    assert!(!SandboxLeasePhase::Expired.consumes_capacity());
}

fn fault(change: impl FnOnce(&mut SandboxPoolSpec)) -> (SandboxPoolValidationError, String) {
    let mut spec = valid_pool_spec();
    change(&mut spec);
    let error = spec.validate().unwrap_err();
    let message = error.message();
    (error, message)
}

#[test]
fn every_fault_of_a_pool_is_told_apart() {
    assert_eq!(valid_pool_spec().validate(), Ok(()));

    let (error, message) = fault(|spec| spec.default_ttl = "\u{a0}\t".into());
    assert_eq!(error, SandboxPoolValidationError::EmptyDuration("defaultTtl"));
    assert_eq!(message, "defaultTtl must not be empty");
    let (error, _) = fault(|spec| spec.max_ttl = String::new());
    assert_eq!(error, SandboxPoolValidationError::EmptyDuration("maxTtl"));
    let (error, _) = fault(|spec| spec.provisioning_timeout = String::new());
    assert_eq!(
        error,
        SandboxPoolValidationError::EmptyDuration("provisioningTimeout")
    );

    let (error, message) = fault(|spec| spec.warm_capacity = 0x8000_0000);
    assert_eq!(error, SandboxPoolValidationError::WarmCapacityTooLarge);
    assert_eq!(message, "warmCapacity exceeds upstream int32 replicas");
    let mut largest = valid_pool_spec();
    largest.warm_capacity = 0x7fff_ffff;
    assert_eq!(largest.validate(), Ok(()));

    let (error, message) = fault(|spec| spec.template.containers.clear());
    assert_eq!(error, SandboxPoolValidationError::NoContainers);
    assert_eq!(message, "template must contain at least one container");

    let (error, message) = fault(|spec| spec.template.containers[0].name = " ".into());
    assert_eq!(error, SandboxPoolValidationError::EmptyContainerName);
    assert_eq!(message, "container name must not be empty");

    let (error, message) = fault(|spec| {
        let again = spec.template.containers[0].clone();
        spec.template.containers.push(again);
    });
    assert_eq!(
        error,
        SandboxPoolValidationError::DuplicateContainer("agent".into())
    );
    assert_eq!(message, "duplicate container name agent");

    let (error, message) = fault(|spec| spec.template.containers[0].image = String::new());
    assert_eq!(
        error,
        SandboxPoolValidationError::EmptyContainerImage("agent".into())
    );
    assert_eq!(message, "container agent has an empty image");

    let (error, message) = fault(|spec| spec.template.exposed_ports[0].name = String::new());
    assert_eq!(error, SandboxPoolValidationError::EmptyPortName);
    assert_eq!(message, "port name must not be empty");

    let (error, message) = fault(|spec| {
        let again = spec.template.exposed_ports[0].clone();
        spec.template.exposed_ports.push(again);
    });
    assert_eq!(
        error,
        SandboxPoolValidationError::DuplicatePortName("http".into())
    );
    assert_eq!(message, "duplicate port name http");

    let (error, message) = fault(|spec| spec.template.exposed_ports[0].port = 0);
    assert_eq!(error, SandboxPoolValidationError::ZeroPort("http".into()));
    assert_eq!(message, "port http must be in the range 1-65535");

    let (error, message) = fault(|spec| {
        let mut again = spec.template.exposed_ports[0].clone();
        again.name = "other".into();
        spec.template.exposed_ports.push(again);
    });
    assert_eq!(
        error,
        SandboxPoolValidationError::DuplicateContainerPort {
            container: "agent".into(),
            port: 3000,
        }
    );
    assert_eq!(message, "container agent exposes port 3000 more than once");

    let (error, message) = fault(|spec| {
        spec.isolation = SandboxIsolation::Gvisor {
            runtime_class_name: " ".into(),
        }
    });
    assert_eq!(error, SandboxPoolValidationError::EmptyRuntimeClass);
    assert_eq!(
        message,
        "hardened isolation requires a non-empty runtimeClassName"
    );

    for argv in [vec![], vec!["/agent".to_string(), String::new()]] {
        let (error, message) = fault(|spec| spec.readiness.canary.argv = argv);
        assert_eq!(error, SandboxPoolValidationError::EmptyCanaryArgv);
        assert_eq!(
            message,
            "readiness canary argv must contain non-empty arguments"
        );
    }
    let mut blank = valid_pool_spec();
    blank.readiness.canary.argv = vec![" ".into()];
    assert_eq!(blank.validate(), Ok(()));

    let (error, message) = fault(|spec| spec.readiness.canary.timeout = "\n".into());
    assert_eq!(error, SandboxPoolValidationError::EmptyCanaryTimeout);
    assert_eq!(message, "readiness canary timeout must not be empty");

    let (_, message) = fault(|spec| spec.template.default_container = "missing".into());
    assert_eq!(message, "default container missing is not declared");
    let (_, message) = fault(|spec| spec.template.exposed_ports[0].container = "missing".into());
    assert_eq!(message, "port http references undeclared container missing");
    let (_, message) = fault(|spec| {
        spec.placement = SandboxPlacement::ChildCluster {
            cluster_pool_ref: String::new(),
        }
    });
    assert_eq!(
        message,
        "childCluster placement requires a non-empty clusterPoolRef"
    );
}

#[test]
fn resources_are_checked_in_order() {
    let names = [
        "requests.cpu",
        "requests.memory",
        "requests.ephemeralStorage",
        "limits.cpu",
        "limits.memory",
        "limits.ephemeralStorage",
    ];
    for (i, name) in names.iter().enumerate() {
        let (error, message) = fault(|spec| {
            let resources = &mut spec.template.containers[0].resources;
            let quantities = [
                &mut resources.requests.cpu,
                &mut resources.requests.memory,
                &mut resources.requests.ephemeral_storage,
                &mut resources.limits.cpu,
                &mut resources.limits.memory,
                &mut resources.limits.ephemeral_storage,
            ];
            for quantity in quantities.into_iter().skip(i) {
                quantity.clear();
            }
        });
        assert_eq!(
            error,
            SandboxPoolValidationError::EmptyResource {
                container: "agent".into(),
                field: name,
            }
        );
        assert_eq!(
            message,
            format!("container agent has an empty {name} resource quantity")
        );
    }
}

#[test]
fn isolation_names_its_runtime_class() {
    let trusted = SandboxIsolation::TrustedRunc {};
    assert_eq!(trusted.runtime_class_name(), None);
    assert!(trusted.is_trusted_runc());
    let kata = SandboxIsolation::Kata {
        runtime_class_name: "kata-qemu".into(),
    };
    assert_eq!(kata.runtime_class_name(), Some("kata-qemu"));
    assert!(!kata.is_trusted_runc());
    let gvisor = SandboxIsolation::Gvisor {
        runtime_class_name: "runsc".into(),
    };
    assert_eq!(gvisor.runtime_class_name(), Some("runsc"));
    assert!(!gvisor.is_trusted_runc());
}

#[test]
fn lease_phases_have_names() {
    let named = [
        (SandboxLeasePhase::Pending, "Pending"),
        (SandboxLeasePhase::Provisioning, "Provisioning"),
        (SandboxLeasePhase::Ready, "Ready"),
        (SandboxLeasePhase::Releasing, "Releasing"),
        (SandboxLeasePhase::Released, "Released"),
        (SandboxLeasePhase::Expired, "Expired"),
        (SandboxLeasePhase::Quarantined, "Quarantined"),
    ];
    for (phase, name) in named {
        assert_eq!(phase.name(), name);
    }
}

#[test]
fn references_are_equal_in_every_part() {
    let reference = SandboxObjectReference {
        api_version: "v1".into(),
        kind: "Pod".into(),
        namespace: Some("kobe-system".into()),
        name: "pod".into(),
        uid: "uid".into(),
        generation: Some(1),
    };
    assert!(reference.same(&reference.duplicate()));
    let mut other = reference.duplicate();
    other.generation = None;
    assert!(!reference.same(&other));
    let list = vec![reference.duplicate(), other.duplicate()];
    assert!(same_references(&list, &list.clone()));
    assert!(!same_references(&list, &vec![other, reference]));
    assert!(!same_references(&list, &vec![]));
}

#[test]
fn an_empty_pool_status_counts_nothing() {
    let status = SandboxPoolStatus::default();
    assert_eq!(status.ready, 0);
    assert_eq!(status.allocated, 0);
    assert_eq!(status.quarantined, 0);
    assert!(status.certification.is_none());
    assert_ne!(
        SandboxConditionStatus::True,
        SandboxConditionStatus::Unknown
    );
}
