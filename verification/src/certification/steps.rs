//! The steps of a certification attempt, one phase after the other.

use crate::certification::attempt::{
    self, cleanup_blocked, progress, record, stay, ManagementPoolCertificationProgress,
};
use crate::certification::capacity::{
    self, answered, identity_for_kind, read_dynamic_exact, reference_absent, Absence, ExactRead, FencedWrite,
};
use crate::certification::claim::{self, validate_certification_claim};
use crate::certification::fence::{self, fence_intact};
use crate::certification::identity::{
    self, dynamic_reference, exact_reference_matches, typed_reference,
};
use crate::certification::names::{
    SandboxPool, AGENT_SANDBOX_API_VERSION, SANDBOX_API_VERSION, SANDBOX_CLAIM_KIND, SANDBOX_KIND,
};
use crate::certification::population::{self, warm_pool_selector, ResolvedSandboxPod};
use crate::certification::workload::{
    self, dynamic_observed_generation, dynamic_ready_at_generation, dynamic_status_count,
    warm_pool_status_is_current,
};
use crate::crd::sandbox::{
    self, SandboxObjectReference, SandboxPoolCertificationPhase, SandboxPoolCertificationStatus,
};
use crate::k8s::{ApiError, ConfigMap, DynamicObject};
use crate::number::{self, decimal_text, signed_decimal_text};
use crate::text::{self, concat, concat3, contains_text, holds_text, same_text};
use crate::time::now_rfc3339;
use vstd::prelude::*;
use vstd::string::*;

verus! {

/// What a lookup of the deterministic claim leads to.
#[derive(Debug, Clone, PartialEq, Eq)]
pub enum ClaimStep {
    Finished(ManagementPoolCertificationProgress),
    /// The claim is to be created.
    Create(SandboxPoolCertificationStatus),
}

/// Whether a pass recorded the claim.
pub open spec fn records_claim(
    progress: ManagementPoolCertificationProgress,
    status: SandboxPoolCertificationStatus,
    ready: u32,
    reference: sandbox::ReferenceView,
) -> bool {
    &&& attempt::records(
        progress,
        SandboxPoolCertificationStatus { sandbox_claim: progress.status.sandbox_claim, ..status },
        SandboxPoolCertificationPhase::ClaimCreated,
        ready,
        false,
        "CertificationClaimCreated"@,
        "checkpointed the exact sacrificial SandboxClaim"@,
    )
    &&& sandbox::opt_reference(progress.status.sandbox_claim) == Some(reference)
}

/// What looking for the deterministic claim gives.
pub open spec fn find_claim_gives(
    pool: SandboxPool,
    desired: DynamicObject,
    managed_by: Seq<char>,
    lookup: Result<DynamicObject, ApiError>,
    status: SandboxPoolCertificationStatus,
    ready: u32,
    result: Result<ClaimStep, String>,
) -> bool {
    match lookup {
        Ok(object) => match claim::observed_claim_error(
            pool.metadata@,
            desired.data@,
            object,
            managed_by,
        ) {
            Some(error) => result matches Ok(ClaimStep::Finished(progress)) && attempt::blocks(
                progress,
                status,
                ready,
                error,
            ),
            None => match identity::reference_to(
                object.metadata@,
                AGENT_SANDBOX_API_VERSION@,
                SANDBOX_CLAIM_KIND@,
            ) {
                Ok(reference) => result matches Ok(ClaimStep::Finished(progress))
                    && records_claim(progress, status, ready, reference),
                Err(error) => result matches Err(message) && message@ == error,
            },
        },
        Err(error) => if error.code == Some(404u16) {
            result == Ok::<ClaimStep, String>(ClaimStep::Create(status))
        } else if error.code == Some(403u16) {
            result matches Ok(ClaimStep::Finished(progress)) && attempt::blocks(
                progress,
                status,
                ready,
                "certification Claim lookup is forbidden: "@ + error.response@,
            )
        } else {
            result matches Err(message) && message@ == "certification Claim lookup failed: "@
                + error.error@
        },
    }
}

/// Initialized: records the claim where it is there and exact, and asks for its
/// creation where it is not there.
pub fn find_claim(
    pool: &SandboxPool,
    desired: &DynamicObject,
    managed_by: &str,
    lookup: Result<DynamicObject, ApiError>,
    status: SandboxPoolCertificationStatus,
    ready: u32,
) -> (result: Result<ClaimStep, String>)
    ensures
        find_claim_gives(*pool, *desired, managed_by@, lookup, status, ready, result),
        status.phase is Initialized ==> (result matches Ok(ClaimStep::Finished(progress)) ==> attempt::follows(
            status,
            progress.status,
        ) && attempt::fence_kept(status, progress.status)),
{
    match lookup {
        Ok(object) => {
            match validate_certification_claim(pool, desired, &object, managed_by) {
                Ok(_) => {},
                Err(error) => {
                    return Ok(ClaimStep::Finished(cleanup_blocked(status, ready, error.as_str())));
                },
            }
            let reference = match dynamic_reference(
                &object,
                AGENT_SANDBOX_API_VERSION,
                SANDBOX_CLAIM_KIND,
            ) {
                Ok(reference) => reference,
                Err(error) => {
                    return Err(error);
                },
            };
            let mut status = status;
            status.sandbox_claim = Some(reference);
            Ok(
                ClaimStep::Finished(
                    record(
                        status,
                        SandboxPoolCertificationPhase::ClaimCreated,
                        ready,
                        false,
                        "CertificationClaimCreated",
                        "checkpointed the exact sacrificial SandboxClaim",
                    ),
                ),
            )
        },
        Err(error) => {
            if answered(&error, 404) {
                return Ok(ClaimStep::Create(status));
            }
            if answered(&error, 403) {
                let message = concat(
                    "certification Claim lookup is forbidden: ",
                    error.response.as_str(),
                );
                return Ok(ClaimStep::Finished(cleanup_blocked(status, ready, message.as_str())));
            }
            Err(concat("certification Claim lookup failed: ", error.error.as_str()))
        },
    }
}

/// What the claim's creation gives.
pub open spec fn claim_created_gives(
    created: Result<(), ApiError>,
    status: SandboxPoolCertificationStatus,
    ready: u32,
    result: Result<ManagementPoolCertificationProgress, String>,
) -> bool {
    match created {
        Ok(_) => result matches Ok(progress) && attempt::stays(
            progress,
            status,
            ready,
            true,
            "CertificationClaimCreating"@,
            "created the deterministic sacrificial SandboxClaim; identity will be checkpointed on the next reconcile"@,
        ) && attempt::follows(status, progress.status) && attempt::fence_kept(
            status,
            progress.status,
        ),
        Err(error) => result matches Err(message) && message@
            == "certification Claim create failed: "@ + error.error@,
    }
}

/// Initialized: the claim was created; its identity is recorded on the next
/// pass.
pub fn claim_created(
    created: Result<(), ApiError>,
    status: SandboxPoolCertificationStatus,
    ready: u32,
) -> (result: Result<ManagementPoolCertificationProgress, String>)
    ensures
        claim_created_gives(created, status, ready, result),
{
    match created {
        Ok(_) => Ok(
            stay(
                status,
                ready,
                true,
                "CertificationClaimCreating",
                "created the deterministic sacrificial SandboxClaim; identity will be checkpointed on the next reconcile",
            ),
        ),
        Err(error) => Err(concat("certification Claim create failed: ", error.error.as_str())),
    }
}

/// What a lookup of a recorded object leads to.
#[derive(Debug, Clone, PartialEq, Eq)]
pub enum ObjectStep {
    Finished(ManagementPoolCertificationProgress),
    /// The object is the recorded one; the attempt goes on with it.
    Found(SandboxPoolCertificationStatus, DynamicObject),
}

/// ClaimCreated: proves the recorded claim and waits until it is ready.
pub fn recorded_claim_ready(
    namespace: &str,
    lookup: Result<DynamicObject, ApiError>,
    status: SandboxPoolCertificationStatus,
    ready: u32,
) -> (result: Result<ObjectStep, String>)
    ensures
        match status.sandbox_claim {
            None => result matches Ok(ObjectStep::Finished(progress)) && attempt::blocks(
                progress,
                status,
                ready,
                "ClaimCreated checkpoint has no exact SandboxClaim reference"@,
            ),
            Some(recorded) => match lookup {
                Err(error) => if error.code == Some(404u16) || error.code == Some(403u16) {
                    result matches Ok(ObjectStep::Finished(progress)) && attempt::blocks(
                        progress,
                        status,
                        ready,
                        "recorded certification Claim cannot be proven: "@ + error.response@,
                    )
                } else {
                    result matches Err(message) && message@
                        == "certification Claim lookup failed: "@ + error.error@
                },
                Ok(object) => if !identity::reference_matches(
                    recorded@,
                    object.metadata@,
                    AGENT_SANDBOX_API_VERSION@,
                    SANDBOX_CLAIM_KIND@,
                    namespace@,
                    recorded@.name,
                ) {
                    result matches Ok(ObjectStep::Finished(progress)) && attempt::blocks(
                        progress,
                        status,
                        ready,
                        "recorded certification Claim was replaced or changed identity"@,
                    )
                } else if !workload::ready_at_generation(object) {
                    result matches Ok(ObjectStep::Finished(progress)) && attempt::stays(
                        progress,
                        status,
                        ready,
                        false,
                        "CertificationClaimPending"@,
                        "waiting for the exact certification Claim to become Ready"@,
                    )
                } else {
                    result == Ok::<ObjectStep, String>(ObjectStep::Found(status, object))
                },
            },
        },
        result matches Ok(ObjectStep::Finished(progress)) ==> attempt::follows(
            status,
            progress.status,
        ) && attempt::fence_kept(status, progress.status),
{
    if status.sandbox_claim.is_none() {
        return Ok(
            ObjectStep::Finished(
                cleanup_blocked(
                    status,
                    ready,
                    "ClaimCreated checkpoint has no exact SandboxClaim reference",
                ),
            ),
        );
    }
    let object = match lookup {
        Ok(object) => object,
        Err(error) => {
            if answered(&error, 404) || answered(&error, 403) {
                let message = concat(
                    "recorded certification Claim cannot be proven: ",
                    error.response.as_str(),
                );
                return Ok(ObjectStep::Finished(cleanup_blocked(status, ready, message.as_str())));
            }
            return Err(concat("certification Claim lookup failed: ", error.error.as_str()));
        },
    };
    let exact = match &status.sandbox_claim {
        Some(recorded) => exact_reference_matches(
            recorded,
            &object,
            AGENT_SANDBOX_API_VERSION,
            SANDBOX_CLAIM_KIND,
            namespace,
            recorded.name.as_str(),
        ),
        None => false,
    };
    if !exact {
        return Ok(
            ObjectStep::Finished(
                cleanup_blocked(
                    status,
                    ready,
                    "recorded certification Claim was replaced or changed identity",
                ),
            ),
        );
    }
    if !dynamic_ready_at_generation(&object) {
        return Ok(
            ObjectStep::Finished(
                stay(
                    status,
                    ready,
                    false,
                    "CertificationClaimPending",
                    "waiting for the exact certification Claim to become Ready",
                ),
            ),
        );
    }
    Ok(ObjectStep::Found(status, object))
}

/// ClaimCreated: the workload that the ready claim resolves to.
pub fn claimed_workload(resolution: Result<Option<ResolvedSandboxPod>, String>) -> (result: Result<
    ResolvedSandboxPod,
    String,
>)
    ensures
        match resolution {
            Err(error) => result == Err::<ResolvedSandboxPod, String>(error),
            Ok(None) => result matches Err(message) && message@
                == "dedicated certification Claim has no exact Ready workload"@,
            Ok(Some(resolved)) => result == Ok::<ResolvedSandboxPod, String>(resolved),
        },
{
    match resolution {
        Ok(Some(resolved)) => Ok(resolved),
        Ok(None) => Err("dedicated certification Claim has no exact Ready workload".to_owned()),
        Err(error) => Err(error),
    }
}

/// ClaimCreated: the sandbox of the claimed workload.
pub fn claimed_sandbox(
    lookup: Result<DynamicObject, ApiError>,
    status: SandboxPoolCertificationStatus,
    ready: u32,
) -> (step: ObjectStep)
    ensures
        match lookup {
            Ok(object) => step == ObjectStep::Found(status, object),
            Err(error) => step matches ObjectStep::Finished(progress) && attempt::blocks(
                progress,
                status,
                ready,
                "certification Sandbox cannot be proven: "@ + error.error@,
            ) && attempt::follows(status, progress.status) && attempt::fence_kept(
                status,
                progress.status,
            ),
        },
{
    match lookup {
        Ok(object) => ObjectStep::Found(status, object),
        Err(error) => {
            let message = concat("certification Sandbox cannot be proven: ", error.error.as_str());
            ObjectStep::Finished(cleanup_blocked(status, ready, message.as_str()))
        },
    }
}

/// A reference to an object of the core API by name and UID.
pub open spec fn core_reference(
    kind: Seq<char>,
    namespace: Seq<char>,
    name: Seq<char>,
    uid: Seq<char>,
) -> sandbox::ReferenceView {
    sandbox::ReferenceView {
        api_version: "v1"@,
        kind,
        namespace: Some(namespace),
        name,
        uid,
        generation: None,
    }
}

/// The reference to a resolved workload's Service, where it has one.
pub open spec fn service_reference(
    resolved: population::ResolvedView,
    namespace: Seq<char>,
) -> Option<sandbox::ReferenceView> {
    match (resolved.service_name, resolved.service_uid) {
        (Some(name), Some(uid)) => Some(core_reference("Service"@, namespace, name, uid)),
        _ => None,
    }
}

fn core_reference_to(kind: &str, namespace: &str, name: &str, uid: &str) -> (reference:
    SandboxObjectReference)
    ensures
        reference@ == core_reference(kind@, namespace@, name@, uid@),
{
    SandboxObjectReference {
        api_version: "v1".to_owned(),
        kind: kind.to_owned(),
        namespace: Some(namespace.to_owned()),
        name: name.to_owned(),
        uid: uid.to_owned(),
        generation: None,
    }
}

/// References to a resolved workload's Pod and Service.
pub fn reference_from_resolved(resolved: &ResolvedSandboxPod, namespace: &str) -> (references: (
    SandboxObjectReference,
    Option<SandboxObjectReference>,
))
    ensures
        references.0@ == core_reference(
            "Pod"@,
            namespace@,
            resolved@.pod_name,
            resolved@.pod_uid,
        ),
        sandbox::opt_reference(references.1) == service_reference(resolved@, namespace@),
{
    let pod = core_reference_to(
        "Pod",
        namespace,
        resolved.pod_name.as_str(),
        resolved.pod_uid.as_str(),
    );
    let service = match (&resolved.service_name, &resolved.service_uid) {
        (Some(name), Some(uid)) => Some(
            core_reference_to("Service", namespace, name.as_str(), uid.as_str()),
        ),
        _ => None,
    };
    (pod, service)
}

/// Whether a record differs from another in the captured workload alone.
pub open spec fn captures(
    captured: SandboxPoolCertificationStatus,
    status: SandboxPoolCertificationStatus,
    reference: sandbox::ReferenceView,
    resolved: population::ResolvedView,
    namespace: Seq<char>,
) -> bool {
    &&& captured == (SandboxPoolCertificationStatus {
        sandbox: captured.sandbox,
        pod: captured.pod,
        service: captured.service,
        ..status
    })
    &&& sandbox::opt_reference(captured.sandbox) == Some(reference)
    &&& sandbox::opt_reference(captured.pod) == Some(
        core_reference("Pod"@, namespace, resolved.pod_name, resolved.pod_uid),
    )
    &&& sandbox::opt_reference(captured.service) == service_reference(resolved, namespace)
}

/// ClaimCreated: adds the proven workload's identities to the record.
pub fn capture_workload(
    namespace: &str,
    sandbox: &DynamicObject,
    resolved: &ResolvedSandboxPod,
    status: SandboxPoolCertificationStatus,
) -> (result: Result<SandboxPoolCertificationStatus, String>)
    ensures
        match identity::reference_to(sandbox.metadata@, SANDBOX_API_VERSION@, SANDBOX_KIND@) {
            Ok(reference) => result matches Ok(captured) && captures(
                captured,
                status,
                reference,
                resolved@,
                namespace@,
            ),
            Err(error) => result matches Err(message) && message@ == error,
        },
{
    let (pod, service) = reference_from_resolved(resolved, namespace);
    let reference = match dynamic_reference(sandbox, SANDBOX_API_VERSION, SANDBOX_KIND) {
        Ok(reference) => reference,
        Err(error) => {
            return Err(error);
        },
    };
    let mut status = status;
    status.sandbox = Some(reference);
    status.pod = Some(pod);
    status.service = service;
    Ok(status)
}

/// Whether a record holds a captured workload on top of a claim.
pub open spec fn captured_on_top_of(
    captured: SandboxPoolCertificationStatus,
    status: SandboxPoolCertificationStatus,
) -> bool {
    &&& captured == (SandboxPoolCertificationStatus {
        sandbox: captured.sandbox,
        pod: captured.pod,
        service: captured.service,
        ..status
    })
    &&& captured.sandbox is Some
    &&& captured.pod is Some
}

/// ClaimCreated: records the captured workload with its storage.
pub fn workload_captured(
    claims: Vec<SandboxObjectReference>,
    volumes: Vec<SandboxObjectReference>,
    captured: SandboxPoolCertificationStatus,
    ready: u32,
) -> (result: ManagementPoolCertificationProgress)
    ensures
        attempt::records(
            result,
            SandboxPoolCertificationStatus {
                persistent_volume_claims: claims,
                persistent_volumes: volumes,
                ..captured
            },
            SandboxPoolCertificationPhase::WorkloadCaptured,
            ready,
            false,
            "CertificationWorkloadCaptured"@,
            "checkpointed exact Claim, Sandbox, Pod and Service identities"@,
        ),
        forall|status: SandboxPoolCertificationStatus| #[trigger]
            captured_on_top_of(captured, status) && status.phase is ClaimCreated
                ==> attempt::follows(status, result.status) && attempt::fence_kept(
                status,
                result.status,
            ),
{
    let mut captured = captured;
    captured.persistent_volume_claims = claims;
    captured.persistent_volumes = volumes;
    record(
        captured,
        SandboxPoolCertificationPhase::WorkloadCaptured,
        ready,
        false,
        "CertificationWorkloadCaptured",
        "checkpointed exact Claim, Sandbox, Pod and Service identities",
    )
}

/// What the canary came to.
#[derive(Debug, Clone, PartialEq, Eq)]
pub enum CanaryOutcome {
    Passed,
    Failed { reason: String },
    Inconclusive { reason: String },
}

/// Why a canary did not pass.
pub open spec fn canary_reason(outcome: CanaryOutcome) -> Option<Seq<char>> {
    match outcome {
        CanaryOutcome::Passed => None,
        CanaryOutcome::Failed { reason } => Some(reason@),
        CanaryOutcome::Inconclusive { reason } => Some(reason@),
    }
}

/// Whether a pass recorded what the canary came to, at this time.
pub open spec fn records_canary(
    progress: ManagementPoolCertificationProgress,
    outcome: CanaryOutcome,
    status: SandboxPoolCertificationStatus,
    ready: u32,
) -> bool {
    match canary_reason(outcome) {
        None => progress.status.canary_passed_at is Some && attempt::records(
            progress,
            SandboxPoolCertificationStatus {
                canary_passed_at: progress.status.canary_passed_at,
                ..status
            },
            SandboxPoolCertificationPhase::CanaryPassed,
            ready,
            false,
            "CertificationCanaryPassed"@,
            "the bounded execution canary passed in the exact sacrificial workload"@,
        ),
        Some(reason) => attempt::blocks(
            progress,
            status,
            ready,
            "pool execution canary did not pass: "@ + reason,
        ),
    }
}

/// WorkloadCaptured: records that the canary passed at this time; anything else
/// blocks the attempt.
pub fn canary_finished_at(
    outcome: CanaryOutcome,
    now: String,
    status: SandboxPoolCertificationStatus,
    ready: u32,
) -> (result: ManagementPoolCertificationProgress)
    ensures
        records_canary(result, outcome, status, ready),
        outcome is Passed ==> result.status.canary_passed_at == Some(now),
        status.phase is WorkloadCaptured ==> attempt::follows(status, result.status) && attempt::fence_kept(
            status,
            result.status,
        ),
{
    match outcome {
        CanaryOutcome::Passed => {
            let mut status = status;
            status.canary_passed_at = Some(now);
            record(
                status,
                SandboxPoolCertificationPhase::CanaryPassed,
                ready,
                false,
                "CertificationCanaryPassed",
                "the bounded execution canary passed in the exact sacrificial workload",
            )
        },
        CanaryOutcome::Failed { reason } => {
            let message = concat("pool execution canary did not pass: ", reason.as_str());
            cleanup_blocked(status, ready, message.as_str())
        },
        CanaryOutcome::Inconclusive { reason } => {
            let message = concat("pool execution canary did not pass: ", reason.as_str());
            cleanup_blocked(status, ready, message.as_str())
        },
    }
}

/// WorkloadCaptured: records that the canary passed now; anything else blocks
/// the attempt.
pub fn canary_finished(
    outcome: CanaryOutcome,
    status: SandboxPoolCertificationStatus,
    ready: u32,
) -> (result: ManagementPoolCertificationProgress)
    ensures
        records_canary(result, outcome, status, ready),
        status.phase is WorkloadCaptured ==> attempt::follows(status, result.status) && attempt::fence_kept(
            status,
            result.status,
        ),
{
    canary_finished_at(outcome, now_rfc3339(), status, ready)
}

/// What a lookup of the fence leads to.
#[derive(Debug, Clone, PartialEq, Eq)]
pub enum FenceStep {
    Finished(ManagementPoolCertificationProgress),
    /// The fence is to be created.
    Create(SandboxPoolCertificationStatus),
    /// The fence is there; whether it is enforced is to be probed.
    Probe(SandboxPoolCertificationStatus),
}

/// What looking for the fence gives.
pub open spec fn find_fence_gives(
    desired: ConfigMap,
    lookup: Result<ConfigMap, ApiError>,
    status: SandboxPoolCertificationStatus,
    ready: u32,
    result: Result<FenceStep, String>,
) -> bool {
    match lookup {
        Ok(fence) => if !fence::fence_is_intact(fence, desired) {
            result matches Ok(FenceStep::Finished(progress)) && attempt::blocks(
                progress,
                status,
                ready,
                "same-named certification teardown fence is deleting or drifted"@,
            ) && attempt::follows(status, progress.status) && attempt::fence_kept(
                status,
                progress.status,
            )
        } else {
            match identity::reference_to(fence.metadata@, "v1"@, "ConfigMap"@) {
                Ok(reference) => result matches Ok(FenceStep::Probe(probed)) && probed == (
                SandboxPoolCertificationStatus {
                    teardown_fence: probed.teardown_fence,
                    ..status
                }) && sandbox::opt_reference(probed.teardown_fence) == Some(reference),
                Err(error) => result matches Err(message) && message@ == error,
            }
        },
        Err(error) => if error.code == Some(404u16) {
            result == Ok::<FenceStep, String>(FenceStep::Create(status))
        } else if error.code == Some(403u16) {
            result matches Ok(FenceStep::Finished(progress)) && attempt::blocks(
                progress,
                status,
                ready,
                "certification fence lookup is forbidden: "@ + error.response@,
            ) && attempt::follows(status, progress.status) && attempt::fence_kept(
                status,
                progress.status,
            )
        } else {
            result matches Err(message) && message@ == "certification fence lookup failed: "@
                + error.error@
        },
    }
}

/// CanaryPassed: finds the fence, intact, and asks for its creation where it is
/// not there.
pub fn find_fence(
    desired: &ConfigMap,
    lookup: Result<ConfigMap, ApiError>,
    status: SandboxPoolCertificationStatus,
    ready: u32,
) -> (result: Result<FenceStep, String>)
    ensures
        find_fence_gives(*desired, lookup, status, ready, result),
{
    match lookup {
        Ok(fence) => {
            if !fence_intact(&fence, desired) {
                return Ok(
                    FenceStep::Finished(
                        cleanup_blocked(
                            status,
                            ready,
                            "same-named certification teardown fence is deleting or drifted",
                        ),
                    ),
                );
            }
            match typed_reference(&fence.metadata, "v1", "ConfigMap") {
                Ok(reference) => {
                    let mut status = status;
                    status.teardown_fence = Some(reference);
                    Ok(FenceStep::Probe(status))
                },
                Err(error) => Err(error),
            }
        },
        Err(error) => {
            if answered(&error, 404) {
                return Ok(FenceStep::Create(status));
            }
            if answered(&error, 403) {
                let message = concat(
                    "certification fence lookup is forbidden: ",
                    error.response.as_str(),
                );
                return Ok(FenceStep::Finished(cleanup_blocked(status, ready, message.as_str())));
            }
            Err(concat("certification fence lookup failed: ", error.error.as_str()))
        },
    }
}

/// What the fence's creation gives.
pub open spec fn fence_created_gives(
    created: Result<(), ApiError>,
    status: SandboxPoolCertificationStatus,
    ready: u32,
    result: Result<ManagementPoolCertificationProgress, String>,
) -> bool {
    match created {
        Ok(_) => result matches Ok(progress) && attempt::stays(
            progress,
            status,
            ready,
            true,
            "CertificationFenceCreating"@,
            "created the immutable exact-UID teardown fence; identity will be checkpointed on the next reconcile"@,
        ) && attempt::follows(status, progress.status) && attempt::fence_kept(
            status,
            progress.status,
        ),
        Err(error) => result matches Err(message) && message@
            == "certification fence create failed: "@ + error.error@,
    }
}

/// CanaryPassed: the fence was created; its identity is recorded on the next
/// pass.
pub fn fence_created(
    created: Result<(), ApiError>,
    status: SandboxPoolCertificationStatus,
    ready: u32,
) -> (result: Result<ManagementPoolCertificationProgress, String>)
    ensures
        fence_created_gives(created, status, ready, result),
{
    match created {
        Ok(_) => Ok(
            stay(
                status,
                ready,
                true,
                "CertificationFenceCreating",
                "created the immutable exact-UID teardown fence; identity will be checkpointed on the next reconcile",
            ),
        ),
        Err(error) => Err(concat("certification fence create failed: ", error.error.as_str())),
    }
}

/// Whether a record differs from another in its fence alone.
pub open spec fn fenced_on_top_of(
    fenced: SandboxPoolCertificationStatus,
    status: SandboxPoolCertificationStatus,
) -> bool {
    fenced == (SandboxPoolCertificationStatus { teardown_fence: fenced.teardown_fence, ..status })
        && fenced.teardown_fence is Some
}

/// What the probe of the fence gives.
pub open spec fn fence_probed_gives(
    enforcement: Result<bool, String>,
    fenced: SandboxPoolCertificationStatus,
    ready: u32,
    result: ManagementPoolCertificationProgress,
) -> bool {
    match enforcement {
        Ok(true) => attempt::records(
            result,
            fenced,
            SandboxPoolCertificationPhase::FenceInstalled,
            ready,
            false,
            "CertificationFenceInstalled"@,
            "checkpointed the immutable exact-UID teardown fence after proving its VAP denial"@,
        ),
        Ok(false) => {
            &&& result.status == (SandboxPoolCertificationStatus {
                message: result.status.message,
                ..fenced
            })
            &&& text::opt_text(result.status.message) == Some(
                "waiting for the teardown-fence VAP parameter informer to deny the exact dry-run descendant CREATE"@,
            )
            &&& attempt::reports(
                result,
                ready,
                false,
                false,
                "CertificationFencePropagationPending"@,
                "teardown fence exists but its exact VAP denial is not observable yet"@,
            )
        },
        Err(error) => attempt::blocks(result, fenced, ready, error@),
    }
}

/// CanaryPassed: records the fence once its denial was proven, and keeps its
/// reference while it is not observed yet.
pub fn fence_probed(
    enforcement: Result<bool, String>,
    fenced: SandboxPoolCertificationStatus,
    ready: u32,
) -> (result: ManagementPoolCertificationProgress)
    ensures
        fence_probed_gives(enforcement, fenced, ready, result),
        forall|status: SandboxPoolCertificationStatus| #[trigger]
            fenced_on_top_of(fenced, status) && fenced.phase is CanaryPassed
                ==> attempt::follows(status, result.status) && (
            status.teardown_fence is None ==> attempt::fence_kept(status, result.status)),
{
    match enforcement {
        Ok(enforced) => {
            if enforced {
                record(
                    fenced,
                    SandboxPoolCertificationPhase::FenceInstalled,
                    ready,
                    false,
                    "CertificationFenceInstalled",
                    "checkpointed the immutable exact-UID teardown fence after proving its VAP denial",
                )
            } else {
                let mut fenced = fenced;
                fenced.message = Some(
                    "waiting for the teardown-fence VAP parameter informer to deny the exact dry-run descendant CREATE".to_owned(),
                );
                progress(
                    fenced,
                    ready,
                    false,
                    false,
                    "CertificationFencePropagationPending",
                    "teardown fence exists but its exact VAP denial is not observable yet".to_owned(),
                )
            }
        },
        Err(error) => cleanup_blocked(fenced, ready, error.as_str()),
    }
}

/// What the scale to zero gives.
pub open spec fn fenced_scale_to_zero_drains_gives(
    write: FencedWrite,
    status: SandboxPoolCertificationStatus,
    ready: u32,
    result: Result<ManagementPoolCertificationProgress, String>,
) -> bool {
    match write {
        FencedWrite::Updated(updated) => match updated.metadata.generation {
            Some(generation) => result matches Ok(progress) && attempt::records(
                progress,
                SandboxPoolCertificationStatus {
                    drain_generation: Some(generation),
                    ..status
                },
                SandboxPoolCertificationPhase::DrainAcknowledged,
                ready,
                true,
                "CertificationDrainRequested"@,
                "scale-to-zero written under a UID/resourceVersion fence; waiting for generation "@
                    + number::signed_decimal(generation as int)
                    + " plus zero ready replicas"@,
            ),
            None => result matches Err(message) && message@
                == "drained certification WarmPool has no generation"@,
        },
        FencedWrite::Contended => result matches Ok(progress) && attempt::stays(
            progress,
            status,
            ready,
            false,
            "CertificationDrainContended"@,
            "the WarmPool changed during scale-to-zero; retrying against its current snapshot"@,
        ),
        FencedWrite::Blocked(message) => result matches Ok(progress) && attempt::blocks(
            progress,
            status,
            ready,
            message@,
        ),
    }
}

/// FenceInstalled: records the generation of the scale to zero, whose
/// acknowledgement the next phase waits for.
pub fn fenced_scale_to_zero_drains(
    write: FencedWrite,
    status: SandboxPoolCertificationStatus,
    ready: u32,
) -> (result: Result<ManagementPoolCertificationProgress, String>)
    ensures
        fenced_scale_to_zero_drains_gives(write, status, ready, result),
        status.phase is FenceInstalled ==> (result matches Ok(progress) ==> attempt::follows(
            status,
            progress.status,
        ) && attempt::fence_kept(status, progress.status)),
{
    match write {
        FencedWrite::Updated(updated) => match updated.metadata.generation {
            Some(generation) => {
                let numeral = signed_decimal_text(generation);
                let message = concat3(
                    "scale-to-zero written under a UID/resourceVersion fence; waiting for generation ",
                    numeral.as_str(),
                    " plus zero ready replicas",
                );
                let mut status = status;
                status.drain_generation = Some(generation);
                Ok(
                    record(
                        status,
                        SandboxPoolCertificationPhase::DrainAcknowledged,
                        ready,
                        true,
                        "CertificationDrainRequested",
                        message.as_str(),
                    ),
                )
            },
            None => Err("drained certification WarmPool has no generation".to_owned()),
        },
        FencedWrite::Contended => Ok(
            stay(
                status,
                ready,
                false,
                "CertificationDrainContended",
                "the WarmPool changed during scale-to-zero; retrying against its current snapshot",
            ),
        ),
        FencedWrite::Blocked(message) => Ok(cleanup_blocked(status, ready, message.as_str())),
    }
}

/// Whether a warm pool acknowledged exactly this generation, and it is its
/// current one.
pub open spec fn acknowledged(warm_pool: DynamicObject, generation: i64) -> bool {
    workload::status_is_current(warm_pool) && workload::observed_generation(warm_pool.data@)
        == Some(generation as int)
}

fn has_acknowledged(warm_pool: &DynamicObject, generation: i64) -> (result: bool)
    ensures
        result == acknowledged(*warm_pool, generation),
{
    let observed = match dynamic_observed_generation(warm_pool) {
        Some(observed) => observed == generation,
        None => false,
    };
    warm_pool_status_is_current(warm_pool) && observed
}

/// A count that a warm pool reports.
pub open spec fn reported_count(warm_pool: DynamicObject, field: Seq<char>) -> Option<int> {
    workload::status_integer(warm_pool.data@, field, 0, u32::MAX as int)
}

/// What a look at the drained warm pool gives.
pub open spec fn drain_waits_for_the_causal_barrier_gives(
    namespace: Seq<char>,
    lookup: Result<DynamicObject, ApiError>,
    status: SandboxPoolCertificationStatus,
    ready: u32,
    result: Result<ManagementPoolCertificationProgress, String>,
) -> bool {
    match status.drain_generation {
        None => result matches Ok(progress) && attempt::blocks(
            progress,
            status,
            ready,
            "DrainAcknowledged checkpoint has no exact WarmPool drain generation"@,
        ),
        Some(generation) => match lookup {
            Err(error) => result matches Err(message) && message@ == capacity::read_error(
                error,
                status.sandbox_warm_pool@,
            ),
            Ok(warm_pool) => {
                if capacity::is_drifted(warm_pool, namespace, status.sandbox_warm_pool@) {
                    result matches Ok(progress) && attempt::blocks(
                        progress,
                        status,
                        ready,
                        capacity::drift_message(status.sandbox_warm_pool@),
                    )
                } else if !acknowledged(warm_pool, generation) {
                    result matches Ok(progress) && attempt::stays(
                        progress,
                        status,
                        ready,
                        false,
                        "CertificationDraining"@,
                        "waiting for WarmPool generation "@ + number::signed_decimal(
                            generation as int,
                        ) + " to be observed"@,
                    )
                } else {
                    match (
                        reported_count(warm_pool, "replicas"@),
                        reported_count(warm_pool, "readyReplicas"@),
                    ) {
                        (Some(replicas), Some(ready_replicas)) => if replicas != 0
                            || ready_replicas != 0 {
                            result matches Ok(progress) && attempt::stays(
                                progress,
                                status,
                                ready,
                                false,
                                "CertificationDraining"@,
                                "waiting for the drained WarmPool to report zero replicas (now "@
                                    + number::decimal(replicas as nat) + "/"@ + number::decimal(
                                    ready_replicas as nat,
                                ) + ")"@,
                            )
                        } else {
                            result matches Ok(progress) && attempt::records(
                                progress,
                                status,
                                SandboxPoolCertificationPhase::ClaimDeleting,
                                ready,
                                false,
                                "CertificationDrained"@,
                                "causal drain barrier proven: current generation observed with zero ready replicas"@,
                            )
                        },
                        _ => result matches Ok(progress) && attempt::stays(
                            progress,
                            status,
                            ready,
                            false,
                            "CertificationDraining"@,
                            "WarmPool ACKed the drain but its replica counts are not observable yet"@,
                        ),
                    }
                }
            },
        },
    }
}

/// DrainAcknowledged: waits until exactly the recorded generation is observed
/// and both replica counts are zero. A drifted warm pool blocks the attempt.
pub fn drain_waits_for_the_causal_barrier(
    namespace: &str,
    lookup: Result<DynamicObject, ApiError>,
    status: SandboxPoolCertificationStatus,
    ready: u32,
) -> (result: Result<ManagementPoolCertificationProgress, String>)
    ensures
        drain_waits_for_the_causal_barrier_gives(namespace@, lookup, status, ready, result),
        status.phase is DrainAcknowledged ==> (result matches Ok(progress) ==> attempt::follows(
            status,
            progress.status,
        ) && attempt::fence_kept(status, progress.status)),
{
    let drain_generation: i64 = match status.drain_generation {
        Some(generation) => generation,
        None => {
            return Ok(
                cleanup_blocked(
                    status,
                    ready,
                    "DrainAcknowledged checkpoint has no exact WarmPool drain generation",
                ),
            );
        },
    };
    let warm_pool = match read_dynamic_exact(lookup, namespace, &status.sandbox_warm_pool) {
        Ok(ExactRead::Exact(warm_pool)) => warm_pool,
        Ok(ExactRead::Drifted(message)) => {
            return Ok(cleanup_blocked(status, ready, message.as_str()));
        },
        Err(error) => {
            return Err(error);
        },
    };
    if !has_acknowledged(&warm_pool, drain_generation) {
        let numeral = signed_decimal_text(drain_generation);
        let message = concat3(
            "waiting for WarmPool generation ",
            numeral.as_str(),
            " to be observed",
        );
        return Ok(stay(status, ready, false, "CertificationDraining", message.as_str()));
    }
    match (
        dynamic_status_count(&warm_pool, "replicas"),
        dynamic_status_count(&warm_pool, "readyReplicas"),
    ) {
        (Some(replicas), Some(ready_replicas)) => {
            if replicas != 0 || ready_replicas != 0 {
                let mut message = concat(
                    "waiting for the drained WarmPool to report zero replicas (now ",
                    decimal_text(replicas as u64).as_str(),
                );
                message.append("/");
                message.append(decimal_text(ready_replicas as u64).as_str());
                message.append(")");
                return Ok(stay(status, ready, false, "CertificationDraining", message.as_str()));
            }
            Ok(
                record(
                    status,
                    SandboxPoolCertificationPhase::ClaimDeleting,
                    ready,
                    false,
                    "CertificationDrained",
                    "causal drain barrier proven: current generation observed with zero ready replicas",
                ),
            )
        },
        _ => Ok(
            stay(
                status,
                ready,
                false,
                "CertificationDraining",
                "WarmPool ACKed the drain but its replica counts are not observable yet",
            ),
        ),
    }
}

/// What a proof of the claim's absence leads to.
#[derive(Debug, Clone, PartialEq, Eq)]
pub enum DeleteStep {
    Finished(ManagementPoolCertificationProgress),
    /// The claim with this name and UID is to be deleted, its workload first.
    Delete(SandboxPoolCertificationStatus, String, String),
}

/// What a look at the claim that is to go gives.
pub open spec fn claim_deleting_foreground_deletes_gives(
    lookup: Result<DynamicObject, ApiError>,
    status: SandboxPoolCertificationStatus,
    ready: u32,
    result: Result<DeleteStep, String>,
) -> bool {
    match status.sandbox_claim {
        None => result matches Ok(DeleteStep::Finished(progress)) && attempt::blocks(
            progress,
            status,
            ready,
            "ClaimDeleting checkpoint has no exact SandboxClaim reference"@,
        ),
        Some(recorded) => match capacity::absence(lookup, recorded@) {
            Err(error) => result matches Err(message) && message@ == error,
            Ok(capacity::AbsenceView::Blocked(message)) => result matches Ok(
                DeleteStep::Finished(progress),
            ) && attempt::blocks(progress, status, ready, message),
            Ok(capacity::AbsenceView::Present) => result matches Ok(
                DeleteStep::Delete(kept, name, uid),
            ) && kept == status && name@ == recorded@.name && uid@ == recorded@.uid,
            Ok(capacity::AbsenceView::Proven) => result matches Ok(
                DeleteStep::Finished(progress),
            ) && attempt::records(
                progress,
                status,
                SandboxPoolCertificationPhase::AbsenceProven,
                ready,
                false,
                "CertificationClaimGone"@,
                "exact sacrificial Claim is absent; proving descendant and storage absence"@,
            ),
        },
    }
}

/// ClaimDeleting: asks for the deletion of the exact claim until it is provably
/// gone.
pub fn claim_deleting_foreground_deletes(
    lookup: Result<DynamicObject, ApiError>,
    status: SandboxPoolCertificationStatus,
    ready: u32,
) -> (result: Result<DeleteStep, String>)
    ensures
        claim_deleting_foreground_deletes_gives(lookup, status, ready, result),
        status.phase is ClaimDeleting ==> (result matches Ok(DeleteStep::Finished(progress)) ==> attempt::follows(
            status,
            progress.status,
        ) && attempt::fence_kept(status, progress.status)),
{
    let (found, name, uid) = match &status.sandbox_claim {
        Some(recorded) => (
            reference_absent(lookup, recorded),
            recorded.name.clone(),
            recorded.uid.clone(),
        ),
        None => {
            return Ok(
                DeleteStep::Finished(
                    cleanup_blocked(
                        status,
                        ready,
                        "ClaimDeleting checkpoint has no exact SandboxClaim reference",
                    ),
                ),
            );
        },
    };
    match found {
        Err(error) => Err(error),
        Ok(Absence::Blocked(message)) => Ok(
            DeleteStep::Finished(cleanup_blocked(status, ready, message.as_str())),
        ),
        Ok(Absence::Present) => Ok(DeleteStep::Delete(status, name, uid)),
        Ok(Absence::Proven) => Ok(
            DeleteStep::Finished(
                record(
                    status,
                    SandboxPoolCertificationPhase::AbsenceProven,
                    ready,
                    false,
                    "CertificationClaimGone",
                    "exact sacrificial Claim is absent; proving descendant and storage absence",
                ),
            ),
        ),
    }
}

/// What the claim's deletion gives.
pub open spec fn claim_deleted_gives(
    deleted: Result<(), ApiError>,
    status: SandboxPoolCertificationStatus,
    ready: u32,
    result: Result<ManagementPoolCertificationProgress, String>,
) -> bool {
    match deleted {
        Ok(_) => result matches Ok(progress) && attempt::stays(
            progress,
            status,
            ready,
            true,
            "CertificationClaimDeleting"@,
            "foreground-deleting the exact sacrificial Claim"@,
        ),
        Err(error) => if error.code == Some(404u16) {
            result matches Ok(progress) && attempt::stays(
                progress,
                status,
                ready,
                true,
                "CertificationClaimDeleting"@,
                "foreground-deleting the exact sacrificial Claim"@,
            )
        } else if error.code == Some(409u16) {
            result matches Ok(progress) && attempt::stays(
                progress,
                status,
                ready,
                false,
                "CertificationClaimDeleting"@,
                "foreground Claim deletion is contended; retrying against the surviving object"@,
            )
        } else if error.code == Some(403u16) {
            result matches Ok(progress) && attempt::blocks(
                progress,
                status,
                ready,
                "foreground Claim deletion is forbidden: "@ + error.response@,
            )
        } else {
            result matches Err(message) && message@ == "certification Claim deletion failed: "@
                + error.error@
        },
    }
}

/// ClaimDeleting: what the deletion of the claim came to. A pass that deletes
/// never proves absence too.
pub fn claim_deleted(
    deleted: Result<(), ApiError>,
    status: SandboxPoolCertificationStatus,
    ready: u32,
) -> (result: Result<ManagementPoolCertificationProgress, String>)
    ensures
        claim_deleted_gives(deleted, status, ready, result),
        result matches Ok(progress) ==> attempt::follows(status, progress.status)
            && attempt::fence_kept(status, progress.status),
{
    match deleted {
        Ok(_) => {},
        Err(error) => {
            if answered(&error, 404) {
            } else if answered(&error, 409) {
                return Ok(
                    stay(
                        status,
                        ready,
                        false,
                        "CertificationClaimDeleting",
                        "foreground Claim deletion is contended; retrying against the surviving object",
                    ),
                );
            } else if answered(&error, 403) {
                let message = concat(
                    "foreground Claim deletion is forbidden: ",
                    error.response.as_str(),
                );
                return Ok(cleanup_blocked(status, ready, message.as_str()));
            } else {
                return Err(concat("certification Claim deletion failed: ", error.error.as_str()));
            }
        },
    }
    Ok(
        stay(
            status,
            ready,
            true,
            "CertificationClaimDeleting",
            "foreground-deleting the exact sacrificial Claim",
        ),
    )
}

/// Which recorded object's absence is proven next.
pub enum AbsenceTarget {
    Claim(SandboxObjectReference),
    Sandbox(SandboxObjectReference),
    VolumeClaim(SandboxObjectReference),
    Volume(SandboxObjectReference),
    /// A mandatory reference of this kind is not recorded.
    Unrecorded(Seq<char>),
    /// Every recorded object's absence is proven.
    Complete,
}

/// Which recorded object's absence is proven after `proven` others: the claim,
/// the sandbox, each volume claim, each volume.
pub open spec fn absence_target(
    status: SandboxPoolCertificationStatus,
    proven: int,
) -> AbsenceTarget {
    let claims = status.persistent_volume_claims@;
    let volumes = status.persistent_volumes@;
    if proven <= 0 {
        match capacity::recorded_of_kind(status, SANDBOX_CLAIM_KIND@) {
            Some(recorded) => AbsenceTarget::Claim(recorded),
            None => AbsenceTarget::Unrecorded(SANDBOX_CLAIM_KIND@),
        }
    } else if proven == 1 {
        match capacity::recorded_of_kind(status, SANDBOX_KIND@) {
            Some(recorded) => AbsenceTarget::Sandbox(recorded),
            None => AbsenceTarget::Unrecorded(SANDBOX_KIND@),
        }
    } else if proven < 2 + claims.len() {
        AbsenceTarget::VolumeClaim(claims[proven - 2])
    } else if proven < 2 + claims.len() + volumes.len() {
        AbsenceTarget::Volume(volumes[proven - 2 - claims.len()])
    } else {
        AbsenceTarget::Complete
    }
}

/// The report of a mandatory reference that is not recorded.
pub open spec fn unrecorded_text(kind: Seq<char>) -> Seq<char> {
    "AbsenceProven checkpoint has no exact "@ + kind + " reference"@
}

fn unrecorded(kind: &str) -> (message: String)
    ensures
        message@ == unrecorded_text(kind@),
{
    concat3("AbsenceProven checkpoint has no exact ", kind, " reference")
}

/// Which object is looked up to prove the next absence.
#[derive(Debug, Clone, PartialEq, Eq)]
pub enum AbsenceQuery {
    /// The claim with this name.
    Claim(String),
    /// The sandbox with this name.
    Sandbox(String),
    /// The volume claim with this name.
    VolumeClaim(String),
    /// The volume with this name.
    Volume(String),
    /// None: an absence cannot be proven, and the attempt is blocked.
    Blocked(ManagementPoolCertificationProgress),
    /// None: every absence is proven, and capacity can be restored.
    Complete(SandboxPoolCertificationStatus),
}

/// Whether a query looks a target up, under the name that was recorded.
pub open spec fn looks_up(query: AbsenceQuery, target: AbsenceTarget) -> bool {
    match target {
        AbsenceTarget::Claim(recorded) => query matches AbsenceQuery::Claim(name) && name@
            == recorded@.name,
        AbsenceTarget::Sandbox(recorded) => query matches AbsenceQuery::Sandbox(name) && name@
            == recorded@.name,
        AbsenceTarget::VolumeClaim(recorded) => query matches AbsenceQuery::VolumeClaim(name)
            && name@ == recorded@.name,
        AbsenceTarget::Volume(recorded) => query matches AbsenceQuery::Volume(name) && name@
            == recorded@.name,
        AbsenceTarget::Unrecorded(_) | AbsenceTarget::Complete => false,
    }
}

/// What is looked up next.
pub open spec fn next_absence_gives(
    proven: int,
    status: SandboxPoolCertificationStatus,
    ready: u32,
    query: AbsenceQuery,
) -> bool {
    match absence_target(status, proven) {
        AbsenceTarget::Unrecorded(kind) => query matches AbsenceQuery::Blocked(progress)
            && attempt::blocks(
            progress,
            status,
            ready,
            unrecorded_text(kind),
        ) && attempt::follows(status, progress.status) && attempt::fence_kept(
            status,
            progress.status,
        ),
        AbsenceTarget::Complete => query == AbsenceQuery::Complete(status),
        target => looks_up(query, target),
    }
}

/// The object that is looked up after `proven` absences are proven, where there is
/// one to look up.
pub fn absence_lookup(proven: u128, status: &SandboxPoolCertificationStatus) -> (query: Option<
    AbsenceQuery,
>)
    ensures
        match query {
            Some(query) => looks_up(query, absence_target(*status, proven as int)),
            None => absence_target(*status, proven as int) is Unrecorded || absence_target(
                *status,
                proven as int,
            ) is Complete,
        },
{
    let claims: u128 = status.persistent_volume_claims.len() as u128;
    let volumes: u128 = status.persistent_volumes.len() as u128;
    proof {
        reveal_strlit("SandboxClaim");
        reveal_strlit("Sandbox");
    }
    if proven == 0 {
        match identity_for_kind(status, SANDBOX_CLAIM_KIND) {
            Some(recorded) => Some(AbsenceQuery::Claim(recorded.name.clone())),
            None => None,
        }
    } else if proven == 1 {
        match identity_for_kind(status, SANDBOX_KIND) {
            Some(recorded) => Some(AbsenceQuery::Sandbox(recorded.name.clone())),
            None => None,
        }
    } else if proven - 2 < claims {
        Some(AbsenceQuery::VolumeClaim(status.persistent_volume_claims[(proven - 2) as usize].name.clone()))
    } else if proven - 2 - claims < volumes {
        Some(AbsenceQuery::Volume(status.persistent_volumes[(proven - 2 - claims) as usize].name.clone()))
    } else {
        None
    }
}

/// AbsenceProven: which object is looked up after `proven` absences are proven.
pub fn next_absence(
    proven: u128,
    status: SandboxPoolCertificationStatus,
    ready: u32,
) -> (query: AbsenceQuery)
    ensures
        next_absence_gives(proven as int, status, ready, query),
{
    match absence_lookup(proven, &status) {
        Some(query) => query,
        None => {
            if proven < 2 {
                let kind = if proven == 0 {
                    SANDBOX_CLAIM_KIND
                } else {
                    SANDBOX_KIND
                };
                let message = unrecorded(kind);
                AbsenceQuery::Blocked(cleanup_blocked(status, ready, message.as_str()))
            } else {
                AbsenceQuery::Complete(status)
            }
        },
    }
}

/// What a proof of one absence leads to.
#[derive(Debug, Clone, PartialEq, Eq)]
pub enum AbsenceStep {
    Finished(ManagementPoolCertificationProgress),
    /// The object is gone; the attempt goes on.
    Proven(SandboxPoolCertificationStatus),
}

/// What a lookup says of a recorded volume's absence.
pub open spec fn volume_absence(
    lookup: Result<DynamicObject, ApiError>,
    recorded: sandbox::ReferenceView,
) -> Result<capacity::AbsenceView, Seq<char>> {
    match lookup {
        Err(error) => if error.code == Some(404u16) {
            Ok(capacity::AbsenceView::Proven)
        } else if error.code == Some(403u16) {
            Ok(
                capacity::AbsenceView::Blocked(
                    "captured PV absence cannot be proven: "@ + error.response@,
                ),
            )
        } else {
            Err("captured PV absence check failed: "@ + error.error@)
        },
        Ok(object) => if object.metadata@.uid == Some(recorded.uid) {
            Ok(capacity::AbsenceView::Present)
        } else {
            Ok(
                capacity::AbsenceView::Blocked(
                    "captured certification PV was replaced before absence was proven"@,
                ),
            )
        },
    }
}

fn volume_absent(lookup: Result<DynamicObject, ApiError>, recorded: &SandboxObjectReference) -> (
result: Result<Absence, String>)
    ensures
        capacity::absence_outcome(result) == volume_absence(lookup, recorded@),
{
    match lookup {
        Err(error) => {
            if answered(&error, 404) {
                Ok(Absence::Proven)
            } else if answered(&error, 403) {
                Ok(
                    Absence::Blocked(
                        concat("captured PV absence cannot be proven: ", error.response.as_str()),
                    ),
                )
            } else {
                Err(concat("captured PV absence check failed: ", error.error.as_str()))
            }
        },
        Ok(object) => {
            if holds_text(&object.metadata.uid, recorded.uid.as_str()) {
                Ok(Absence::Present)
            } else {
                Ok(
                    Absence::Blocked(
                        "captured certification PV was replaced before absence was proven".to_owned(),
                    ),
                )
            }
        },
    }
}

/// What a lookup says of the next absence, and what is waited for meanwhile.
pub open spec fn target_absence(
    target: AbsenceTarget,
    lookup: Result<DynamicObject, ApiError>,
) -> (Result<capacity::AbsenceView, Seq<char>>, Seq<char>) {
    match target {
        AbsenceTarget::Claim(recorded) => (
            capacity::absence(lookup, recorded@),
            "waiting for recorded "@ + SANDBOX_CLAIM_KIND@ + " to finish terminating"@,
        ),
        AbsenceTarget::Sandbox(recorded) => (
            capacity::absence(lookup, recorded@),
            "waiting for recorded "@ + SANDBOX_KIND@ + " to finish terminating"@,
        ),
        AbsenceTarget::VolumeClaim(recorded) => (
            capacity::absence(lookup, recorded@),
            "waiting for captured certification PVC to be reclaimed"@,
        ),
        AbsenceTarget::Volume(recorded) => (
            volume_absence(lookup, recorded@),
            "waiting for captured certification PV to be reclaimed"@,
        ),
        AbsenceTarget::Unrecorded(kind) => (
            Ok(capacity::AbsenceView::Blocked(unrecorded_text(kind))),
            Seq::empty(),
        ),
        AbsenceTarget::Complete => (Ok(capacity::AbsenceView::Proven), Seq::empty()),
    }
}

/// What the lookup of a recorded object gives.
pub open spec fn absence_observed_gives(
    proven: int,
    lookup: Result<DynamicObject, ApiError>,
    status: SandboxPoolCertificationStatus,
    ready: u32,
    result: Result<AbsenceStep, String>,
) -> bool {
    match target_absence(absence_target(status, proven), lookup) {
        (Err(error), _) => result matches Err(message) && message@ == error,
        (Ok(capacity::AbsenceView::Proven), _) => result == Ok::<AbsenceStep, String>(
            AbsenceStep::Proven(status),
        ),
        (Ok(capacity::AbsenceView::Present), waiting) => result matches Ok(
            AbsenceStep::Finished(progress),
        ) && attempt::stays(
            progress,
            status,
            ready,
            false,
            "CertificationAbsencePending"@,
            waiting,
        ),
        (Ok(capacity::AbsenceView::Blocked(message)), _) => result matches Ok(
            AbsenceStep::Finished(progress),
        ) && attempt::blocks(progress, status, ready, message),
    }
}

/// AbsenceProven: judges the lookup of the object that comes after `proven`
/// others.
pub fn absence_observed(
    proven: u128,
    lookup: Result<DynamicObject, ApiError>,
    status: SandboxPoolCertificationStatus,
    ready: u32,
) -> (result: Result<AbsenceStep, String>)
    ensures
        absence_observed_gives(proven as int, lookup, status, ready, result),
        result matches Ok(AbsenceStep::Finished(progress)) ==> attempt::follows(
            status,
            progress.status,
        ) && attempt::fence_kept(status, progress.status),
{
    let claims: u128 = status.persistent_volume_claims.len() as u128;
    let volumes: u128 = status.persistent_volumes.len() as u128;
    proof {
        reveal_strlit("SandboxClaim");
        reveal_strlit("Sandbox");
    }
    let found = if proven == 0 {
        match &status.sandbox_claim {
            Some(recorded) => reference_absent(lookup, recorded),
            None => Ok(Absence::Blocked(unrecorded(SANDBOX_CLAIM_KIND))),
        }
    } else if proven == 1 {
        match &status.sandbox {
            Some(recorded) => reference_absent(lookup, recorded),
            None => Ok(Absence::Blocked(unrecorded(SANDBOX_KIND))),
        }
    } else if proven - 2 < claims {
        reference_absent(lookup, &status.persistent_volume_claims[(proven - 2) as usize])
    } else if proven - 2 - claims < volumes {
        volume_absent(lookup, &status.persistent_volumes[(proven - 2 - claims) as usize])
    } else {
        Ok(Absence::Proven)
    };
    match found {
        Err(error) => Err(error),
        Ok(Absence::Proven) => Ok(AbsenceStep::Proven(status)),
        Ok(Absence::Blocked(message)) => Ok(
            AbsenceStep::Finished(cleanup_blocked(status, ready, message.as_str())),
        ),
        Ok(Absence::Present) => {
            let waiting = if proven < 2 {
                let kind = if proven == 0 {
                    SANDBOX_CLAIM_KIND
                } else {
                    SANDBOX_KIND
                };
                concat3("waiting for recorded ", kind, " to finish terminating")
            } else if proven - 2 < claims {
                "waiting for captured certification PVC to be reclaimed".to_owned()
            } else {
                "waiting for captured certification PV to be reclaimed".to_owned()
            };
            Ok(
                AbsenceStep::Finished(
                    stay(status, ready, false, "CertificationAbsencePending", waiting.as_str()),
                ),
            )
        },
    }
}

/// What the restored capacity gives.
pub open spec fn absence_proven_restores_capacity_gives(
    write: FencedWrite,
    status: SandboxPoolCertificationStatus,
    ready: u32,
    result: Result<ManagementPoolCertificationProgress, String>,
) -> bool {
    match write {
        FencedWrite::Updated(updated) => match updated.metadata.generation {
            Some(generation) => result matches Ok(progress) && attempt::records(
                progress,
                SandboxPoolCertificationStatus {
                    replenish_generation: Some(generation),
                    ..status
                },
                SandboxPoolCertificationPhase::Replenished,
                ready,
                true,
                "CertificationRestoringCapacity"@,
                "descendant and storage absence proven; capacity restored and waiting for generation "@
                    + number::signed_decimal(generation as int),
            ),
            None => result matches Err(message) && message@
                == "replenished certification WarmPool has no generation"@,
        },
        FencedWrite::Contended => result matches Ok(progress) && attempt::stays(
            progress,
            status,
            ready,
            false,
            "CertificationRestoreContended"@,
            "the WarmPool changed during capacity restore; retrying against its current snapshot"@,
        ),
        FencedWrite::Blocked(message) => result matches Ok(progress) && attempt::blocks(
            progress,
            status,
            ready,
            message@,
        ),
    }
}

/// AbsenceProven: records the generation of the restored capacity.
pub fn absence_proven_restores_capacity(
    write: FencedWrite,
    status: SandboxPoolCertificationStatus,
    ready: u32,
) -> (result: Result<ManagementPoolCertificationProgress, String>)
    ensures
        absence_proven_restores_capacity_gives(write, status, ready, result),
        status.phase is AbsenceProven ==> (result matches Ok(progress) ==> attempt::follows(
            status,
            progress.status,
        ) && attempt::fence_kept(status, progress.status)),
{
    match write {
        FencedWrite::Updated(updated) => match updated.metadata.generation {
            Some(generation) => {
                let numeral = signed_decimal_text(generation);
                let message = concat(
                    "descendant and storage absence proven; capacity restored and waiting for generation ",
                    numeral.as_str(),
                );
                let mut status = status;
                status.replenish_generation = Some(generation);
                Ok(
                    record(
                        status,
                        SandboxPoolCertificationPhase::Replenished,
                        ready,
                        true,
                        "CertificationRestoringCapacity",
                        message.as_str(),
                    ),
                )
            },
            None => Err("replenished certification WarmPool has no generation".to_owned()),
        },
        FencedWrite::Contended => Ok(
            stay(
                status,
                ready,
                false,
                "CertificationRestoreContended",
                "the WarmPool changed during capacity restore; retrying against its current snapshot",
            ),
        ),
        FencedWrite::Blocked(message) => Ok(cleanup_blocked(status, ready, message.as_str())),
    }
}

/// How an optional count is shown.
pub open spec fn count_text(count: Option<int>) -> Seq<char> {
    match count {
        Some(count) => "Some("@ + number::decimal(count as nat) + ")"@,
        None => "None"@,
    }
}

/// What a warm pool's replenishment leads to.
#[derive(Debug, Clone, PartialEq, Eq)]
pub enum ReplenishStep {
    Finished(ManagementPoolCertificationProgress),
    /// The fresh sandboxes are to be listed by this selector.
    List(SandboxPoolCertificationStatus, String),
}

/// How many sandboxes a warm pool reports as ready.
pub open spec fn ready_replicas(warm_pool: DynamicObject) -> Option<int> {
    workload::status_integer(warm_pool.data@, "readyReplicas"@, 0, u64::MAX as int)
}

fn dynamic_ready_replicas(warm_pool: &DynamicObject) -> (count: Option<u64>)
    ensures
        match count {
            Some(count) => ready_replicas(*warm_pool) == Some(count as int),
            None => ready_replicas(*warm_pool) is None,
        },
{
    match warm_pool.data.get("status") {
        Some(status) => match status.get("readyReplicas") {
            Some(value) => value.as_u64(),
            None => None,
        },
        None => None,
    }
}

/// What a look at the replenished warm pool gives.
pub open spec fn replenishment_observed_gives(
    namespace: Seq<char>,
    warm_capacity: u32,
    lookup: Result<DynamicObject, ApiError>,
    status: SandboxPoolCertificationStatus,
    ready: u32,
    result: Result<ReplenishStep, String>,
) -> bool {
    match status.replenish_generation {
        None => result matches Ok(ReplenishStep::Finished(progress)) && attempt::blocks(
            progress,
            status,
            ready,
            "Replenished checkpoint has no exact WarmPool replenish generation"@,
        ),
        Some(generation) => match lookup {
            Err(error) => result matches Err(message) && message@ == capacity::read_error(
                error,
                status.sandbox_warm_pool@,
            ),
            Ok(warm_pool) => if capacity::is_drifted(
                warm_pool,
                namespace,
                status.sandbox_warm_pool@,
            ) {
                result matches Ok(ReplenishStep::Finished(progress)) && attempt::blocks(
                    progress,
                    status,
                    ready,
                    capacity::drift_message(status.sandbox_warm_pool@),
                )
            } else if !acknowledged(warm_pool, generation) {
                result matches Ok(ReplenishStep::Finished(progress)) && attempt::stays(
                    progress,
                    status,
                    ready,
                    false,
                    "CertificationReplenishing"@,
                    "waiting for WarmPool generation "@ + number::signed_decimal(
                        generation as int,
                    ) + " to be observed"@,
                )
            } else if ready_replicas(warm_pool) != Some(warm_capacity as int) {
                result matches Ok(ReplenishStep::Finished(progress)) && attempt::stays(
                    progress,
                    status,
                    ready,
                    false,
                    "CertificationReplenishing"@,
                    "waiting for "@ + number::decimal(warm_capacity as nat)
                        + " replenished ready replicas (now "@ + count_text(
                        ready_replicas(warm_pool),
                    ) + ")"@,
                )
            } else {
                result matches Ok(ReplenishStep::List(kept, selector)) && kept == status
                    && selector@ == population::selector_text(status.sandbox_warm_pool@.name)
            },
        },
    }
}

/// Replenished: waits until exactly the recorded generation is observed and the
/// whole capacity is ready. A drifted warm pool blocks the attempt.
pub fn replenishment_observed(
    namespace: &str,
    warm_capacity: u32,
    lookup: Result<DynamicObject, ApiError>,
    status: SandboxPoolCertificationStatus,
    ready: u32,
) -> (result: Result<ReplenishStep, String>)
    ensures
        replenishment_observed_gives(namespace@, warm_capacity, lookup, status, ready, result),
        result matches Ok(ReplenishStep::Finished(progress)) ==> attempt::follows(
            status,
            progress.status,
        ) && attempt::fence_kept(status, progress.status),
{
    let replenish_generation: i64 = match status.replenish_generation {
        Some(generation) => generation,
        None => {
            return Ok(
                ReplenishStep::Finished(
                    cleanup_blocked(
                        status,
                        ready,
                        "Replenished checkpoint has no exact WarmPool replenish generation",
                    ),
                ),
            );
        },
    };
    let warm_pool = match read_dynamic_exact(lookup, namespace, &status.sandbox_warm_pool) {
        Ok(ExactRead::Exact(warm_pool)) => warm_pool,
        Ok(ExactRead::Drifted(message)) => {
            return Ok(
                ReplenishStep::Finished(cleanup_blocked(status, ready, message.as_str())),
            );
        },
        Err(error) => {
            return Err(error);
        },
    };
    if !has_acknowledged(&warm_pool, replenish_generation) {
        let numeral = signed_decimal_text(replenish_generation);
        let message = concat3(
            "waiting for WarmPool generation ",
            numeral.as_str(),
            " to be observed",
        );
        return Ok(
            ReplenishStep::Finished(
                stay(status, ready, false, "CertificationReplenishing", message.as_str()),
            ),
        );
    }
    let found = dynamic_ready_replicas(&warm_pool);
    let complete = match found {
        Some(count) => count == warm_capacity as u64,
        None => false,
    };
    if !complete {
        let shown = match found {
            Some(count) => concat3("Some(", decimal_text(count).as_str(), ")"),
            None => "None".to_owned(),
        };
        let mut message = concat3(
            "waiting for ",
            decimal_text(warm_capacity as u64).as_str(),
            " replenished ready replicas (now ",
        );
        message.append(shown.as_str());
        message.append(")");
        return Ok(
            ReplenishStep::Finished(
                stay(status, ready, false, "CertificationReplenishing", message.as_str()),
            ),
        );
    }
    let selector = warm_pool_selector(status.sandbox_warm_pool.name.as_str());
    Ok(ReplenishStep::List(status, selector))
}

/// Whether a UID belongs to capacity that was to be replaced: the idle
/// population before the attempt, and the sacrificed sandbox.
pub open spec fn forbidden_uid(status: SandboxPoolCertificationStatus, uid: Seq<char>) -> bool {
    text::texts(status.baseline_idle_sandbox_uids@).contains(uid) || (status.sandbox matches Some(
        sacrificed,
    ) && sacrificed.uid@ == uid)
}

fn is_forbidden_uid(status: &SandboxPoolCertificationStatus, uid: &str) -> (result: bool)
    ensures
        result == forbidden_uid(*status, uid@),
{
    let sacrificed = match &status.sandbox {
        Some(sacrificed) => same_text(sacrificed.uid.as_str(), uid),
        None => false,
    };
    contains_text(status.baseline_idle_sandbox_uids.as_slice(), uid) || sacrificed
}

/// The first listed UID that was to be replaced.
pub open spec fn survivor(
    status: SandboxPoolCertificationStatus,
    listed: Seq<DynamicObject>,
) -> Option<Seq<char>>
    decreases listed.len(),
{
    if listed.len() == 0 {
        None
    } else {
        match survivor(status, listed.drop_last()) {
            Some(uid) => Some(uid),
            None => match listed.last().metadata@.uid {
                Some(uid) => if forbidden_uid(status, uid) {
                    Some(uid)
                } else {
                    None
                },
                None => None,
            },
        }
    }
}

proof fn lemma_survivor_stays(
    status: SandboxPoolCertificationStatus,
    listed: Seq<DynamicObject>,
    at: int,
)
    requires
        0 <= at <= listed.len(),
        survivor(status, listed.take(at)) is Some,
    ensures
        survivor(status, listed) == survivor(status, listed.take(at)),
    decreases listed.len(),
{
    if at == listed.len() {
        assert(listed.take(at) =~= listed);
    } else {
        assert(listed.drop_last().take(at) =~= listed.take(at));
        lemma_survivor_stays(status, listed.drop_last(), at);
    }
}

fn find_survivor(status: &SandboxPoolCertificationStatus, listed: &Vec<DynamicObject>) -> (found:
    Option<String>)
    ensures
        text::opt_text(found) == survivor(*status, listed@),
{
    let mut i: usize = 0;
    assert(listed@.take(0) =~= Seq::empty());
    while i < listed.len()
        invariant
            i <= listed@.len(),
            survivor(*status, listed@.take(i as int)) is None,
        decreases listed@.len() - i,
    {
        assert(listed@.take(i + 1).drop_last() =~= listed@.take(i as int));
        match &listed[i].metadata.uid {
            Some(uid) => {
                if is_forbidden_uid(status, uid.as_str()) {
                    proof {
                        lemma_survivor_stays(*status, listed@, i + 1);
                    }
                    return Some(uid.clone());
                }
            },
            None => {},
        }
        i = i + 1;
    }
    assert(listed@.take(listed@.len() as int) =~= listed@);
    None
}

/// What the list of fresh sandboxes leads to.
#[derive(Debug, Clone, PartialEq, Eq)]
pub enum FreshStep {
    Finished(ManagementPoolCertificationProgress),
    /// The capacity is fresh and whole; the fence can be released.
    Release(SandboxPoolCertificationStatus),
}

/// What the list of replenished sandboxes gives.
pub open spec fn replenishment_listed_gives(
    warm_capacity: u32,
    list: Result<Vec<DynamicObject>, ApiError>,
    status: SandboxPoolCertificationStatus,
    ready: u32,
    result: Result<FreshStep, String>,
) -> bool {
    match list {
        Err(error) => result matches Err(message) && message@
            == "replenished Sandbox list failed: "@ + error.error@,
        Ok(listed) => match survivor(status, listed@) {
            Some(uid) => result matches Ok(FreshStep::Finished(progress)) && attempt::blocks(
                progress,
                status,
                ready,
                "replenished capacity preserved replaced-generation Sandbox UID "@ + uid,
            ),
            None => if listed@.len() < warm_capacity {
                result matches Ok(FreshStep::Finished(progress)) && attempt::stays(
                    progress,
                    status,
                    ready,
                    false,
                    "CertificationReplenishing"@,
                    "waiting for the full replenished Sandbox set to be listable"@,
                )
            } else {
                result == Ok::<FreshStep, String>(FreshStep::Release(status))
            },
        },
    }
}

/// Replenished: proves that no sandbox that was to be replaced survived, and
/// that the whole capacity can be listed.
pub fn replenishment_listed(
    warm_capacity: u32,
    list: Result<Vec<DynamicObject>, ApiError>,
    status: SandboxPoolCertificationStatus,
    ready: u32,
) -> (result: Result<FreshStep, String>)
    ensures
        replenishment_listed_gives(warm_capacity, list, status, ready, result),
        result matches Ok(FreshStep::Finished(progress)) ==> attempt::follows(
            status,
            progress.status,
        ) && attempt::fence_kept(status, progress.status),
{
    let listed = match list {
        Ok(listed) => listed,
        Err(error) => {
            return Err(concat("replenished Sandbox list failed: ", error.error.as_str()));
        },
    };
    match find_survivor(&status, &listed) {
        Some(uid) => {
            let message = concat(
                "replenished capacity preserved replaced-generation Sandbox UID ",
                uid.as_str(),
            );
            return Ok(FreshStep::Finished(cleanup_blocked(status, ready, message.as_str())));
        },
        None => {},
    }
    if (listed.len() as u64) < warm_capacity as u64 {
        return Ok(
            FreshStep::Finished(
                stay(
                    status,
                    ready,
                    false,
                    "CertificationReplenishing",
                    "waiting for the full replenished Sandbox set to be listable",
                ),
            ),
        );
    }
    Ok(FreshStep::Release(status))
}

/// What became of the release of a fence.
#[derive(Debug, Clone, PartialEq, Eq)]
pub enum Released {
    Accepted,
    /// The fence had changed.
    Conflicted,
    Failed(ApiError),
}

/// What the release of the fence gives.
pub open spec fn replenished_proves_and_releases_the_fence_gives(
    released: Released,
    status: SandboxPoolCertificationStatus,
    ready: u32,
    result: Result<ManagementPoolCertificationProgress, String>,
) -> bool {
    match released {
        Released::Accepted => result matches Ok(progress) && attempt::records(
            progress,
            status,
            SandboxPoolCertificationPhase::FenceFinalizerRemoved,
            ready,
            true,
            "CertificationReplenished"@,
            "capacity restored on a fresh generation with only new UIDs; releasing the exact teardown fence"@,
        ),
        Released::Conflicted => result matches Ok(progress) && attempt::stays(
            progress,
            status,
            ready,
            false,
            "CertificationFenceReleaseContended"@,
            "the teardown fence changed while releasing its finalizer; retrying"@,
        ),
        Released::Failed(error) => result matches Err(message) && message@
            == "teardown fence finalizer release failed: "@ + error.error@,
    }
}

/// Replenished: records that the fence's finalizer was released.
pub fn replenished_proves_and_releases_the_fence(
    released: Released,
    status: SandboxPoolCertificationStatus,
    ready: u32,
) -> (result: Result<ManagementPoolCertificationProgress, String>)
    ensures
        replenished_proves_and_releases_the_fence_gives(released, status, ready, result),
        status.phase is Replenished ==> (result matches Ok(progress) ==> attempt::follows(
            status,
            progress.status,
        ) && attempt::fence_kept(status, progress.status)),
{
    match released {
        Released::Accepted => Ok(
            record(
                status,
                SandboxPoolCertificationPhase::FenceFinalizerRemoved,
                ready,
                true,
                "CertificationReplenished",
                "capacity restored on a fresh generation with only new UIDs; releasing the exact teardown fence",
            ),
        ),
        Released::Conflicted => Ok(
            stay(
                status,
                ready,
                false,
                "CertificationFenceReleaseContended",
                "the teardown fence changed while releasing its finalizer; retrying",
            ),
        ),
        Released::Failed(error) => Err(
            concat("teardown fence finalizer release failed: ", error.error.as_str()),
        ),
    }
}

/// What the deletion of the fence gives.
pub open spec fn released_fence_is_deleted_gives(
    deleted: Result<(), ApiError>,
    status: SandboxPoolCertificationStatus,
    ready: u32,
    result: Result<ManagementPoolCertificationProgress, String>,
) -> bool {
    match deleted {
        Ok(_) => result matches Ok(progress) && attempt::records(
            progress,
            status,
            SandboxPoolCertificationPhase::FenceDeleting,
            ready,
            true,
            "CertificationFenceDeleting"@,
            "deleted the released teardown fence; absence confirms the next pass"@,
        ),
        Err(error) => if error.code == Some(404u16) {
            result matches Ok(progress) && attempt::records(
                progress,
                status,
                SandboxPoolCertificationPhase::FenceDeleting,
                ready,
                true,
                "CertificationFenceDeleting"@,
                "deleted the released teardown fence; absence confirms the next pass"@,
            )
        } else if error.code == Some(409u16) {
            result matches Ok(progress) && attempt::stays(
                progress,
                status,
                ready,
                false,
                "CertificationFenceTerminating"@,
                "teardown fence deletion is contended; retrying against the surviving object"@,
            )
        } else if error.code == Some(403u16) {
            result matches Ok(progress) && attempt::blocks(
                progress,
                status,
                ready,
                "teardown fence deletion is forbidden: "@ + error.response@,
            )
        } else {
            result matches Err(message) && message@ == "teardown fence deletion failed: "@
                + error.error@
        },
    }
}

/// FenceFinalizerRemoved: records that the released fence was deleted.
pub fn released_fence_is_deleted(
    deleted: Result<(), ApiError>,
    status: SandboxPoolCertificationStatus,
    ready: u32,
) -> (result: Result<ManagementPoolCertificationProgress, String>)
    ensures
        released_fence_is_deleted_gives(deleted, status, ready, result),
        status.phase is FenceFinalizerRemoved ==> (result matches Ok(progress) ==> attempt::follows(
            status,
            progress.status,
        ) && attempt::fence_kept(status, progress.status)),
{
    match deleted {
        Ok(_) => {},
        Err(error) => {
            if answered(&error, 404) {
            } else if answered(&error, 409) {
                return Ok(
                    stay(
                        status,
                        ready,
                        false,
                        "CertificationFenceTerminating",
                        "teardown fence deletion is contended; retrying against the surviving object",
                    ),
                );
            } else if answered(&error, 403) {
                let message = concat(
                    "teardown fence deletion is forbidden: ",
                    error.response.as_str(),
                );
                return Ok(cleanup_blocked(status, ready, message.as_str()));
            } else {
                return Err(concat("teardown fence deletion failed: ", error.error.as_str()));
            }
        },
    }
    Ok(
        record(
            status,
            SandboxPoolCertificationPhase::FenceDeleting,
            ready,
            true,
            "CertificationFenceDeleting",
            "deleted the released teardown fence; absence confirms the next pass",
        ),
    )
}

/// Whether a pass judged the fence's absence, at some time.
pub open spec fn records_completion(
    result: Result<ManagementPoolCertificationProgress, String>,
    lookup: Result<ConfigMap, ApiError>,
    status: SandboxPoolCertificationStatus,
    ready: u32,
) -> bool {
    match lookup {
        Err(error) => if error.code == Some(404u16) {
            result matches Ok(progress) && progress.status.certified_at is Some && attempt::records(
                progress,
                SandboxPoolCertificationStatus {
                    certified_at: progress.status.certified_at,
                    ..status
                },
                SandboxPoolCertificationPhase::Certified,
                ready,
                true,
                "Certified"@,
                "current-generation exact pool certification receipt is complete"@,
            )
        } else {
            result matches Err(message) && message@ == "teardown fence lookup failed: "@
                + error.error@
        },
        Ok(fence) => if fence.metadata@.deleting() {
            result matches Ok(progress) && attempt::stays(
                progress,
                status,
                ready,
                false,
                "CertificationFenceDeleting"@,
                "waiting for the released teardown fence to disappear"@,
            )
        } else {
            result matches Ok(progress) && attempt::blocks(
                progress,
                status,
                ready,
                "released teardown fence exists without a deletion timestamp"@,
            )
        },
    }
}

/// FenceDeleting: the fence's absence is the last proof; certifies the pool at
/// this time.
pub fn fence_absence_certifies_at(
    lookup: Result<ConfigMap, ApiError>,
    now: String,
    status: SandboxPoolCertificationStatus,
    ready: u32,
) -> (result: Result<ManagementPoolCertificationProgress, String>)
    ensures
        records_completion(result, lookup, status, ready),
        result matches Ok(progress) ==> (progress.certified ==> progress.status.certified_at
            == Some(now)),
        status.phase is FenceDeleting ==> (result matches Ok(progress) ==> attempt::follows(
            status,
            progress.status,
        ) && attempt::fence_kept(status, progress.status)),
{
    match lookup {
        Err(error) => {
            if answered(&error, 404) {
                let mut status = status;
                status.certified_at = Some(now);
                return Ok(
                    record(
                        status,
                        SandboxPoolCertificationPhase::Certified,
                        ready,
                        true,
                        "Certified",
                        "current-generation exact pool certification receipt is complete",
                    ),
                );
            }
            Err(concat("teardown fence lookup failed: ", error.error.as_str()))
        },
        Ok(fence) => {
            if fence.metadata.is_deleting() {
                return Ok(
                    stay(
                        status,
                        ready,
                        false,
                        "CertificationFenceDeleting",
                        "waiting for the released teardown fence to disappear",
                    ),
                );
            }
            Ok(
                cleanup_blocked(
                    status,
                    ready,
                    "released teardown fence exists without a deletion timestamp",
                ),
            )
        },
    }
}

/// FenceDeleting: the fence's absence is the last proof; certifies the pool
/// now.
pub fn deleted_fence_completes_certification(
    lookup: Result<ConfigMap, ApiError>,
    status: SandboxPoolCertificationStatus,
    ready: u32,
) -> (result: Result<ManagementPoolCertificationProgress, String>)
    ensures
        records_completion(result, lookup, status, ready),
        status.phase is FenceDeleting ==> (result matches Ok(progress) ==> attempt::follows(
            status,
            progress.status,
        ) && attempt::fence_kept(status, progress.status)),
{
    fence_absence_certifies_at(lookup, now_rfc3339(), status, ready)
}

/// Restored capacity is only taken for fresh where none of the sandboxes in it
/// was there before the attempt, nor was sacrificed.
pub proof fn law_fresh_capacity_has_only_new_uids(
    status: SandboxPoolCertificationStatus,
    listed: Seq<DynamicObject>,
)
    requires
        survivor(status, listed) is None,
    ensures
        forall|i: int, uid: Seq<char>|
            0 <= i < listed.len() && (#[trigger] listed[i]).metadata@.uid == Some(uid)
                ==> !#[trigger] forbidden_uid(status, uid),
    decreases listed.len(),
{
    if listed.len() > 0 {
        let less = listed.drop_last();
        law_fresh_capacity_has_only_new_uids(status, less);
        assert forall|i: int, uid: Seq<char>|
            0 <= i < listed.len() && (#[trigger] listed[i]).metadata@.uid == Some(
                uid,
            ) implies !#[trigger] forbidden_uid(status, uid) by {
            if i < less.len() {
                assert(less[i] == listed[i]);
            }
        }
    }
}

/// Whether these lookups lead, one after the other, to the point where every
/// absence is proven.
pub open spec fn absences_proven(
    status: SandboxPoolCertificationStatus,
    lookups: Seq<Result<DynamicObject, ApiError>>,
) -> bool {
    &&& forall|i: int|
        0 <= i < lookups.len() ==> !(absence_target(status, i) is Complete) && target_absence(
            absence_target(status, i),
            #[trigger] lookups[i],
        ).0 == Ok::<capacity::AbsenceView, Seq<char>>(capacity::AbsenceView::Proven)
    &&& absence_target(status, lookups.len() as int) is Complete
}

/// Capacity is restored only after every recorded object was looked up under its
/// own name and not found: the claim, the sandbox, each volume claim and each
/// volume, in this order and nothing else.
pub proof fn law_capacity_waits_for_every_absence(
    status: SandboxPoolCertificationStatus,
    lookups: Seq<Result<DynamicObject, ApiError>>,
)
    requires
        absences_proven(status, lookups),
    ensures
        status.sandbox_claim is Some,
        status.sandbox is Some,
        lookups.len() == 2 + status.persistent_volume_claims@.len()
            + status.persistent_volumes@.len(),
        forall|i: int|
            0 <= i < lookups.len() ==> (#[trigger] lookups[i] matches Err(error) && error.code
                == Some(404u16)),
{
    let claims = status.persistent_volume_claims@.len() as int;
    let volumes = status.persistent_volumes@.len() as int;
    assert forall|i: int| 0 <= i < lookups.len() implies (#[trigger] lookups[i] matches Err(error)
        && error.code == Some(404u16)) by {
        assert(!(absence_target(status, i) is Complete));
    }
    let count = 2 + claims + volumes;
    assert(absence_target(status, count) is Complete);
    if lookups.len() > count {
        assert(target_absence(absence_target(status, count), lookups[count]).0 is Ok);
    }
    if lookups.len() < count {
        assert(!(absence_target(status, lookups.len() as int) is Complete));
    }
    reveal_strlit("SandboxClaim");
    reveal_strlit("Sandbox");
    assert("SandboxClaim"@.len() == 12 && "Sandbox"@.len() == 7);
    assert(target_absence(absence_target(status, 0), lookups[0]).0 is Ok);
    assert(target_absence(absence_target(status, 1), lookups[1]).0 is Ok);
}

} // verus!
