//! The conversation in which the workload of a ready certification claim is
//! proven and recorded.

use crate::certification::attempt::{self, cleanup_blocked, ManagementPoolCertificationProgress};
use crate::certification::identity;
use crate::certification::names::{
    AGENT_SANDBOX_API_VERSION, SANDBOX_API_VERSION, SANDBOX_CLAIM_KIND, SANDBOX_KIND,
};
use crate::certification::population::ResolvedSandboxPod;
use crate::certification::revalidation::CapturedAnswer;
use crate::certification::steps::{
    self, capture_workload, claimed_sandbox, claimed_workload, recorded_claim_ready,
    workload_captured, ObjectStep,
};
use crate::certification::storage::{self, capture_volume_claims, capture_volumes};
use crate::certification::validation::{
    self, begin_resolved_workload, validate_resolved_workload, WorkloadStage, WorkloadStep,
    WorkloadValidation,
};
use crate::certification::workload;
use crate::crd::sandbox::{
    self, SandboxObjectReference, SandboxPoolCertificationPhase, SandboxPoolCertificationStatus,
};
use crate::k8s::DynamicObject;
use vstd::prelude::*;
use vstd::string::*;

verus! {

/// What is asked next while a workload is captured.
#[derive(Debug, Clone, PartialEq, Eq)]
pub enum CaptureStage {
    /// Look the recorded claim up.
    Claim,
    /// Resolve the workload of this claim.
    Resolution(DynamicObject),
    /// Look the sandbox of this workload up.
    Sandbox(ResolvedSandboxPod),
    /// Prove the workload.
    Workload(DynamicObject, ResolvedSandboxPod, WorkloadStage),
    /// List the volume claims of the sandbox with this UID.
    VolumeClaims(String),
    /// List the volumes; these are the workload's claims.
    Volumes(Vec<SandboxObjectReference>),
}

/// Whether an answer is one to a stage's query.
pub open spec fn is_answered_by(stage: CaptureStage, answer: CapturedAnswer) -> bool {
    match (stage, answer) {
        (CaptureStage::Claim, CapturedAnswer::Object(_)) => true,
        (CaptureStage::Resolution(_), CapturedAnswer::Resolution(_)) => true,
        (CaptureStage::Sandbox(_), CapturedAnswer::Object(_)) => true,
        (
            CaptureStage::Workload(_, _, stage),
            CapturedAnswer::Cluster(answer),
        ) => stage@.is_answered_by(answer),
        (CaptureStage::VolumeClaims(_), CapturedAnswer::VolumeClaims(_)) => true,
        (CaptureStage::Volumes(_), CapturedAnswer::Volumes(_)) => true,
        _ => false,
    }
}

/// What an answer leads to while a workload is captured.
#[derive(Debug, Clone, PartialEq, Eq)]
pub enum CaptureStep {
    Ask(SandboxPoolCertificationStatus, CaptureStage),
    Finished(ManagementPoolCertificationProgress),
}

/// Whether a result ends the pass with a blocked attempt.
pub open spec fn ends_blocked(
    result: Result<CaptureStep, String>,
    status: SandboxPoolCertificationStatus,
    ready: u32,
    message: Seq<char>,
) -> bool {
    result matches Ok(CaptureStep::Finished(progress)) && attempt::blocks(
        progress,
        status,
        ready,
        message,
    )
}

/// Whether a result is this error.
pub open spec fn fails(result: Result<CaptureStep, String>, message: Seq<char>) -> bool {
    result matches Err(error) && error@ == message
}

/// What looking the recorded claim up leads to.
pub open spec fn claim_leads_to(
    namespace: Seq<char>,
    status: SandboxPoolCertificationStatus,
    ready: u32,
    answer: CapturedAnswer,
    result: Result<CaptureStep, String>,
) -> bool {
    match (status.sandbox_claim, answer->Object_0) {
        (None, _) => ends_blocked(
            result,
            status,
            ready,
            "ClaimCreated checkpoint has no exact SandboxClaim reference"@,
        ),
        (Some(_), Err(error)) => if error.code == Some(404u16) || error.code == Some(403u16) {
            ends_blocked(
                result,
                status,
                ready,
                "recorded certification Claim cannot be proven: "@ + error.response@,
            )
        } else {
            fails(result, "certification Claim lookup failed: "@ + error.error@)
        },
        (Some(recorded), Ok(object)) => if !identity::reference_matches(
            recorded@,
            object.metadata@,
            AGENT_SANDBOX_API_VERSION@,
            SANDBOX_CLAIM_KIND@,
            namespace,
            recorded@.name,
        ) {
            ends_blocked(
                result,
                status,
                ready,
                "recorded certification Claim was replaced or changed identity"@,
            )
        } else if !workload::ready_at_generation(object) {
            result matches Ok(CaptureStep::Finished(progress)) && attempt::stays(
                progress,
                status,
                ready,
                false,
                "CertificationClaimPending"@,
                "waiting for the exact certification Claim to become Ready"@,
            )
        } else {
            result == Ok::<CaptureStep, String>(
                CaptureStep::Ask(status, CaptureStage::Resolution(object)),
            )
        },
    }
}

/// What an answer about the workload leads to: the next query, a blocked attempt,
/// or, where it is proven, the record of its identities.
pub open spec fn workload_leads_to(
    namespace: Seq<char>,
    status: SandboxPoolCertificationStatus,
    ready: u32,
    object: DynamicObject,
    resolved: ResolvedSandboxPod,
    next: Result<validation::WorkloadStepView, Seq<char>>,
    result: Result<CaptureStep, String>,
) -> bool {
    match next {
        Err(error) => ends_blocked(result, status, ready, error),
        Ok(validation::WorkloadStepView::Ask(stage)) => {
            &&& result matches Ok(CaptureStep::Ask(kept, CaptureStage::Workload(o, r, asked)))
            &&& kept == status && o == object && r == resolved && asked@ == stage
        },
        Ok(validation::WorkloadStepView::Proven) => match identity::reference_to(
            object.metadata@,
            SANDBOX_API_VERSION@,
            SANDBOX_KIND@,
        ) {
            Err(error) => fails(result, error),
            Ok(reference) => {
                &&& result matches Ok(CaptureStep::Ask(captured, CaptureStage::VolumeClaims(uid)))
                &&& steps::captures(captured, status, reference, resolved@, namespace)
                &&& uid@ == resolved@.sandbox_uid
            },
        },
    }
}

/// Whether an answer leads to this while a workload is captured.
pub open spec fn leads_to(
    validation: validation::WorkloadValidationView,
    namespace: Seq<char>,
    status: SandboxPoolCertificationStatus,
    ready: u32,
    stage: CaptureStage,
    answer: CapturedAnswer,
    result: Result<CaptureStep, String>,
) -> bool {
    match (stage, answer) {
        (CaptureStage::Claim, CapturedAnswer::Object(_)) => claim_leads_to(
            namespace,
            status,
            ready,
            answer,
            result,
        ),
        (CaptureStage::Resolution(_), CapturedAnswer::Resolution(resolution)) => match resolution {
            Err(error) => fails(result, error@),
            Ok(None) => fails(
                result,
                "dedicated certification Claim has no exact Ready workload"@,
            ),
            Ok(Some(resolved)) => result == Ok::<CaptureStep, String>(
                CaptureStep::Ask(status, CaptureStage::Sandbox(resolved)),
            ),
        },
        (CaptureStage::Sandbox(resolved), CapturedAnswer::Object(lookup)) => match lookup {
            Err(error) => ends_blocked(
                result,
                status,
                ready,
                "certification Sandbox cannot be proven: "@ + error.error@,
            ),
            Ok(object) => workload_leads_to(
                namespace,
                status,
                ready,
                object,
                resolved,
                match validation::workload_first(validation, object, resolved@) {
                    Ok(first) => Ok(validation::WorkloadStepView::Ask(first)),
                    Err(error) => Err(error),
                },
                result,
            ),
        },
        (
            CaptureStage::Workload(object, resolved, stage),
            CapturedAnswer::Cluster(answer),
        ) => workload_leads_to(
            namespace,
            status,
            ready,
            object,
            resolved,
            validation::workload_next(validation, resolved@, stage@, answer),
            result,
        ),
        (
            CaptureStage::VolumeClaims(uid),
            CapturedAnswer::VolumeClaims(list),
        ) => match storage::claim_manifest(list, uid@) {
            Err(error) => fails(result, error),
            Ok(found) => {
                &&& result matches Ok(CaptureStep::Ask(kept, CaptureStage::Volumes(claims)))
                &&& kept == status && sandbox::reference_views(claims@) == found
            },
        },
        (
            CaptureStage::Volumes(claims),
            CapturedAnswer::Volumes(list),
        ) => match storage::volume_manifest(list, sandbox::reference_views(claims@)) {
            Err(error) => fails(result, error),
            Ok(found) => {
                &&& result matches Ok(CaptureStep::Finished(progress))
                &&& sandbox::reference_views(progress.status.persistent_volumes@) == found
                &&& attempt::records(
                    progress,
                    SandboxPoolCertificationStatus {
                        persistent_volume_claims: claims,
                        persistent_volumes: progress.status.persistent_volumes,
                        ..status
                    },
                    SandboxPoolCertificationPhase::WorkloadCaptured,
                    ready,
                    false,
                    "CertificationWorkloadCaptured"@,
                    "checkpointed exact Claim, Sandbox, Pod and Service identities"@,
                )
            },
        },
        _ => false,
    }
}

/// ClaimCreated: goes on to capture the claimed workload. A workload that cannot
/// be proven blocks the attempt; one that can is recorded with its storage.
pub fn capture_claimed_workload(
    validation: &WorkloadValidation<'_>,
    namespace: &str,
    status: SandboxPoolCertificationStatus,
    ready: u32,
    stage: CaptureStage,
    answer: CapturedAnswer,
) -> (result: Result<CaptureStep, String>)
    requires
        is_answered_by(stage, answer),
    ensures
        leads_to(validation@, namespace@, status, ready, stage, answer, result),
{
    match (stage, answer) {
        (CaptureStage::Claim, CapturedAnswer::Object(lookup)) => {
            match recorded_claim_ready(namespace, lookup, status, ready) {
                Ok(ObjectStep::Found(status, claim)) => Ok(
                    CaptureStep::Ask(status, CaptureStage::Resolution(claim)),
                ),
                Ok(ObjectStep::Finished(progress)) => Ok(CaptureStep::Finished(progress)),
                Err(error) => Err(error),
            }
        },
        (CaptureStage::Resolution(_), CapturedAnswer::Resolution(resolution)) => {
            match claimed_workload(resolution) {
                Ok(resolved) => Ok(CaptureStep::Ask(status, CaptureStage::Sandbox(resolved))),
                Err(error) => Err(error),
            }
        },
        (CaptureStage::Sandbox(resolved), CapturedAnswer::Object(lookup)) => {
            match claimed_sandbox(lookup, status, ready) {
                ObjectStep::Finished(progress) => Ok(CaptureStep::Finished(progress)),
                ObjectStep::Found(status, object) => {
                    match begin_resolved_workload(validation, &object, &resolved) {
                        Ok(stage) => Ok(
                            CaptureStep::Ask(
                                status,
                                CaptureStage::Workload(object, resolved, stage),
                            ),
                        ),
                        Err(error) => Ok(
                            CaptureStep::Finished(cleanup_blocked(status, ready, error.as_str())),
                        ),
                    }
                },
            }
        },
        (CaptureStage::Workload(object, resolved, stage), CapturedAnswer::Cluster(answer)) => {
            match validate_resolved_workload(validation, &resolved, stage, answer) {
                Ok(WorkloadStep::Ask(stage)) => Ok(
                    CaptureStep::Ask(status, CaptureStage::Workload(object, resolved, stage)),
                ),
                Ok(WorkloadStep::Proven) => {
                    match capture_workload(namespace, &object, &resolved, status) {
                        Ok(captured) => Ok(
                            CaptureStep::Ask(
                                captured,
                                CaptureStage::VolumeClaims(resolved.sandbox_uid),
                            ),
                        ),
                        Err(error) => Err(error),
                    }
                },
                Err(error) => Ok(
                    CaptureStep::Finished(cleanup_blocked(status, ready, error.as_str())),
                ),
            }
        },
        (CaptureStage::VolumeClaims(uid), CapturedAnswer::VolumeClaims(list)) => {
            match capture_volume_claims(list, uid.as_str()) {
                Ok(claims) => Ok(CaptureStep::Ask(status, CaptureStage::Volumes(claims))),
                Err(error) => Err(error),
            }
        },
        (CaptureStage::Volumes(claims), CapturedAnswer::Volumes(list)) => {
            match capture_volumes(list, &claims) {
                Ok(volumes) => Ok(
                    CaptureStep::Finished(workload_captured(claims, volumes, status, ready)),
                ),
                Err(error) => Err(error),
            }
        },
        _ => Err(String::new()),
    }
}

/// Whether the record at a stage rests on the one that the pass began with: it is
/// the same, or holds the captured identities on top of it.
pub open spec fn rests_on(
    stage: CaptureStage,
    status: SandboxPoolCertificationStatus,
    begun: SandboxPoolCertificationStatus,
) -> bool {
    match stage {
        CaptureStage::VolumeClaims(_) => steps::captured_on_top_of(status, begun),
        CaptureStage::Volumes(_) => steps::captured_on_top_of(status, begun),
        _ => status == begun,
    }
}

/// Whatever is answered while a workload is captured, the record goes on from
/// what the pass began with: nothing recorded is lost, the phase takes at most
/// one step, and a recorded fence stays.
pub proof fn law_capture_goes_on_from_the_record(
    validation: validation::WorkloadValidationView,
    namespace: Seq<char>,
    begun: SandboxPoolCertificationStatus,
    status: SandboxPoolCertificationStatus,
    ready: u32,
    stage: CaptureStage,
    answer: CapturedAnswer,
    result: Result<CaptureStep, String>,
)
    requires
        begun.phase is ClaimCreated,
        rests_on(stage, status, begun),
        leads_to(validation, namespace, status, ready, stage, answer, result),
    ensures
        match result {
            Ok(CaptureStep::Ask(next, asked)) => rests_on(asked, next, begun),
            Ok(CaptureStep::Finished(progress)) => attempt::follows(begun, progress.status)
                && attempt::fence_kept(begun, progress.status),
            Err(_) => true,
        },
{
}

} // verus!
