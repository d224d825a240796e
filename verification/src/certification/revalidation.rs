//! The conversation in which a captured workload is proven again: its claim, its
//! sandbox, what the claim resolves to, the workload itself and its storage.

use crate::certification::attempt::{self, cleanup_blocked, ManagementPoolCertificationProgress};
use crate::certification::captured::{
    self, captured_references, validate_captured_claim, validate_captured_identity,
    validate_captured_sandbox, validate_captured_storage,
};
use crate::certification::population::{self, ResolvedSandboxPod};
use crate::certification::storage::{self, capture_volume_claims, capture_volumes};
use crate::certification::validation::{
    self, begin_resolved_workload, validate_resolved_workload, ClusterAnswer, WorkloadStage,
    WorkloadStep, WorkloadValidation,
};
use crate::crd::sandbox::{self, SandboxObjectReference, SandboxPoolCertificationStatus};
use crate::k8s::{ApiError, DynamicObject, ObjectMeta, PersistentVolume};
use vstd::prelude::*;
use vstd::string::*;

verus! {

/// What is asked next while a captured workload is proven again.
#[derive(Debug, Clone, PartialEq, Eq)]
pub enum CapturedStage {
    /// Look the claim of this name up.
    Claim(String),
    /// Look the sandbox of this name up.
    Sandbox(String, DynamicObject),
    /// Resolve the workload of this claim; its sandbox was looked up too.
    Resolution(DynamicObject, DynamicObject),
    /// Prove the workload.
    Workload(ResolvedSandboxPod, WorkloadStage),
    /// List the volume claims.
    VolumeClaims(ResolvedSandboxPod),
    /// List the volumes; these are the workload's claims.
    Volumes(ResolvedSandboxPod, Vec<SandboxObjectReference>),
}

/// What a stage asks.
pub enum CapturedStageView {
    Claim(Seq<char>),
    Sandbox(Seq<char>, DynamicObject),
    Resolution(DynamicObject, DynamicObject),
    Workload(population::ResolvedView, validation::WorkloadStageView),
    VolumeClaims(population::ResolvedView),
    Volumes(population::ResolvedView, Seq<sandbox::ReferenceView>),
}

impl View for CapturedStage {
    type V = CapturedStageView;

    open spec fn view(&self) -> CapturedStageView {
        match self {
            CapturedStage::Claim(name) => CapturedStageView::Claim(name@),
            CapturedStage::Sandbox(name, claim) => CapturedStageView::Sandbox(name@, *claim),
            CapturedStage::Resolution(claim, object) => CapturedStageView::Resolution(
                *claim,
                *object,
            ),
            CapturedStage::Workload(resolved, stage) => CapturedStageView::Workload(
                resolved@,
                stage@,
            ),
            CapturedStage::VolumeClaims(resolved) => CapturedStageView::VolumeClaims(resolved@),
            CapturedStage::Volumes(resolved, claims) => CapturedStageView::Volumes(
                resolved@,
                sandbox::reference_views(claims@),
            ),
        }
    }
}

/// What was answered about a captured workload.
#[derive(Debug)]
pub enum CapturedAnswer {
    Object(Result<DynamicObject, ApiError>),
    Resolution(Result<Option<ResolvedSandboxPod>, String>),
    Cluster(ClusterAnswer),
    VolumeClaims(Result<Vec<ObjectMeta>, ApiError>),
    Volumes(Result<Vec<PersistentVolume>, ApiError>),
}

impl CapturedStageView {
    /// Whether an answer is one to this stage's query.
    pub open spec fn is_answered_by(self, answer: CapturedAnswer) -> bool {
        match (self, answer) {
            (CapturedStageView::Claim(_), CapturedAnswer::Object(_)) => true,
            (CapturedStageView::Sandbox(_, _), CapturedAnswer::Object(_)) => true,
            (CapturedStageView::Resolution(_, _), CapturedAnswer::Resolution(_)) => true,
            (
                CapturedStageView::Workload(_, stage),
                CapturedAnswer::Cluster(answer),
            ) => stage.is_answered_by(answer),
            (CapturedStageView::VolumeClaims(_), CapturedAnswer::VolumeClaims(_)) => true,
            (CapturedStageView::Volumes(_, _), CapturedAnswer::Volumes(_)) => true,
            _ => false,
        }
    }
}

/// What an answer leads to while a captured workload is proven again.
#[derive(Debug, Clone, PartialEq, Eq)]
pub enum CapturedStep {
    Ask(CapturedStage),
    Proven(ResolvedSandboxPod),
}

/// What a step says.
pub enum CapturedStepView {
    Ask(CapturedStageView),
    Proven(population::ResolvedView),
}

/// What a result that holds a step says.
pub open spec fn captured_outcome(result: Result<CapturedStep, String>) -> Result<
    CapturedStepView,
    Seq<char>,
> {
    match result {
        Ok(CapturedStep::Ask(stage)) => Ok(CapturedStepView::Ask(stage@)),
        Ok(CapturedStep::Proven(resolved)) => Ok(CapturedStepView::Proven(resolved@)),
        Err(error) => Err(error@),
    }
}

/// Where an answer leads in the proof of a captured workload.
pub open spec fn captured_next(
    validation: validation::WorkloadValidationView,
    namespace: Seq<char>,
    status: SandboxPoolCertificationStatus,
    stage: CapturedStageView,
    answer: CapturedAnswer,
) -> Result<CapturedStepView, Seq<char>>
    recommends
        captured::workload_recorded(status),
        stage.is_answered_by(answer),
{
    let claim = status.sandbox_claim->0@;
    let object = status.sandbox->0@;
    let pod = status.pod->0@;
    match (stage, answer) {
        (
            CapturedStageView::Claim(_),
            CapturedAnswer::Object(lookup),
        ) => match captured::captured_claim(claim, namespace, lookup) {
            Ok(found) => Ok(CapturedStepView::Ask(CapturedStageView::Sandbox(object.name, found))),
            Err(error) => Err(error),
        },
        (
            CapturedStageView::Sandbox(_, found_claim),
            CapturedAnswer::Object(lookup),
        ) => match captured::captured_sandbox(object, namespace, lookup) {
            Ok(found) => Ok(
                CapturedStepView::Ask(CapturedStageView::Resolution(found_claim, found)),
            ),
            Err(error) => Err(error),
        },
        (
            CapturedStageView::Resolution(_, found),
            CapturedAnswer::Resolution(resolution),
        ) => match captured::captured_identity(
            resolution,
            object,
            pod,
            sandbox::opt_reference(status.service),
        ) {
            Ok(resolved) => match validation::workload_first(validation, found, resolved) {
                Ok(stage) => Ok(CapturedStepView::Ask(CapturedStageView::Workload(resolved, stage))),
                Err(error) => Err(error),
            },
            Err(error) => Err(error),
        },
        (
            CapturedStageView::Workload(resolved, stage),
            CapturedAnswer::Cluster(answer),
        ) => match validation::workload_next(validation, resolved, stage, answer) {
            Ok(validation::WorkloadStepView::Ask(stage)) => Ok(
                CapturedStepView::Ask(CapturedStageView::Workload(resolved, stage)),
            ),
            Ok(validation::WorkloadStepView::Proven) => Ok(
                CapturedStepView::Ask(CapturedStageView::VolumeClaims(resolved)),
            ),
            Err(error) => Err(error),
        },
        (
            CapturedStageView::VolumeClaims(resolved),
            CapturedAnswer::VolumeClaims(list),
        ) => match storage::claim_manifest(list, object.uid) {
            Ok(claims) => Ok(CapturedStepView::Ask(CapturedStageView::Volumes(resolved, claims))),
            Err(error) => Err(error),
        },
        (
            CapturedStageView::Volumes(resolved, claims),
            CapturedAnswer::Volumes(list),
        ) => match storage::volume_manifest(list, claims) {
            Ok(volumes) => match captured::captured_storage_error(claims, volumes, status) {
                None => Ok(CapturedStepView::Proven(resolved)),
                Some(error) => Err(error),
            },
            Err(error) => Err(error),
        },
        _ => Err(Seq::empty()),
    }
}

/// Begins to prove a captured workload again: it has to be recorded.
pub fn begin_captured_workload(status: &SandboxPoolCertificationStatus) -> (result: Result<
    CapturedStage,
    String,
>)
    ensures
        match result {
            Ok(stage) => captured::workload_recorded(*status) && stage@ == CapturedStageView::Claim(
                status.sandbox_claim->0@.name,
            ),
            Err(error) => !captured::workload_recorded(*status) && error@
                == "captured certification workload is missing an exact Claim, Sandbox or Pod reference"@,
        },
{
    match captured_references(status) {
        Ok(references) => Ok(CapturedStage::Claim(references.0.name.clone())),
        Err(error) => Err(error),
    }
}

/// Goes on to prove a captured workload again. Any doubt is an error.
pub fn revalidate_captured_workload(
    validation: &WorkloadValidation<'_>,
    namespace: &str,
    status: &SandboxPoolCertificationStatus,
    stage: CapturedStage,
    answer: CapturedAnswer,
) -> (result: Result<CapturedStep, String>)
    requires
        captured::workload_recorded(*status),
        stage@.is_answered_by(answer),
    ensures
        captured_outcome(result) == captured_next(
            validation@,
            namespace@,
            *status,
            stage@,
            answer,
        ),
{
    let (claim, object, pod) = match captured_references(status) {
        Ok(references) => references,
        Err(error) => {
            return Err(error);
        },
    };
    match (stage, answer) {
        (CapturedStage::Claim(_), CapturedAnswer::Object(lookup)) => {
            match validate_captured_claim(claim, namespace, lookup) {
                Ok(found) => Ok(
                    CapturedStep::Ask(CapturedStage::Sandbox(object.name.clone(), found)),
                ),
                Err(error) => Err(error),
            }
        },
        (CapturedStage::Sandbox(_, found_claim), CapturedAnswer::Object(lookup)) => {
            match validate_captured_sandbox(object, namespace, lookup) {
                Ok(found) => Ok(CapturedStep::Ask(CapturedStage::Resolution(found_claim, found))),
                Err(error) => Err(error),
            }
        },
        (CapturedStage::Resolution(_, found), CapturedAnswer::Resolution(resolution)) => {
            match validate_captured_identity(resolution, object, pod, &status.service) {
                Ok(resolved) => match begin_resolved_workload(validation, &found, &resolved) {
                    Ok(stage) => Ok(CapturedStep::Ask(CapturedStage::Workload(resolved, stage))),
                    Err(error) => Err(error),
                },
                Err(error) => Err(error),
            }
        },
        (CapturedStage::Workload(resolved, stage), CapturedAnswer::Cluster(answer)) => {
            match validate_resolved_workload(validation, &resolved, stage, answer) {
                Ok(WorkloadStep::Ask(stage)) => Ok(
                    CapturedStep::Ask(CapturedStage::Workload(resolved, stage)),
                ),
                Ok(WorkloadStep::Proven) => Ok(
                    CapturedStep::Ask(CapturedStage::VolumeClaims(resolved)),
                ),
                Err(error) => Err(error),
            }
        },
        (CapturedStage::VolumeClaims(resolved), CapturedAnswer::VolumeClaims(list)) => {
            match capture_volume_claims(list, object.uid.as_str()) {
                Ok(claims) => Ok(CapturedStep::Ask(CapturedStage::Volumes(resolved, claims))),
                Err(error) => Err(error),
            }
        },
        (CapturedStage::Volumes(resolved, claims), CapturedAnswer::Volumes(list)) => {
            match capture_volumes(list, &claims) {
                Ok(volumes) => match validate_captured_storage(&claims, &volumes, status) {
                    Ok(_) => Ok(CapturedStep::Proven(resolved)),
                    Err(error) => Err(error),
                },
                Err(error) => Err(error),
            }
        },
        _ => Err(String::new()),
    }
}

/// What proving a captured workload again leads to.
#[derive(Debug, Clone, PartialEq, Eq)]
pub enum TargetStep {
    /// The workload is the recorded one.
    Target(SandboxPoolCertificationStatus, ResolvedSandboxPod),
    Finished(ManagementPoolCertificationProgress),
}

/// WorkloadCaptured and CanaryPassed: a workload that cannot be proven again
/// blocks the attempt.
pub fn captured_target(
    outcome: Result<ResolvedSandboxPod, String>,
    status: SandboxPoolCertificationStatus,
    ready: u32,
) -> (step: TargetStep)
    ensures
        match outcome {
            Ok(resolved) => step == TargetStep::Target(status, resolved),
            Err(error) => step matches TargetStep::Finished(progress) && attempt::blocks(
                progress,
                status,
                ready,
                error@,
            ) && attempt::follows(status, progress.status) && attempt::fence_kept(
                status,
                progress.status,
            ),
        },
{
    match outcome {
        Ok(resolved) => TargetStep::Target(status, resolved),
        Err(error) => TargetStep::Finished(cleanup_blocked(status, ready, error.as_str())),
    }
}

} // verus!
