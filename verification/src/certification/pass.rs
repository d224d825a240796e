//! One pass over a pool's certification: what the cluster is asked and told, one
//! thing at a time, until the pass has come to its one durable step.

use crate::certification::attempt::{
    self, has_drifted, reconcile_management_pool_certification, Attempt,
    ManagementPoolCertificationProgress,
};
use crate::certification::capacity::{
    self, plan_scale, scale_outcome, FencedWrite, ScalePlan, Written,
};
use crate::certification::capture::{self, capture_claimed_workload, CaptureStage, CaptureStep};
use crate::certification::captured;
use crate::certification::fence::{
    self, certification_fence, fence_probe, fence_release_patch, read_fence_exact,
    verify_teardown_fence_enforcement,
};
use crate::certification::names;
use crate::certification::population::ResolvedSandboxPod;
use crate::certification::revalidation::{
    self, begin_captured_workload, captured_target, revalidate_captured_workload, CapturedAnswer,
    CapturedStage, CapturedStep, TargetStep,
};
use crate::certification::steps::{
    self, absence_lookup, absence_observed, absence_proven_restores_capacity, canary_finished,
    claim_created, claim_deleted, claim_deleting_foreground_deletes,
    deleted_fence_completes_certification, drain_waits_for_the_causal_barrier, fence_created,
    fence_probed, fenced_scale_to_zero_drains, find_claim, find_fence, next_absence,
    released_fence_is_deleted, replenished_proves_and_releases_the_fence, replenishment_listed,
    replenishment_observed, AbsenceQuery, AbsenceStep, CanaryOutcome, ClaimStep, DeleteStep,
    FenceStep, FreshStep, Released, ReplenishStep,
};
use crate::certification::validation::{self, WorkloadValidation};
use crate::crd::sandbox::SandboxPoolCertificationStatus;
use crate::json::Json;
use crate::k8s::{ApiError, ConfigMap, DynamicObject, Pod};
use vstd::prelude::*;
use vstd::string::*;

verus! {

/// What a pass is held to.
pub struct PassSubject<'a> {
    pub validation: WorkloadValidation<'a>,
    pub namespace: &'a str,
    pub managed_by: &'a str,
    /// Idle sandboxes that are ready.
    pub ready: u32,
}

/// What a pass is held to.
pub struct PassSubjectView {
    pub validation: validation::WorkloadValidationView,
    pub namespace: Seq<char>,
    pub managed_by: Seq<char>,
    pub ready: u32,
}

impl<'a> View for PassSubject<'a> {
    type V = PassSubjectView;

    open spec fn view(&self) -> PassSubjectView {
        PassSubjectView {
            validation: self.validation@,
            namespace: self.namespace@,
            managed_by: self.managed_by@,
            ready: self.ready,
        }
    }
}

/// What the captured workload is proven again for.
#[derive(Debug, Clone, Copy, PartialEq, Eq, Structural)]
pub enum Purpose {
    Canary,
    Fence,
}

/// What the warm pool is scaled for.
#[derive(Debug, Clone, Copy, PartialEq, Eq, Structural)]
pub enum Scale {
    /// To zero.
    Drain,
    /// To the pool's capacity.
    Restore,
}

/// What the fence is looked up for.
#[derive(Debug, Clone, Copy, PartialEq, Eq, Structural)]
pub enum FenceUse {
    Install,
    Release,
    Delete,
    Confirm,
}

/// What is asked or written next.
#[derive(Debug, Clone, PartialEq, Eq)]
pub enum PassStage {
    /// Look for this claim.
    FindClaim(SandboxPoolCertificationStatus, DynamicObject),
    /// Create this claim.
    CreateClaim(SandboxPoolCertificationStatus, DynamicObject),
    /// Go on to capture the claimed workload.
    Capture(SandboxPoolCertificationStatus, CaptureStage),
    /// Go on to prove the captured workload again.
    ProveTarget(SandboxPoolCertificationStatus, Purpose, CapturedStage),
    /// Run the canary in this workload.
    RunCanary(SandboxPoolCertificationStatus, ResolvedSandboxPod),
    /// Look this fence up.
    SeekFence(SandboxPoolCertificationStatus, FenceUse, ConfigMap),
    /// Create this fence.
    CreateFence(SandboxPoolCertificationStatus, ConfigMap),
    /// Create this Pod, as a dry run that stores nothing.
    ProbeFence(SandboxPoolCertificationStatus, Pod),
    /// Look the recorded warm pool up.
    ReadScale(SandboxPoolCertificationStatus, Scale),
    /// Write this patch to the recorded warm pool.
    WriteScale(SandboxPoolCertificationStatus, Scale, Json),
    /// Look the drained warm pool up.
    AwaitDrain(SandboxPoolCertificationStatus),
    /// Look the recorded claim up.
    FindDoomedClaim(SandboxPoolCertificationStatus),
    /// Delete the claim of this name, if it has this UID.
    DeleteClaim(SandboxPoolCertificationStatus, String, String),
    /// Look an object up that has to be gone, after so many others.
    ProveAbsence(SandboxPoolCertificationStatus, u128, AbsenceQuery),
    /// Look the replenished warm pool up.
    AwaitReplenishment(SandboxPoolCertificationStatus),
    /// List the sandboxes of this selector.
    ListReplenished(SandboxPoolCertificationStatus, String),
    /// Write this patch to this fence.
    ReleaseFence(SandboxPoolCertificationStatus, ConfigMap, Json),
    /// Delete this fence, if it has this UID and this resource version.
    DeleteFence(SandboxPoolCertificationStatus, ConfigMap, String, String),
}

/// What was answered.
#[derive(Debug)]
pub enum PassAnswer {
    Object(Result<DynamicObject, ApiError>),
    Fence(Result<ConfigMap, ApiError>),
    Sandboxes(Result<Vec<DynamicObject>, ApiError>),
    Done(Result<(), ApiError>),
    Scaled(Written),
    Released(Released),
    Canary(CanaryOutcome),
    Captured(CapturedAnswer),
}

/// What an answer leads to.
#[derive(Debug, Clone, PartialEq, Eq)]
pub enum PassStep {
    Ask(PassStage),
    Finished(ManagementPoolCertificationProgress),
}

impl PassStage {
    /// Whether an answer is one to this stage.
    pub open spec fn is_answered_by(self, answer: PassAnswer) -> bool {
        match (self, answer) {
            (PassStage::FindClaim(_, _), PassAnswer::Object(_)) => true,
            (PassStage::CreateClaim(_, _), PassAnswer::Done(_)) => true,
            (
                PassStage::Capture(_, stage),
                PassAnswer::Captured(answer),
            ) => capture::is_answered_by(stage, answer),
            (
                PassStage::ProveTarget(_, _, stage),
                PassAnswer::Captured(answer),
            ) => stage@.is_answered_by(answer),
            (PassStage::RunCanary(_, _), PassAnswer::Canary(_)) => true,
            (PassStage::SeekFence(_, _, _), PassAnswer::Fence(_)) => true,
            (PassStage::CreateFence(_, _), PassAnswer::Done(_)) => true,
            (PassStage::ProbeFence(_, _), PassAnswer::Done(_)) => true,
            (PassStage::ReadScale(_, _), PassAnswer::Object(_)) => true,
            (PassStage::WriteScale(_, _, _), PassAnswer::Scaled(_)) => true,
            (PassStage::AwaitDrain(_), PassAnswer::Object(_)) => true,
            (PassStage::FindDoomedClaim(_), PassAnswer::Object(_)) => true,
            (PassStage::DeleteClaim(_, _, _), PassAnswer::Done(_)) => true,
            (PassStage::ProveAbsence(_, _, _), PassAnswer::Object(_)) => true,
            (PassStage::AwaitReplenishment(_), PassAnswer::Object(_)) => true,
            (PassStage::ListReplenished(_, _), PassAnswer::Sandboxes(_)) => true,
            (PassStage::ReleaseFence(_, _, _), PassAnswer::Released(_)) => true,
            (PassStage::DeleteFence(_, _, _, _), PassAnswer::Done(_)) => true,
            _ => false,
        }
    }

    /// Whether the stage stores something in the cluster, or removes it.
    pub open spec fn writes(self) -> bool {
        match self {
            PassStage::CreateClaim(_, _) => true,
            PassStage::CreateFence(_, _) => true,
            PassStage::WriteScale(_, _, _) => true,
            PassStage::DeleteClaim(_, _, _) => true,
            PassStage::ReleaseFence(_, _, _) => true,
            PassStage::DeleteFence(_, _, _, _) => true,
            _ => false,
        }
    }

    /// Whether the record holds what the stage goes on with: a captured workload
    /// where that is proven again, a fingerprint that names a fence where one is
    /// sought, and a place within the recorded objects.
    pub open spec fn is_coherent(self) -> bool {
        match self {
            PassStage::ProveTarget(status, purpose, _) => captured::workload_recorded(status) && (
            purpose is Fence ==> names::names_a_fence(status.fingerprint@)),
            PassStage::SeekFence(status, _, _) => names::names_a_fence(status.fingerprint@),
            PassStage::ProveAbsence(status, proven, _) => !(steps::absence_target(
                status,
                proven as int,
            ) is Complete),
            PassStage::AwaitReplenishment(status) => names::names_a_fence(status.fingerprint@),
            PassStage::ListReplenished(status, _) => names::names_a_fence(status.fingerprint@),
            _ => true,
        }
    }
}

/// What a result came to, where it ends the pass.
pub open spec fn ending(result: Result<PassStep, String>) -> Option<
    Result<ManagementPoolCertificationProgress, String>,
> {
    match result {
        Ok(PassStep::Ask(_)) => None,
        Ok(PassStep::Finished(progress)) => Some(Ok(progress)),
        Err(error) => Some(Err(error)),
    }
}

fn end(progress: Result<ManagementPoolCertificationProgress, String>) -> (result: Result<
    PassStep,
    String,
>)
    ensures
        ending(result) == Some(progress),
{
    match progress {
        Ok(progress) => Ok(PassStep::Finished(progress)),
        Err(error) => Err(error),
    }
}

/// Whether a result is this error.
pub open spec fn fails(result: Result<PassStep, String>, message: Seq<char>) -> bool {
    result matches Err(error) && error@ == message
}

/// Whether a pass goes on to the fence.
pub open spec fn fence_is_sought(
    namespace: Seq<char>,
    status: SandboxPoolCertificationStatus,
    purpose: FenceUse,
    result: Result<PassStep, String>,
) -> bool {
    match result {
        Ok(PassStep::Ask(PassStage::SeekFence(kept, kept_for, desired))) => kept == status
            && kept_for == purpose && fence::certification_fence_gives(
            namespace,
            status,
            Ok(desired),
        ),
        Err(error) => fence::certification_fence_gives(namespace, status, Err(error)),
        _ => false,
    }
}

fn seek_fence(
    namespace: &str,
    status: SandboxPoolCertificationStatus,
    purpose: FenceUse,
) -> (result: Result<PassStep, String>)
    requires
        names::names_a_fence(status.fingerprint@),
    ensures
        fence_is_sought(namespace@, status, purpose, result),
        result matches Ok(PassStep::Ask(next)) ==> next.is_coherent(),
{
    match certification_fence(namespace, &status) {
        Ok(desired) => Ok(PassStep::Ask(PassStage::SeekFence(status, purpose, desired))),
        Err(error) => Err(error),
    }
}

/// Whether a pass goes on to prove the captured workload again.
pub open spec fn target_is_sought(
    status: SandboxPoolCertificationStatus,
    purpose: Purpose,
    ready: u32,
    result: Result<PassStep, String>,
) -> bool {
    if captured::workload_recorded(status) {
        &&& result matches Ok(PassStep::Ask(PassStage::ProveTarget(kept, kept_for, stage)))
        &&& kept == status && kept_for == purpose
        &&& stage@ == revalidation::CapturedStageView::Claim(status.sandbox_claim->0@.name)
    } else {
        result matches Ok(PassStep::Finished(progress)) && attempt::blocks(
            progress,
            status,
            ready,
            "captured certification workload is missing an exact Claim, Sandbox or Pod reference"@,
        )
    }
}

fn seek_target(status: SandboxPoolCertificationStatus, purpose: Purpose, ready: u32) -> (result:
    Result<PassStep, String>)
    requires
        purpose is Fence ==> names::names_a_fence(status.fingerprint@),
    ensures
        target_is_sought(status, purpose, ready, result),
        result matches Ok(PassStep::Ask(next)) ==> next.is_coherent(),
{
    match begin_captured_workload(&status) {
        Ok(stage) => Ok(PassStep::Ask(PassStage::ProveTarget(status, purpose, stage))),
        Err(error) => match captured_target(Err(error), status, ready) {
            TargetStep::Finished(progress) => Ok(PassStep::Finished(progress)),
            TargetStep::Target(_, _) => Err(String::new()),
        },
    }
}

/// Whether a pass goes on after `proven` absences.
pub open spec fn absence_goes_on(
    status: SandboxPoolCertificationStatus,
    proven: int,
    ready: u32,
    result: Result<PassStep, String>,
) -> bool {
    match result {
        Ok(PassStep::Finished(progress)) => steps::absence_target(status, proven) is Unrecorded
            && steps::next_absence_gives(proven, status, ready, AbsenceQuery::Blocked(progress)),
        Ok(PassStep::Ask(PassStage::ReadScale(kept, scale))) => steps::absence_target(
            status,
            proven,
        ) is Complete && kept == status && scale is Restore,
        Ok(PassStep::Ask(PassStage::ProveAbsence(kept, at, query))) => steps::looks_up(
            query,
            steps::absence_target(status, proven),
        ) && kept == status && at == proven,
        _ => false,
    }
}

fn go_on_with_absence(status: SandboxPoolCertificationStatus, proven: u128, ready: u32) -> (result:
    Result<PassStep, String>)
    ensures
        absence_goes_on(status, proven as int, ready, result),
        result matches Ok(PassStep::Ask(next)) ==> next.is_coherent(),
{
    match absence_lookup(proven, &status) {
        Some(query) => Ok(PassStep::Ask(PassStage::ProveAbsence(status, proven, query))),
        None => match next_absence(proven, status, ready) {
            AbsenceQuery::Blocked(progress) => Ok(PassStep::Finished(progress)),
            AbsenceQuery::Complete(status) => Ok(
                PassStep::Ask(PassStage::ReadScale(status, Scale::Restore)),
            ),
            _ => Err(String::new()),
        },
    }
}

/// Whether a pass goes on as its attempt asks.
pub open spec fn attempt_goes_on(
    subject: PassSubjectView,
    attempt: Attempt,
    claim: Result<DynamicObject, String>,
    result: Result<PassStep, String>,
) -> bool {
    match attempt {
        Attempt::Finished(progress) => result == Ok::<PassStep, String>(
            PassStep::Finished(progress),
        ),
        Attempt::FindClaim(status) => result == Ok::<PassStep, String>(
            PassStep::Ask(PassStage::FindClaim(status, claim->Ok_0)),
        ),
        Attempt::CaptureWorkload(status) => result == Ok::<PassStep, String>(
            PassStep::Ask(PassStage::Capture(status, CaptureStage::Claim)),
        ),
        Attempt::RunCanary(status) => target_is_sought(
            status,
            Purpose::Canary,
            subject.ready,
            result,
        ),
        Attempt::InstallFence(status) => target_is_sought(
            status,
            Purpose::Fence,
            subject.ready,
            result,
        ),
        Attempt::Drain(status) => result == Ok::<PassStep, String>(
            PassStep::Ask(PassStage::ReadScale(status, Scale::Drain)),
        ),
        Attempt::AwaitDrain(status) => result == Ok::<PassStep, String>(
            PassStep::Ask(PassStage::AwaitDrain(status)),
        ),
        Attempt::DeleteClaim(status) => result == Ok::<PassStep, String>(
            PassStep::Ask(PassStage::FindDoomedClaim(status)),
        ),
        Attempt::RestoreCapacity(status) => absence_goes_on(status, 0, subject.ready, result),
        Attempt::ReleaseFence(status) => result == Ok::<PassStep, String>(
            PassStep::Ask(PassStage::AwaitReplenishment(status)),
        ),
        Attempt::DeleteFence(status) => fence_is_sought(
            subject.namespace,
            status,
            FenceUse::Delete,
            result,
        ),
        Attempt::ConfirmFence(status) => fence_is_sought(
            subject.namespace,
            status,
            FenceUse::Confirm,
            result,
        ),
    }
}

/// Whether an attempt goes on, since its pool is the same as before.
pub open spec fn goes_on(
    existing: Option<SandboxPoolCertificationStatus>,
    fresh: SandboxPoolCertificationStatus,
) -> bool {
    existing matches Some(status) && !attempt::drifted(status, fresh)
}

/// Whether a pass begins like this. An attempt that goes on needs the claim that
/// its pool describes, whatever its phase.
pub open spec fn begins_with(
    subject: PassSubjectView,
    existing: Option<SandboxPoolCertificationStatus>,
    fresh: SandboxPoolCertificationStatus,
    claim: Result<DynamicObject, String>,
    result: Result<PassStep, String>,
) -> bool {
    if claim is Err && goes_on(existing, fresh) {
        fails(result, claim->Err_0@)
    } else {
        exists|attempt: Attempt| #[trigger]
            attempt::pass_begins(existing, fresh, subject.ready, attempt) && attempt_goes_on(
                subject,
                attempt,
                claim,
                result,
            )
    }
}

/// Begins a pass. `claim` is the certification claim that the pool describes, and
/// `fresh` the record that an attempt would begin with now.
pub fn begin_pass(
    subject: &PassSubject<'_>,
    existing: Option<SandboxPoolCertificationStatus>,
    fresh: SandboxPoolCertificationStatus,
    claim: Result<DynamicObject, String>,
) -> (result: Result<PassStep, String>)
    requires
        names::names_a_fence(fresh.fingerprint@),
    ensures
        begins_with(subject@, existing, fresh, claim, result),
        result matches Ok(PassStep::Ask(next)) ==> next.is_coherent(),
{
    let same_pool = match &existing {
        Some(status) => !has_drifted(status, &fresh),
        None => false,
    };
    let ghost given = claim;
    let mut desired: Option<DynamicObject> = None;
    match claim {
        Ok(claim) => {
            desired = Some(claim);
        },
        Err(error) => {
            if same_pool {
                return Err(error);
            }
        },
    }
    let ready: u32 = subject.ready;
    let attempt = reconcile_management_pool_certification(existing, fresh, ready);
    assert(attempt::pass_begins(existing, fresh, ready, attempt));
    let result = match attempt {
        Attempt::Finished(progress) => Ok(PassStep::Finished(progress)),
        Attempt::FindClaim(status) => match desired {
            Some(claim) => Ok(PassStep::Ask(PassStage::FindClaim(status, claim))),
            None => Err(String::new()),
        },
        Attempt::CaptureWorkload(status) => Ok(
            PassStep::Ask(PassStage::Capture(status, CaptureStage::Claim)),
        ),
        Attempt::RunCanary(status) => seek_target(status, Purpose::Canary, ready),
        Attempt::InstallFence(status) => seek_target(status, Purpose::Fence, ready),
        Attempt::Drain(status) => Ok(PassStep::Ask(PassStage::ReadScale(status, Scale::Drain))),
        Attempt::AwaitDrain(status) => Ok(PassStep::Ask(PassStage::AwaitDrain(status))),
        Attempt::DeleteClaim(status) => Ok(PassStep::Ask(PassStage::FindDoomedClaim(status))),
        Attempt::RestoreCapacity(status) => go_on_with_absence(status, 0, ready),
        Attempt::ReleaseFence(status) => Ok(PassStep::Ask(PassStage::AwaitReplenishment(status))),
        Attempt::DeleteFence(status) => seek_fence(subject.namespace, status, FenceUse::Delete),
        Attempt::ConfirmFence(status) => seek_fence(subject.namespace, status, FenceUse::Confirm),
    };
    assert(attempt::pass_begins(existing, fresh, subject@.ready, attempt) && attempt_goes_on(
        subject@,
        attempt,
        given,
        result,
    ));
    assert(!(given is Err && goes_on(existing, fresh)));
    result
}

/// Whether a proven target leads to this.
pub open spec fn target_leads_to(
    subject: PassSubjectView,
    status: SandboxPoolCertificationStatus,
    purpose: Purpose,
    next: Result<revalidation::CapturedStepView, Seq<char>>,
    result: Result<PassStep, String>,
) -> bool {
    match next {
        Err(error) => result matches Ok(PassStep::Finished(progress)) && attempt::blocks(
            progress,
            status,
            subject.ready,
            error,
        ),
        Ok(revalidation::CapturedStepView::Ask(stage)) => {
            &&& result matches Ok(PassStep::Ask(PassStage::ProveTarget(kept, kept_for, asked)))
            &&& kept == status && kept_for == purpose && asked@ == stage
        },
        Ok(revalidation::CapturedStepView::Proven(resolved)) => match purpose {
            Purpose::Canary => {
                &&& result matches Ok(PassStep::Ask(PassStage::RunCanary(kept, target)))
                &&& kept == status && target@ == resolved
            },
            Purpose::Fence => fence_is_sought(
                subject.namespace,
                status,
                FenceUse::Install,
                result,
            ),
        },
    }
}

/// Whether a look for the fence that is to be installed leads to this.
pub open spec fn install_leads_to(
    subject: PassSubjectView,
    status: SandboxPoolCertificationStatus,
    desired: ConfigMap,
    lookup: Result<ConfigMap, ApiError>,
    result: Result<PassStep, String>,
) -> bool {
    match result {
        Ok(PassStep::Finished(progress)) => {
            ||| steps::find_fence_gives(
                desired,
                lookup,
                status,
                subject.ready,
                Ok(FenceStep::Finished(progress)),
            )
            ||| exists|fenced: SandboxPoolCertificationStatus, error: String|
                steps::find_fence_gives(
                    desired,
                    lookup,
                    status,
                    subject.ready,
                    Ok(FenceStep::Probe(fenced)),
                ) && #[trigger] fence::fence_probe_gives(subject.namespace, fenced, Err(error))
                    && steps::fence_probed_gives(Err(error), fenced, subject.ready, progress)
        },
        Ok(PassStep::Ask(PassStage::CreateFence(kept, fence))) => fence == desired
            && steps::find_fence_gives(
            desired,
            lookup,
            status,
            subject.ready,
            Ok(FenceStep::Create(kept)),
        ),
        Ok(PassStep::Ask(PassStage::ProbeFence(fenced, pod))) => steps::find_fence_gives(
            desired,
            lookup,
            status,
            subject.ready,
            Ok(FenceStep::Probe(fenced)),
        ) && fence::fence_probe_gives(subject.namespace, fenced, Ok(pod)),
        Err(error) => steps::find_fence_gives(desired, lookup, status, subject.ready, Err(error)),
        _ => false,
    }
}

/// Whether a look for the fence leads to this.
pub open spec fn fence_leads_to(
    subject: PassSubjectView,
    status: SandboxPoolCertificationStatus,
    purpose: FenceUse,
    desired: ConfigMap,
    lookup: Result<ConfigMap, ApiError>,
    result: Result<PassStep, String>,
) -> bool {
    match purpose {
        FenceUse::Install => install_leads_to(subject, status, desired, lookup, result),
        FenceUse::Release => match fence::exact_fence(lookup, status) {
            Err(error) => fails(result, error),
            Ok(found) => {
                &&& result matches Ok(PassStep::Ask(PassStage::ReleaseFence(kept, fence, patch)))
                &&& kept == status && fence == desired && patch@ == fence::release_patch(found.0)
            },
        },
        FenceUse::Delete => match fence::exact_fence(lookup, status) {
            Err(error) => fails(result, error),
            Ok(found) => {
                &&& result matches Ok(
                    PassStep::Ask(PassStage::DeleteFence(kept, fence, uid, version)),
                )
                &&& kept == status && fence == desired && uid@ == found.0 && version@ == found.1
            },
        },
        FenceUse::Confirm => ending(result) matches Some(progress) && steps::records_completion(
            progress,
            lookup,
            status,
            subject.ready,
        ),
    }
}

/// The replicas that the warm pool is scaled to.
pub open spec fn replicas_for(subject: PassSubjectView, scale: Scale) -> u32 {
    match scale {
        Scale::Drain => 0,
        Scale::Restore => subject.validation.pool.spec.warm_capacity,
    }
}

/// What a scale gives.
pub open spec fn scale_gives(
    scale: Scale,
    write: FencedWrite,
    status: SandboxPoolCertificationStatus,
    ready: u32,
    progress: Result<ManagementPoolCertificationProgress, String>,
) -> bool {
    match scale {
        Scale::Drain => steps::fenced_scale_to_zero_drains_gives(write, status, ready, progress),
        Scale::Restore => steps::absence_proven_restores_capacity_gives(
            write,
            status,
            ready,
            progress,
        ),
    }
}

fn scaled(
    scale: Scale,
    write: FencedWrite,
    status: SandboxPoolCertificationStatus,
    ready: u32,
) -> (result: Result<PassStep, String>)
    ensures
        ending(result) matches Some(progress) && scale_gives(scale, write, status, ready, progress),
{
    match scale {
        Scale::Drain => end(fenced_scale_to_zero_drains(write, status, ready)),
        Scale::Restore => end(absence_proven_restores_capacity(write, status, ready)),
    }
}

/// Whether a look at the warm pool that is to be scaled leads to this.
pub open spec fn read_leads_to(
    subject: PassSubjectView,
    status: SandboxPoolCertificationStatus,
    scale: Scale,
    lookup: Result<DynamicObject, ApiError>,
    result: Result<PassStep, String>,
) -> bool {
    exists|plan: Result<ScalePlan, String>| #[trigger]
        capacity::plan_scale_gives(
            lookup,
            subject.namespace,
            status.sandbox_warm_pool,
            replicas_for(subject, scale),
            plan,
        ) && match plan {
            Err(error) => result == Err::<PassStep, String>(error),
            Ok(ScalePlan::Patch(patch)) => result == Ok::<PassStep, String>(
                PassStep::Ask(PassStage::WriteScale(status, scale, patch)),
            ),
            Ok(ScalePlan::Blocked(message)) => ending(result) matches Some(progress)
                && scale_gives(
                scale,
                FencedWrite::Blocked(message),
                status,
                subject.ready,
                progress,
            ),
        }
}

/// Whether the write to the warm pool leads to this.
pub open spec fn write_leads_to(
    subject: PassSubjectView,
    status: SandboxPoolCertificationStatus,
    scale: Scale,
    written: Written,
    result: Result<PassStep, String>,
) -> bool {
    exists|outcome: Result<FencedWrite, String>| #[trigger]
        capacity::scale_outcome_gives(written, outcome) && match outcome {
            Err(error) => result == Err::<PassStep, String>(error),
            Ok(write) => ending(result) matches Some(progress) && scale_gives(
                scale,
                write,
                status,
                subject.ready,
                progress,
            ),
        }
}

/// Whether the answer to the probe leads to this.
pub open spec fn probe_leads_to(
    subject: PassSubjectView,
    fenced: SandboxPoolCertificationStatus,
    probe: Result<(), ApiError>,
    result: Result<PassStep, String>,
) -> bool {
    match result {
        Ok(PassStep::Finished(progress)) => exists|enforcement: Result<bool, String>|
            #[trigger] fence::verify_teardown_fence_enforcement_gives(probe, enforcement)
                && steps::fence_probed_gives(enforcement, fenced, subject.ready, progress),
        _ => false,
    }
}

/// Whether an answer leads to this.
pub open spec fn leads_to(
    subject: PassSubjectView,
    stage: PassStage,
    answer: PassAnswer,
    result: Result<PassStep, String>,
) -> bool {
    let ready = subject.ready;
    match (stage, answer) {
        (PassStage::FindClaim(status, desired), PassAnswer::Object(lookup)) => match result {
            Ok(PassStep::Finished(progress)) => steps::find_claim_gives(
                subject.validation.pool,
                desired,
                subject.managed_by,
                lookup,
                status,
                ready,
                Ok(ClaimStep::Finished(progress)),
            ),
            Ok(PassStep::Ask(PassStage::CreateClaim(kept, claim))) => claim == desired
                && steps::find_claim_gives(
                subject.validation.pool,
                desired,
                subject.managed_by,
                lookup,
                status,
                ready,
                Ok(ClaimStep::Create(kept)),
            ),
            Err(error) => steps::find_claim_gives(
                subject.validation.pool,
                desired,
                subject.managed_by,
                lookup,
                status,
                ready,
                Err(error),
            ),
            _ => false,
        },
        (PassStage::CreateClaim(status, _), PassAnswer::Done(created)) => ending(
            result,
        ) matches Some(progress) && steps::claim_created_gives(created, status, ready, progress),
        (PassStage::Capture(status, stage), PassAnswer::Captured(answer)) => match result {
            Ok(PassStep::Finished(progress)) => capture::leads_to(
                subject.validation,
                subject.namespace,
                status,
                ready,
                stage,
                answer,
                Ok(CaptureStep::Finished(progress)),
            ),
            Ok(PassStep::Ask(PassStage::Capture(kept, next))) => capture::leads_to(
                subject.validation,
                subject.namespace,
                status,
                ready,
                stage,
                answer,
                Ok(CaptureStep::Ask(kept, next)),
            ),
            Err(error) => capture::leads_to(
                subject.validation,
                subject.namespace,
                status,
                ready,
                stage,
                answer,
                Err(error),
            ),
            _ => false,
        },
        (
            PassStage::ProveTarget(status, purpose, stage),
            PassAnswer::Captured(answer),
        ) => target_leads_to(
            subject,
            status,
            purpose,
            revalidation::captured_next(
                subject.validation,
                subject.namespace,
                status,
                stage@,
                answer,
            ),
            result,
        ),
        (PassStage::RunCanary(status, _), PassAnswer::Canary(outcome)) => result matches Ok(
            PassStep::Finished(progress),
        ) && steps::records_canary(progress, outcome, status, ready),
        (
            PassStage::SeekFence(status, purpose, desired),
            PassAnswer::Fence(lookup),
        ) => fence_leads_to(subject, status, purpose, desired, lookup, result),
        (PassStage::CreateFence(status, _), PassAnswer::Done(created)) => ending(
            result,
        ) matches Some(progress) && steps::fence_created_gives(created, status, ready, progress),
        (PassStage::ProbeFence(fenced, _), PassAnswer::Done(probe)) => probe_leads_to(
            subject,
            fenced,
            probe,
            result,
        ),
        (PassStage::ReadScale(status, scale), PassAnswer::Object(lookup)) => read_leads_to(
            subject,
            status,
            scale,
            lookup,
            result,
        ),
        (PassStage::WriteScale(status, scale, _), PassAnswer::Scaled(written)) => write_leads_to(
            subject,
            status,
            scale,
            written,
            result,
        ),
        (PassStage::AwaitDrain(status), PassAnswer::Object(lookup)) => ending(
            result,
        ) matches Some(progress) && steps::drain_waits_for_the_causal_barrier_gives(
            subject.namespace,
            lookup,
            status,
            ready,
            progress,
        ),
        (PassStage::FindDoomedClaim(status), PassAnswer::Object(lookup)) => match result {
            Ok(PassStep::Finished(progress)) => steps::claim_deleting_foreground_deletes_gives(
                lookup,
                status,
                ready,
                Ok(DeleteStep::Finished(progress)),
            ),
            Ok(
                PassStep::Ask(PassStage::DeleteClaim(kept, name, uid)),
            ) => steps::claim_deleting_foreground_deletes_gives(
                lookup,
                status,
                ready,
                Ok(DeleteStep::Delete(kept, name, uid)),
            ),
            Err(error) => steps::claim_deleting_foreground_deletes_gives(
                lookup,
                status,
                ready,
                Err(error),
            ),
            _ => false,
        },
        (PassStage::DeleteClaim(status, _, _), PassAnswer::Done(deleted)) => ending(
            result,
        ) matches Some(progress) && steps::claim_deleted_gives(deleted, status, ready, progress),
        (PassStage::ProveAbsence(status, proven, _), PassAnswer::Object(lookup)) => {
            ||| result matches Ok(PassStep::Finished(progress)) && steps::absence_observed_gives(
                proven as int,
                lookup,
                status,
                ready,
                Ok(AbsenceStep::Finished(progress)),
            )
            ||| result matches Err(error) && steps::absence_observed_gives(
                proven as int,
                lookup,
                status,
                ready,
                Err(error),
            )
            ||| steps::absence_observed_gives(
                proven as int,
                lookup,
                status,
                ready,
                Ok(AbsenceStep::Proven(status)),
            ) && absence_goes_on(status, proven + 1, ready, result)
        },
        (PassStage::AwaitReplenishment(status), PassAnswer::Object(lookup)) => match result {
            Ok(PassStep::Finished(progress)) => steps::replenishment_observed_gives(
                subject.namespace,
                subject.validation.pool.spec.warm_capacity,
                lookup,
                status,
                ready,
                Ok(ReplenishStep::Finished(progress)),
            ),
            Ok(
                PassStep::Ask(PassStage::ListReplenished(kept, selector)),
            ) => steps::replenishment_observed_gives(
                subject.namespace,
                subject.validation.pool.spec.warm_capacity,
                lookup,
                status,
                ready,
                Ok(ReplenishStep::List(kept, selector)),
            ),
            Err(error) => steps::replenishment_observed_gives(
                subject.namespace,
                subject.validation.pool.spec.warm_capacity,
                lookup,
                status,
                ready,
                Err(error),
            ),
            _ => false,
        },
        (PassStage::ListReplenished(status, _), PassAnswer::Sandboxes(list)) => {
            ||| result matches Ok(PassStep::Finished(progress))
                && steps::replenishment_listed_gives(
                subject.validation.pool.spec.warm_capacity,
                list,
                status,
                ready,
                Ok(FreshStep::Finished(progress)),
            )
            ||| result matches Err(error) && steps::replenishment_listed_gives(
                subject.validation.pool.spec.warm_capacity,
                list,
                status,
                ready,
                Err(error),
            )
            ||| steps::replenishment_listed_gives(
                subject.validation.pool.spec.warm_capacity,
                list,
                status,
                ready,
                Ok(FreshStep::Release(status)),
            ) && fence_is_sought(subject.namespace, status, FenceUse::Release, result)
        },
        (PassStage::ReleaseFence(status, _, _), PassAnswer::Released(released)) => ending(
            result,
        ) matches Some(progress) && steps::replenished_proves_and_releases_the_fence_gives(
            released,
            status,
            ready,
            progress,
        ),
        (PassStage::DeleteFence(status, _, _, _), PassAnswer::Done(deleted)) => ending(
            result,
        ) matches Some(progress) && steps::released_fence_is_deleted_gives(
            deleted,
            status,
            ready,
            progress,
        ),
        _ => false,
    }
}

fn install_fence(
    subject: &PassSubject<'_>,
    status: SandboxPoolCertificationStatus,
    desired: ConfigMap,
    lookup: Result<ConfigMap, ApiError>,
) -> (result: Result<PassStep, String>)
    requires
        names::names_a_fence(status.fingerprint@),
    ensures
        install_leads_to(subject@, status, desired, lookup, result),
        result matches Ok(PassStep::Ask(next)) ==> next.is_coherent(),
{
    let ready: u32 = subject.ready;
    match find_fence(&desired, lookup, status, ready) {
        Ok(FenceStep::Finished(progress)) => Ok(PassStep::Finished(progress)),
        Ok(FenceStep::Create(status)) => Ok(PassStep::Ask(PassStage::CreateFence(status, desired))),
        Ok(FenceStep::Probe(fenced)) => match fence_probe(subject.namespace, &fenced) {
            Ok(pod) => Ok(PassStep::Ask(PassStage::ProbeFence(fenced, pod))),
            Err(error) => {
                assert(fence::fence_probe_gives(subject@.namespace, fenced, Err(error)));
                Ok(PassStep::Finished(fence_probed(Err(error), fenced, ready)))
            },
        },
        Err(error) => Err(error),
    }
}

fn read_scale(
    subject: &PassSubject<'_>,
    status: SandboxPoolCertificationStatus,
    scale: Scale,
    lookup: Result<DynamicObject, ApiError>,
) -> (result: Result<PassStep, String>)
    ensures
        read_leads_to(subject@, status, scale, lookup, result),
        result matches Ok(PassStep::Ask(next)) ==> next.is_coherent(),
{
    let replicas: u32 = match scale {
        Scale::Drain => 0,
        Scale::Restore => subject.validation.pool.spec.warm_capacity,
    };
    let plan = plan_scale(lookup, subject.namespace, &status.sandbox_warm_pool, replicas);
    assert(capacity::plan_scale_gives(
        lookup,
        subject@.namespace,
        status.sandbox_warm_pool,
        replicas_for(subject@, scale),
        plan,
    ));
    match plan {
        Ok(ScalePlan::Patch(patch)) => Ok(
            PassStep::Ask(PassStage::WriteScale(status, scale, patch)),
        ),
        Ok(ScalePlan::Blocked(message)) => scaled(
            scale,
            FencedWrite::Blocked(message),
            status,
            subject.ready,
        ),
        Err(error) => Err(error),
    }
}

fn write_scale(
    subject: &PassSubject<'_>,
    status: SandboxPoolCertificationStatus,
    scale: Scale,
    written: Written,
) -> (result: Result<PassStep, String>)
    ensures
        write_leads_to(subject@, status, scale, written, result),
        !(result matches Ok(PassStep::Ask(_))),
{
    let outcome = scale_outcome(written);
    assert(capacity::scale_outcome_gives(written, outcome));
    match outcome {
        Ok(write) => scaled(scale, write, status, subject.ready),
        Err(error) => Err(error),
    }
}

fn judge_probe(
    subject: &PassSubject<'_>,
    fenced: SandboxPoolCertificationStatus,
    probe: Result<(), ApiError>,
) -> (result: Result<PassStep, String>)
    ensures
        probe_leads_to(subject@, fenced, probe, result),
{
    let enforcement = verify_teardown_fence_enforcement(probe);
    assert(fence::verify_teardown_fence_enforcement_gives(probe, enforcement));
    Ok(PassStep::Finished(fence_probed(enforcement, fenced, subject.ready)))
}

fn use_fence(
    subject: &PassSubject<'_>,
    status: SandboxPoolCertificationStatus,
    purpose: FenceUse,
    desired: ConfigMap,
    lookup: Result<ConfigMap, ApiError>,
) -> (result: Result<PassStep, String>)
    requires
        names::names_a_fence(status.fingerprint@),
    ensures
        fence_leads_to(subject@, status, purpose, desired, lookup, result),
        result matches Ok(PassStep::Ask(next)) ==> next.is_coherent(),
{
    match purpose {
        FenceUse::Install => install_fence(subject, status, desired, lookup),
        FenceUse::Release => match read_fence_exact(lookup, &status) {
            Ok(found) => {
                let patch = fence_release_patch(found.0.as_str());
                Ok(PassStep::Ask(PassStage::ReleaseFence(status, desired, patch)))
            },
            Err(error) => Err(error),
        },
        FenceUse::Delete => match read_fence_exact(lookup, &status) {
            Ok(found) => Ok(
                PassStep::Ask(PassStage::DeleteFence(status, desired, found.0, found.1)),
            ),
            Err(error) => Err(error),
        },
        FenceUse::Confirm => end(
            deleted_fence_completes_certification(lookup, status, subject.ready),
        ),
    }
}

fn prove_target(
    subject: &PassSubject<'_>,
    status: SandboxPoolCertificationStatus,
    purpose: Purpose,
    stage: CapturedStage,
    answer: CapturedAnswer,
) -> (result: Result<PassStep, String>)
    requires
        captured::workload_recorded(status),
        purpose is Fence ==> names::names_a_fence(status.fingerprint@),
        stage@.is_answered_by(answer),
    ensures
        target_leads_to(
            subject@,
            status,
            purpose,
            revalidation::captured_next(
                subject@.validation,
                subject@.namespace,
                status,
                stage@,
                answer,
            ),
            result,
        ),
        result matches Ok(PassStep::Ask(next)) ==> next.is_coherent(),
{
    let outcome = match revalidate_captured_workload(
        &subject.validation,
        subject.namespace,
        &status,
        stage,
        answer,
    ) {
        Ok(CapturedStep::Ask(next)) => {
            return Ok(PassStep::Ask(PassStage::ProveTarget(status, purpose, next)));
        },
        Ok(CapturedStep::Proven(target)) => Ok(target),
        Err(error) => Err(error),
    };
    match captured_target(outcome, status, subject.ready) {
        TargetStep::Finished(progress) => Ok(PassStep::Finished(progress)),
        TargetStep::Target(status, target) => match purpose {
            Purpose::Canary => Ok(PassStep::Ask(PassStage::RunCanary(status, target))),
            Purpose::Fence => seek_fence(subject.namespace, status, FenceUse::Install),
        },
    }
}

/// Goes on with a pass. A pass that writes ends with what the write came to.
pub fn continue_pass(subject: &PassSubject<'_>, stage: PassStage, answer: PassAnswer) -> (result:
    Result<PassStep, String>)
    requires
        stage.is_answered_by(answer),
        stage.is_coherent(),
    ensures
        leads_to(subject@, stage, answer, result),
        result matches Ok(PassStep::Ask(next)) ==> next.is_coherent(),
{
    let ready: u32 = subject.ready;
    let warm_capacity: u32 = subject.validation.pool.spec.warm_capacity;
    match (stage, answer) {
        (PassStage::FindClaim(status, desired), PassAnswer::Object(lookup)) => {
            match find_claim(
                subject.validation.pool,
                &desired,
                subject.managed_by,
                lookup,
                status,
                ready,
            ) {
                Ok(ClaimStep::Finished(progress)) => Ok(PassStep::Finished(progress)),
                Ok(ClaimStep::Create(status)) => Ok(
                    PassStep::Ask(PassStage::CreateClaim(status, desired)),
                ),
                Err(error) => Err(error),
            }
        },
        (PassStage::CreateClaim(status, _), PassAnswer::Done(created)) => {
            end(claim_created(created, status, ready))
        },
        (PassStage::Capture(status, stage), PassAnswer::Captured(answer)) => {
            match capture_claimed_workload(
                &subject.validation,
                subject.namespace,
                status,
                ready,
                stage,
                answer,
            ) {
                Ok(CaptureStep::Finished(progress)) => Ok(PassStep::Finished(progress)),
                Ok(CaptureStep::Ask(status, next)) => Ok(
                    PassStep::Ask(PassStage::Capture(status, next)),
                ),
                Err(error) => Err(error),
            }
        },
        (PassStage::ProveTarget(status, purpose, stage), PassAnswer::Captured(answer)) => {
            prove_target(subject, status, purpose, stage, answer)
        },
        (PassStage::RunCanary(status, _), PassAnswer::Canary(outcome)) => {
            Ok(PassStep::Finished(canary_finished(outcome, status, ready)))
        },
        (PassStage::SeekFence(status, purpose, desired), PassAnswer::Fence(lookup)) => {
            use_fence(subject, status, purpose, desired, lookup)
        },
        (PassStage::CreateFence(status, _), PassAnswer::Done(created)) => {
            end(fence_created(created, status, ready))
        },
        (PassStage::ProbeFence(fenced, _), PassAnswer::Done(probe)) => {
            judge_probe(subject, fenced, probe)
        },
        (PassStage::ReadScale(status, scale), PassAnswer::Object(lookup)) => {
            read_scale(subject, status, scale, lookup)
        },
        (PassStage::WriteScale(status, scale, _), PassAnswer::Scaled(written)) => {
            write_scale(subject, status, scale, written)
        },
        (PassStage::AwaitDrain(status), PassAnswer::Object(lookup)) => {
            end(drain_waits_for_the_causal_barrier(subject.namespace, lookup, status, ready))
        },
        (PassStage::FindDoomedClaim(status), PassAnswer::Object(lookup)) => {
            match claim_deleting_foreground_deletes(lookup, status, ready) {
                Ok(DeleteStep::Finished(progress)) => Ok(PassStep::Finished(progress)),
                Ok(DeleteStep::Delete(status, name, uid)) => Ok(
                    PassStep::Ask(PassStage::DeleteClaim(status, name, uid)),
                ),
                Err(error) => Err(error),
            }
        },
        (PassStage::DeleteClaim(status, _, _), PassAnswer::Done(deleted)) => {
            end(claim_deleted(deleted, status, ready))
        },
        (PassStage::ProveAbsence(status, proven, _), PassAnswer::Object(lookup)) => {
            let claims: usize = status.persistent_volume_claims.len();
            let volumes: usize = status.persistent_volumes.len();
            assert(proven < 2 + claims + volumes);
            match absence_observed(proven, lookup, status, ready) {
                Ok(AbsenceStep::Proven(status)) => {
                    go_on_with_absence(status, proven + 1, ready)
                },
                Ok(AbsenceStep::Finished(progress)) => Ok(PassStep::Finished(progress)),
                Err(error) => Err(error),
            }
        },
        (PassStage::AwaitReplenishment(status), PassAnswer::Object(lookup)) => {
            match replenishment_observed(subject.namespace, warm_capacity, lookup, status, ready) {
                Ok(ReplenishStep::Finished(progress)) => Ok(PassStep::Finished(progress)),
                Ok(ReplenishStep::List(status, selector)) => Ok(
                    PassStep::Ask(PassStage::ListReplenished(status, selector)),
                ),
                Err(error) => Err(error),
            }
        },
        (PassStage::ListReplenished(status, _), PassAnswer::Sandboxes(list)) => {
            match replenishment_listed(warm_capacity, list, status, ready) {
                Ok(FreshStep::Finished(progress)) => Ok(PassStep::Finished(progress)),
                Ok(FreshStep::Release(status)) => seek_fence(
                    subject.namespace,
                    status,
                    FenceUse::Release,
                ),
                Err(error) => Err(error),
            }
        },
        (PassStage::ReleaseFence(status, _, _), PassAnswer::Released(released)) => {
            end(replenished_proves_and_releases_the_fence(released, status, ready))
        },
        (PassStage::DeleteFence(status, _, _, _), PassAnswer::Done(deleted)) => {
            end(released_fence_is_deleted(deleted, status, ready))
        },
        _ => Err(String::new()),
    }
}

} // verus!
