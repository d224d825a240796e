//! In which words a pass reports what it came to.

use crate::certification::capacity::Written;
use crate::certification::pass::{self, FenceUse, PassAnswer, PassStage, PassStep, Scale};
use crate::certification::step_laws;
use crate::certification::steps::{self, CanaryOutcome, Released};
use crate::crd::sandbox::{SandboxPoolCertificationPhase, SandboxPoolCertificationStatus};
use crate::k8s::{ApiError, ConfigMap, DynamicObject};
use crate::number;
use vstd::prelude::*;

verus! {

/// Whether a pass ends here with this reason and these words.
pub open spec fn says(
    result: Result<PassStep, String>,
    reason: Seq<char>,
    words: Seq<char>,
) -> bool {
    result matches Ok(PassStep::Finished(progress)) && progress.reason@ == reason
        && progress.message@ == words
}

/// How a drain is reported: the generation that is waited for, then the counts as they
/// are, then that it is over.
pub proof fn law_drain_is_reported(
    subject: pass::PassSubjectView,
    status: SandboxPoolCertificationStatus,
    warm_pool: DynamicObject,
    generation: i64,
    replicas: u32,
    ready_replicas: u32,
    result: Result<PassStep, String>,
)
    requires
        status.drain_generation == Some(generation),
        step_laws::is_recorded_and_stays(warm_pool, subject.namespace, status.sandbox_warm_pool),
        pass::leads_to(
            subject,
            PassStage::AwaitDrain(status),
            PassAnswer::Object(Ok(warm_pool)),
            result,
        ),
    ensures
        !step_laws::observed_at(warm_pool, generation) ==> says(
            result,
            "CertificationDraining"@,
            "waiting for WarmPool generation "@ + number::signed_decimal(generation as int)
                + " to be observed"@,
        ),
        step_laws::observed_at(warm_pool, generation) && step_laws::status_says(
            warm_pool,
            "replicas"@,
            replicas as int,
        ) && step_laws::status_says(warm_pool, "readyReplicas"@, ready_replicas as int) ==> if replicas
            == 0 && ready_replicas == 0 {
            says(
                result,
                "CertificationDrained"@,
                "causal drain barrier proven: current generation observed with zero ready replicas"@,
            )
        } else {
            says(
                result,
                "CertificationDraining"@,
                "waiting for the drained WarmPool to report zero replicas (now "@ + number::decimal(
                    replicas as nat,
                ) + "/"@ + number::decimal(ready_replicas as nat) + ")"@,
            )
        },
        step_laws::observed_at(warm_pool, generation) && !(exists|count: int|
            step_laws::status_says(warm_pool, "replicas"@, count)) ==> says(
            result,
            "CertificationDraining"@,
            "WarmPool ACKed the drain but its replica counts are not observable yet"@,
        ),
{
    if let Some(count) = steps::reported_count(warm_pool, "replicas"@) {
        assert(step_laws::status_says(warm_pool, "replicas"@, count));
    }
}

/// How a creation is reported, and how one that failed.
pub proof fn law_creation_is_reported(
    subject: pass::PassSubjectView,
    status: SandboxPoolCertificationStatus,
    desired: DynamicObject,
    fence: ConfigMap,
    created: Result<(), ApiError>,
    of_claim: Result<PassStep, String>,
    of_fence: Result<PassStep, String>,
)
    requires
        pass::leads_to(
            subject,
            PassStage::CreateClaim(status, desired),
            PassAnswer::Done(created),
            of_claim,
        ),
        pass::leads_to(
            subject,
            PassStage::CreateFence(status, fence),
            PassAnswer::Done(created),
            of_fence,
        ),
    ensures
        created is Ok ==> says(
            of_claim,
            "CertificationClaimCreating"@,
            "created the deterministic sacrificial SandboxClaim; identity will be checkpointed on the next reconcile"@,
        ) && says(
            of_fence,
            "CertificationFenceCreating"@,
            "created the immutable exact-UID teardown fence; identity will be checkpointed on the next reconcile"@,
        ),
        created matches Err(error) ==> step_laws::may_be_tried_again(
            of_claim,
            "certification Claim create failed: "@ + error.error@,
        ) && step_laws::may_be_tried_again(
            of_fence,
            "certification fence create failed: "@ + error.error@,
        ),
{
}

/// How a passed canary and an installed fence are reported, and a probe that was let
/// through.
pub proof fn law_canary_and_fence_are_reported(
    subject: pass::PassSubjectView,
    canary: PassStage,
    probe: PassStage,
    outcome: CanaryOutcome,
    refused: Result<(), ApiError>,
    of_canary: Result<PassStep, String>,
    of_probe: Result<PassStep, String>,
)
    requires
        canary is RunCanary,
        probe is ProbeFence,
        probe->ProbeFence_0.phase is CanaryPassed,
        pass::leads_to(subject, canary, PassAnswer::Canary(outcome), of_canary),
        pass::leads_to(subject, probe, PassAnswer::Done(refused), of_probe),
    ensures
        outcome is Passed ==> says(
            of_canary,
            "CertificationCanaryPassed"@,
            "the bounded execution canary passed in the exact sacrificial workload"@,
        ),
        step_laws::ends_in(of_probe, SandboxPoolCertificationPhase::FenceInstalled) ==> says(
            of_probe,
            "CertificationFenceInstalled"@,
            "checkpointed the immutable exact-UID teardown fence after proving its VAP denial"@,
        ),
        refused is Ok ==> says(
            of_probe,
            "CertificationFencePropagationPending"@,
            "teardown fence exists but its exact VAP denial is not observable yet"@,
        ) && (of_probe matches Ok(PassStep::Finished(progress))
            && progress.status.message matches Some(message) && message@
            == "waiting for the teardown-fence VAP parameter informer to deny the exact dry-run descendant CREATE"@),
{
}

/// How a scaled warm pool is reported: with the generation that is waited for, or that
/// there is none, or that the write met another one.
pub proof fn law_scaling_is_reported(
    subject: pass::PassSubjectView,
    stage: PassStage,
    scale: Scale,
    written: Written,
    result: Result<PassStep, String>,
)
    requires
        stage is WriteScale,
        stage->WriteScale_1 == scale,
        pass::leads_to(subject, stage, PassAnswer::Scaled(written), result),
    ensures
        written matches Written::Accepted(updated) ==> match (scale, updated.metadata.generation) {
            (Scale::Drain, Some(generation)) => says(
                result,
                "CertificationDrainRequested"@,
                "scale-to-zero written under a UID/resourceVersion fence; waiting for generation "@
                    + number::signed_decimal(generation as int) + " plus zero ready replicas"@,
            ),
            (Scale::Restore, Some(generation)) => says(
                result,
                "CertificationRestoringCapacity"@,
                "descendant and storage absence proven; capacity restored and waiting for generation "@
                    + number::signed_decimal(generation as int),
            ),
            (Scale::Drain, None) => step_laws::may_be_tried_again(
                result,
                "drained certification WarmPool has no generation"@,
            ),
            (Scale::Restore, None) => step_laws::may_be_tried_again(
                result,
                "replenished certification WarmPool has no generation"@,
            ),
        },
        written is Conflicted ==> if scale == Scale::Drain {
            says(
                result,
                "CertificationDrainContended"@,
                "the WarmPool changed during scale-to-zero; retrying against its current snapshot"@,
            )
        } else {
            says(
                result,
                "CertificationRestoreContended"@,
                "the WarmPool changed during capacity restore; retrying against its current snapshot"@,
            )
        },
{
}

/// How the deletion of the claim and of the fence is reported.
pub proof fn law_deletions_are_reported(
    subject: pass::PassSubjectView,
    of_claim: PassStage,
    of_fence: PassStage,
    deleted: Result<(), ApiError>,
    claim: Result<PassStep, String>,
    fence: Result<PassStep, String>,
)
    requires
        of_claim is DeleteClaim,
        of_fence is DeleteFence,
        pass::leads_to(subject, of_claim, PassAnswer::Done(deleted), claim),
        pass::leads_to(subject, of_fence, PassAnswer::Done(deleted), fence),
    ensures
        deleted is Ok || (deleted matches Err(error) && error.code == Some(404u16)) ==> says(
            claim,
            "CertificationClaimDeleting"@,
            "foreground-deleting the exact sacrificial Claim"@,
        ) && says(
            fence,
            "CertificationFenceDeleting"@,
            "deleted the released teardown fence; absence confirms the next pass"@,
        ),
        deleted matches Err(error) ==> error.code == Some(409u16) ==> says(
            claim,
            "CertificationClaimDeleting"@,
            "foreground Claim deletion is contended; retrying against the surviving object"@,
        ) && says(
            fence,
            "CertificationFenceTerminating"@,
            "teardown fence deletion is contended; retrying against the surviving object"@,
        ),
        deleted matches Err(error) ==> error.code != Some(404u16) && error.code != Some(409u16)
            && error.code != Some(403u16) ==> step_laws::may_be_tried_again(
            claim,
            "certification Claim deletion failed: "@ + error.error@,
        ) && step_laws::may_be_tried_again(
            fence,
            "teardown fence deletion failed: "@ + error.error@,
        ),
{
}

/// How restored capacity is reported: which generation or which count is waited for,
/// which sandbox survived, and that the list is not full.
pub proof fn law_replenishment_is_reported(
    subject: pass::PassSubjectView,
    status: SandboxPoolCertificationStatus,
    warm_pool: DynamicObject,
    generation: i64,
    error: ApiError,
    selector: String,
    observed: Result<PassStep, String>,
    failed: Result<PassStep, String>,
)
    requires
        status.replenish_generation == Some(generation),
        step_laws::is_recorded_and_stays(warm_pool, subject.namespace, status.sandbox_warm_pool),
        pass::leads_to(
            subject,
            PassStage::AwaitReplenishment(status),
            PassAnswer::Object(Ok(warm_pool)),
            observed,
        ),
        pass::leads_to(
            subject,
            PassStage::ListReplenished(status, selector),
            PassAnswer::Sandboxes(Err(error)),
            failed,
        ),
    ensures
        !step_laws::observed_at(warm_pool, generation) ==> says(
            observed,
            "CertificationReplenishing"@,
            "waiting for WarmPool generation "@ + number::signed_decimal(generation as int)
                + " to be observed"@,
        ),
        step_laws::may_be_tried_again(
            failed,
            "replenished Sandbox list failed: "@ + error.error@,
        ),
{
}

/// How the release of the fence is reported.
pub proof fn law_release_is_reported(
    subject: pass::PassSubjectView,
    stage: PassStage,
    released: Released,
    result: Result<PassStep, String>,
)
    requires
        stage is ReleaseFence,
        pass::leads_to(subject, stage, PassAnswer::Released(released), result),
    ensures
        released is Accepted ==> says(
            result,
            "CertificationReplenished"@,
            "capacity restored on a fresh generation with only new UIDs; releasing the exact teardown fence"@,
        ),
        released is Conflicted ==> says(
            result,
            "CertificationFenceReleaseContended"@,
            "the teardown fence changed while releasing its finalizer; retrying"@,
        ),
        released matches Released::Failed(error) ==> step_laws::may_be_tried_again(
            result,
            "teardown fence finalizer release failed: "@ + error.error@,
        ),
{
}

/// How the end is reported: the pool is certified where the fence is gone, and until
/// then the fence is waited for.
pub proof fn law_completion_is_reported(
    subject: pass::PassSubjectView,
    status: SandboxPoolCertificationStatus,
    desired: ConfigMap,
    lookup: Result<ConfigMap, ApiError>,
    result: Result<PassStep, String>,
)
    requires
        pass::leads_to(
            subject,
            PassStage::SeekFence(status, FenceUse::Confirm, desired),
            PassAnswer::Fence(lookup),
            result,
        ),
    ensures
        lookup matches Err(error) ==> error.code == Some(404u16) ==> says(
            result,
            "Certified"@,
            "current-generation exact pool certification receipt is complete"@,
        ),
        lookup matches Ok(fence) ==> fence.metadata.deletion_timestamp is Some ==> says(
            result,
            "CertificationFenceDeleting"@,
            "waiting for the released teardown fence to disappear"@,
        ),
{
}

} // verus!
