//! What each turn of a pass comes to, said of what was recorded and answered.

use crate::certification::attempt;
use crate::certification::capacity::Written;
use crate::certification::claim;
use crate::certification::fence;
use crate::certification::names;
use crate::certification::pass::{self, FenceUse, PassAnswer, PassStage, PassStep, Purpose, Scale};
use crate::certification::steps::{self, AbsenceQuery, CanaryOutcome, Released};
use crate::crd::sandbox::{
    SandboxObjectReference, SandboxPoolCertificationPhase, SandboxPoolCertificationStatus,
};
use crate::json;
use crate::k8s::{ApiError, ConfigMap, DynamicObject};
use crate::text;
use vstd::prelude::*;

verus! {

/// Whether a pass ends here with its record in this phase.
pub open spec fn ends_in(
    result: Result<PassStep, String>,
    phase: SandboxPoolCertificationPhase,
) -> bool {
    result matches Ok(PassStep::Finished(progress)) && progress.status.phase == phase
}

/// Whether a pass ends here with this record moved on to a phase, without a message.
pub open spec fn moves_on(
    result: Result<PassStep, String>,
    next: SandboxPoolCertificationStatus,
    phase: SandboxPoolCertificationPhase,
    ready: u32,
    mutated: bool,
    reason: Seq<char>,
) -> bool {
    result matches Ok(PassStep::Finished(progress)) && progress.status == (
    SandboxPoolCertificationStatus { phase, message: None, ..next }) && progress.ready == ready
        && progress.mutated == mutated && progress.reason@ == reason && (progress.certified
        <==> phase == SandboxPoolCertificationPhase::Certified)
}

/// Whether a pass ends here with its record as it was.
pub open spec fn waits(
    result: Result<PassStep, String>,
    status: SandboxPoolCertificationStatus,
    ready: u32,
    mutated: bool,
    reason: Seq<char>,
) -> bool {
    result matches Ok(PassStep::Finished(progress)) && progress.status == status && progress.ready
        == ready && progress.mutated == mutated && progress.reason@ == reason
        && !progress.certified
}

/// Whether a pass ends here with its record kept and blocked for this reason.
pub open spec fn is_blocked(
    result: Result<PassStep, String>,
    status: SandboxPoolCertificationStatus,
    ready: u32,
    words: Seq<char>,
) -> bool {
    result matches Ok(PassStep::Finished(progress)) && progress.status == (
    SandboxPoolCertificationStatus {
        phase: SandboxPoolCertificationPhase::CleanupBlocked,
        message: progress.status.message,
        ..status
    }) && (progress.status.message matches Some(message) && message@ == words)
        && progress.message@ == words && progress.reason@ == "CleanupBlocked"@ && progress.ready
        == ready && !progress.mutated && !progress.certified
}

/// Whether a pass fails here, to be tried again.
pub open spec fn may_be_tried_again(result: Result<PassStep, String>, words: Seq<char>) -> bool {
    result matches Err(message) && message@ == words
}

/// Whether an object is the recorded one, in its namespace, and stays.
pub open spec fn is_recorded_and_stays(
    object: DynamicObject,
    namespace: Seq<char>,
    recorded: SandboxObjectReference,
) -> bool {
    &&& object.metadata.deletion_timestamp is None
    &&& object.metadata.namespace matches Some(found) && found@ == namespace
    &&& object.metadata.uid matches Some(uid) && uid@ == recorded.uid@
}

/// Whether an object has this generation and its status was written for it.
pub open spec fn observed_at(object: DynamicObject, generation: i64) -> bool {
    &&& object.metadata.generation == Some(generation)
    &&& object.data@.get("status"@) matches Some(status) && status.get("observedGeneration"@)
        == Some(json::JsonView::Number(json::NumberView::Integer(generation as int)))
}

/// Whether an object's status has this member with this integer.
pub open spec fn status_says(object: DynamicObject, field: Seq<char>, count: int) -> bool {
    object.data@.get("status"@) matches Some(status) && status.get(field) == Some(
        json::JsonView::Number(json::NumberView::Integer(count)),
    )
}

/// The drain is over exactly where the recorded warm pool is found and stays, has the
/// recorded drain generation, says in its status that it observed that generation,
/// and says in its status that it has no replicas and no ready replicas. Until then
/// the record stays; a lookup that fails is tried again; and a record without a drain
/// generation, or a warm pool that is deleting, misplaced or replaced, blocks the
/// attempt.
pub proof fn law_drain_ends_exactly_at_zero(
    subject: pass::PassSubjectView,
    status: SandboxPoolCertificationStatus,
    lookup: Result<DynamicObject, ApiError>,
    result: Result<PassStep, String>,
)
    requires
        pass::leads_to(subject, PassStage::AwaitDrain(status), PassAnswer::Object(lookup), result),
        status.phase is DrainAcknowledged,
    ensures
        ends_in(result, SandboxPoolCertificationPhase::ClaimDeleting) <==> {
            &&& status.drain_generation matches Some(generation)
            &&& lookup matches Ok(warm_pool)
            &&& warm_pool.metadata.deletion_timestamp is None
            &&& warm_pool.metadata.namespace matches Some(found) && found@ == subject.namespace
            &&& warm_pool.metadata.uid matches Some(uid) && uid@ == status.sandbox_warm_pool.uid@
            &&& warm_pool.metadata.generation == Some(generation)
            &&& warm_pool.data@.get("status"@) matches Some(reported)
            &&& reported.get("observedGeneration"@) == Some(
                json::JsonView::Number(json::NumberView::Integer(generation as int)),
            )
            &&& reported.get("replicas"@) == Some(
                json::JsonView::Number(json::NumberView::Integer(0)),
            )
            &&& reported.get("readyReplicas"@) == Some(
                json::JsonView::Number(json::NumberView::Integer(0)),
            )
        },
        ends_in(result, SandboxPoolCertificationPhase::ClaimDeleting) ==> moves_on(
            result,
            status,
            SandboxPoolCertificationPhase::ClaimDeleting,
            subject.ready,
            false,
            "CertificationDrained"@,
        ),
        status.drain_generation is None ==> is_blocked(
            result,
            status,
            subject.ready,
            "DrainAcknowledged checkpoint has no exact WarmPool drain generation"@,
        ),
        status.drain_generation is Some && lookup is Err ==> result is Err,
        status.drain_generation matches Some(generation) ==> lookup matches Ok(warm_pool) ==> {
            &&& !is_recorded_and_stays(
                warm_pool,
                subject.namespace,
                status.sandbox_warm_pool,
            ) <==> ends_in(result, SandboxPoolCertificationPhase::CleanupBlocked)
            &&& is_recorded_and_stays(warm_pool, subject.namespace, status.sandbox_warm_pool) && !(
            observed_at(warm_pool, generation) && status_says(warm_pool, "replicas"@, 0)
                && status_says(warm_pool, "readyReplicas"@, 0)) ==> waits(
                result,
                status,
                subject.ready,
                false,
                "CertificationDraining"@,
            )
        },
{
}

/// A claim that is looked for is created exactly where the server says that there is
/// none. One that is found and accepted is recorded, by its own namespace, name, UID
/// and generation; one that is found and not accepted blocks the attempt. A forbidden
/// lookup blocks it too, and any other failure is tried again.
pub proof fn law_claim_is_found_or_created(
    subject: pass::PassSubjectView,
    status: SandboxPoolCertificationStatus,
    desired: DynamicObject,
    lookup: Result<DynamicObject, ApiError>,
    result: Result<PassStep, String>,
)
    requires
        pass::leads_to(
            subject,
            PassStage::FindClaim(status, desired),
            PassAnswer::Object(lookup),
            result,
        ),
        status.phase is Initialized,
    ensures
        lookup matches Err(error) ==> {
            &&& error.code == Some(404u16) ==> result == Ok::<PassStep, String>(
                PassStep::Ask(PassStage::CreateClaim(status, desired)),
            )
            &&& error.code == Some(403u16) ==> is_blocked(
                result,
                status,
                subject.ready,
                "certification Claim lookup is forbidden: "@ + error.response@,
            )
            &&& error.code != Some(404u16) && error.code != Some(403u16) ==> may_be_tried_again(
                result,
                "certification Claim lookup failed: "@ + error.error@,
            )
        },
        lookup matches Ok(found) ==> match claim::observed_claim_error(
            subject.validation.pool.metadata@,
            desired.data@,
            found,
            subject.managed_by,
        ) {
            Some(words) => is_blocked(result, status, subject.ready, words),
            None => match found.metadata.uid {
                Some(uid) => if uid@.len() > 0 {
                    &&& result matches Ok(PassStep::Finished(progress))
                    &&& progress.status.sandbox_claim matches Some(recorded)
                    &&& recorded.api_version@ == "extensions.agents.x-k8s.io/v1beta1"@
                    &&& recorded.kind@ == "SandboxClaim"@
                    &&& text::opt_text(recorded.namespace) == text::opt_text(
                        found.metadata.namespace,
                    )
                    &&& recorded.name@ == found.metadata@.any_name()
                    &&& recorded.uid@ == uid@
                    &&& recorded.generation == found.metadata.generation
                    &&& moves_on(
                        result,
                        SandboxPoolCertificationStatus { sandbox_claim: Some(recorded), ..status },
                        SandboxPoolCertificationPhase::ClaimCreated,
                        subject.ready,
                        false,
                        "CertificationClaimCreated"@,
                    )
                } else {
                    result is Err
                },
                None => result is Err,
            },
        },
{
}

/// After the claim or the fence is created the record stays as it was and the write is
/// reported; a creation that fails is tried again.
pub proof fn law_creation_is_seen_on_the_next_pass(
    subject: pass::PassSubjectView,
    status: SandboxPoolCertificationStatus,
    desired: DynamicObject,
    fence: ConfigMap,
    created: Result<(), ApiError>,
    result: Result<PassStep, String>,
)
    requires
        pass::leads_to(
            subject,
            PassStage::CreateClaim(status, desired),
            PassAnswer::Done(created),
            result,
        ) || pass::leads_to(
            subject,
            PassStage::CreateFence(status, fence),
            PassAnswer::Done(created),
            result,
        ),
    ensures
        created is Ok ==> waits(result, status, subject.ready, true, "CertificationClaimCreating"@)
            || waits(result, status, subject.ready, true, "CertificationFenceCreating"@),
        created is Err ==> result is Err,
{
}

/// The canary counts as passed exactly where it passed, and its time is recorded then.
/// One that failed or stayed inconclusive blocks the attempt, with its reason.
pub proof fn law_only_a_passed_canary_moves_on(
    subject: pass::PassSubjectView,
    stage: PassStage,
    status: SandboxPoolCertificationStatus,
    outcome: CanaryOutcome,
    result: Result<PassStep, String>,
)
    requires
        stage is RunCanary,
        stage->RunCanary_0 == status,
        pass::leads_to(subject, stage, PassAnswer::Canary(outcome), result),
        status.phase is WorkloadCaptured,
    ensures
        ends_in(result, SandboxPoolCertificationPhase::CanaryPassed) <==> outcome
            == CanaryOutcome::Passed,
        outcome == CanaryOutcome::Passed ==> (result matches Ok(PassStep::Finished(progress))
            && progress.status.canary_passed_at is Some && moves_on(
            result,
            SandboxPoolCertificationStatus {
                canary_passed_at: progress.status.canary_passed_at,
                ..status
            },
            SandboxPoolCertificationPhase::CanaryPassed,
            subject.ready,
            false,
            "CertificationCanaryPassed"@,
        )),
        outcome matches CanaryOutcome::Failed { reason } ==> is_blocked(
            result,
            status,
            subject.ready,
            "pool execution canary did not pass: "@ + reason@,
        ),
        outcome matches CanaryOutcome::Inconclusive { reason } ==> is_blocked(
            result,
            status,
            subject.ready,
            "pool execution canary did not pass: "@ + reason@,
        ),
{
}

/// A fence counts as installed exactly where the server refused the probe as
/// forbidden and said that the fence did it. A probe that was let through is waited
/// for, with the fence recorded; any other refusal proves nothing and blocks the
/// attempt.
pub proof fn law_only_a_denied_probe_installs_the_fence(
    subject: pass::PassSubjectView,
    stage: PassStage,
    fenced: SandboxPoolCertificationStatus,
    probe: Result<(), ApiError>,
    result: Result<PassStep, String>,
)
    requires
        stage is ProbeFence,
        stage->ProbeFence_0 == fenced,
        pass::leads_to(subject, stage, PassAnswer::Done(probe), result),
        fenced.phase is CanaryPassed,
    ensures
        ends_in(result, SandboxPoolCertificationPhase::FenceInstalled) <==> (probe matches Err(error)
            && error.code == Some(403u16) && exists|at: int|
            text::contains_at(
                error.message@,
                "Sandbox teardown has fenced descendant creation for this controller owner UID"@,
                at,
            )),
        ends_in(result, SandboxPoolCertificationPhase::FenceInstalled) ==> moves_on(
            result,
            fenced,
            SandboxPoolCertificationPhase::FenceInstalled,
            subject.ready,
            false,
            "CertificationFenceInstalled"@,
        ),
        probe is Ok ==> (result matches Ok(PassStep::Finished(progress)) && progress.status == (
        SandboxPoolCertificationStatus { message: progress.status.message, ..fenced })
            && !progress.certified && !progress.mutated && progress.reason@
            == "CertificationFencePropagationPending"@),
        probe matches Err(error) ==> ends_in(
            result,
            SandboxPoolCertificationPhase::FenceInstalled,
        ) || is_blocked(
            result,
            fenced,
            subject.ready,
            "teardown-fence VAP denial could not be proven by dry-run CREATE: "@ + error.error@,
        ),
{
}

/// The warm pool that is to be scaled is patched exactly where it is found, is the
/// recorded one, stays and has a resource version; the patch goes to it with that
/// version and the replicas of the purpose, zero to drain and the pool's capacity to
/// restore. Without a version, or where it is deleting, misplaced or replaced, the
/// attempt is blocked; a lookup that fails is tried again.
pub proof fn law_only_the_recorded_warm_pool_is_scaled(
    subject: pass::PassSubjectView,
    status: SandboxPoolCertificationStatus,
    scale: Scale,
    lookup: Result<DynamicObject, ApiError>,
    result: Result<PassStep, String>,
)
    requires
        pass::leads_to(
            subject,
            PassStage::ReadScale(status, scale),
            PassAnswer::Object(lookup),
            result,
        ),
    ensures
        lookup is Err ==> result is Err,
        lookup matches Ok(found) ==> {
            &&& result is Ok
            &&& (result matches Ok(PassStep::Ask(_))) <==> is_recorded_and_stays(
                found,
                subject.namespace,
                status.sandbox_warm_pool,
            ) && found.metadata.resource_version is Some
            &&& result matches Ok(PassStep::Ask(next)) ==> {
                let replicas = if scale == Scale::Drain {
                    0
                } else {
                    subject.validation.pool.spec.warm_capacity
                };
                &&& next matches PassStage::WriteScale(kept, kept_for, patch)
                &&& kept == status
                &&& kept_for == scale
                &&& patch@ == json::JsonView::Array(
                    seq![
                        operation(
                            "test"@,
                            "/metadata/uid"@,
                            json::JsonView::Text(status.sandbox_warm_pool.uid@),
                        ),
                        operation(
                            "test"@,
                            "/metadata/resourceVersion"@,
                            json::JsonView::Text(found.metadata.resource_version->0@),
                        ),
                        operation("test"@, "/spec/replicas"@, replicas_now(found)),
                        operation(
                            "replace"@,
                            "/spec/replicas"@,
                            json::JsonView::Number(json::NumberView::Integer(replicas as int)),
                        ),
                    ],
                )
            }
            &&& result matches Ok(PassStep::Finished(_)) ==> ends_in(
                result,
                SandboxPoolCertificationPhase::CleanupBlocked,
            )
        },
{
}

/// One operation of a JSON patch.
pub open spec fn operation(
    op: Seq<char>,
    path: Seq<char>,
    value: json::JsonView,
) -> json::JsonView {
    json::JsonView::Object(
        seq![
            ("op"@, json::JsonView::Text(op)),
            ("path"@, json::JsonView::Text(path)),
            ("value"@, value),
        ],
    )
}

/// The replicas that an object's specification asks for, or null.
pub open spec fn replicas_now(object: DynamicObject) -> json::JsonView {
    match object.data@.get("spec"@) {
        Some(spec) => match spec.get("replicas"@) {
            Some(replicas) => replicas,
            None => json::JsonView::Null,
        },
        None => json::JsonView::Null,
    }
}

/// A scaled warm pool moves the attempt on exactly where the write was accepted and
/// the answer has a generation, which is recorded for the purpose. A conflict waits;
/// a warm pool that is gone or may not be written blocks the attempt; and any other
/// failure is tried again.
pub proof fn law_an_accepted_scale_is_recorded(
    subject: pass::PassSubjectView,
    stage: PassStage,
    status: SandboxPoolCertificationStatus,
    scale: Scale,
    written: Written,
    result: Result<PassStep, String>,
)
    requires
        stage is WriteScale,
        stage->WriteScale_0 == status,
        stage->WriteScale_1 == scale,
        pass::leads_to(subject, stage, PassAnswer::Scaled(written), result),
        scale == Scale::Drain ==> status.phase is FenceInstalled,
        scale == Scale::Restore ==> status.phase is AbsenceProven,
    ensures
        ends_in(result, SandboxPoolCertificationPhase::DrainAcknowledged) <==> scale == Scale::Drain
            && (written matches Written::Accepted(updated) && updated.metadata.generation is Some),
        ends_in(result, SandboxPoolCertificationPhase::Replenished) <==> scale == Scale::Restore && (
        written matches Written::Accepted(updated) && updated.metadata.generation is Some),
        written matches Written::Accepted(updated) ==> match updated.metadata.generation {
            Some(generation) => if scale == Scale::Drain {
                moves_on(
                    result,
                    SandboxPoolCertificationStatus {
                        drain_generation: Some(generation),
                        ..status
                    },
                    SandboxPoolCertificationPhase::DrainAcknowledged,
                    subject.ready,
                    true,
                    "CertificationDrainRequested"@,
                )
            } else {
                moves_on(
                    result,
                    SandboxPoolCertificationStatus {
                        replenish_generation: Some(generation),
                        ..status
                    },
                    SandboxPoolCertificationPhase::Replenished,
                    subject.ready,
                    true,
                    "CertificationRestoringCapacity"@,
                )
            },
            None => result is Err,
        },
        written matches Written::Conflicted ==> waits(
            result,
            status,
            subject.ready,
            false,
            if scale == Scale::Drain {
                "CertificationDrainContended"@
            } else {
                "CertificationRestoreContended"@
            },
        ),
        written matches Written::Failed(error) ==> if error.code == Some(404u16) || error.code
            == Some(403u16) {
            is_blocked(
                result,
                status,
                subject.ready,
                "recorded certification WarmPool cannot be scaled: "@ + error.response@,
            )
        } else {
            may_be_tried_again(
                result,
                "certification WarmPool scale failed: "@ + error.error@,
            )
        },
{
}

/// The claim counts as gone exactly where the server says that there is none. While it
/// is there under its UID it is deleted by name and UID; a replacement blocks the
/// attempt, as does a forbidden lookup or a record without a claim; any other failure
/// is tried again.
pub proof fn law_the_doomed_claim_is_deleted_or_gone(
    subject: pass::PassSubjectView,
    status: SandboxPoolCertificationStatus,
    lookup: Result<DynamicObject, ApiError>,
    result: Result<PassStep, String>,
)
    requires
        pass::leads_to(
            subject,
            PassStage::FindDoomedClaim(status),
            PassAnswer::Object(lookup),
            result,
        ),
        status.phase is ClaimDeleting,
    ensures
        ends_in(result, SandboxPoolCertificationPhase::AbsenceProven) <==> status.sandbox_claim is Some
            && (lookup matches Err(error) && error.code == Some(404u16)),
        ends_in(result, SandboxPoolCertificationPhase::AbsenceProven) ==> moves_on(
            result,
            status,
            SandboxPoolCertificationPhase::AbsenceProven,
            subject.ready,
            false,
            "CertificationClaimGone"@,
        ),
        status.sandbox_claim is None ==> ends_in(
            result,
            SandboxPoolCertificationPhase::CleanupBlocked,
        ),
        status.sandbox_claim matches Some(recorded) ==> {
            &&& lookup matches Ok(found) ==> if found.metadata.uid matches Some(uid) && uid@
                == recorded.uid@ {
                result matches Ok(PassStep::Ask(PassStage::DeleteClaim(kept, name, uid))) && kept
                    == status && name@ == recorded.name@ && uid@ == recorded.uid@
            } else {
                ends_in(result, SandboxPoolCertificationPhase::CleanupBlocked)
            }
            &&& lookup matches Err(error) ==> error.code == Some(403u16) ==> ends_in(
                result,
                SandboxPoolCertificationPhase::CleanupBlocked,
            )
            &&& lookup matches Err(error) ==> error.code != Some(403u16) && error.code != Some(
                404u16,
            ) ==> result is Err
        },
{
}

/// The deletion of the claim never moves the attempt on: only a later lookup shows
/// that it is gone. A deletion that went through, or found nothing, is reported as a
/// write; a conflict waits; a forbidden deletion blocks; any other failure is tried
/// again.
pub proof fn law_claim_deletion_is_not_absence(
    subject: pass::PassSubjectView,
    stage: PassStage,
    status: SandboxPoolCertificationStatus,
    deleted: Result<(), ApiError>,
    result: Result<PassStep, String>,
)
    requires
        stage is DeleteClaim,
        stage->DeleteClaim_0 == status,
        pass::leads_to(subject, stage, PassAnswer::Done(deleted), result),
    ensures
        deleted is Ok ==> waits(
            result,
            status,
            subject.ready,
            true,
            "CertificationClaimDeleting"@,
        ),
        deleted matches Err(error) ==> {
            &&& error.code == Some(404u16) ==> waits(
                result,
                status,
                subject.ready,
                true,
                "CertificationClaimDeleting"@,
            )
            &&& error.code == Some(409u16) ==> waits(
                result,
                status,
                subject.ready,
                false,
                "CertificationClaimDeleting"@,
            )
            &&& error.code == Some(403u16) ==> is_blocked(
                result,
                status,
                subject.ready,
                "foreground Claim deletion is forbidden: "@ + error.response@,
            )
            &&& error.code != Some(404u16) && error.code != Some(409u16) && error.code != Some(
                403u16,
            ) ==> may_be_tried_again(
                result,
                "certification Claim deletion failed: "@ + error.error@,
            )
        },
{
}

/// What has to be gone, one after the other: the claim, the sandbox, and then every
/// recorded volume claim and every recorded volume.
pub open spec fn doomed(
    status: SandboxPoolCertificationStatus,
    at: int,
) -> Option<SandboxObjectReference> {
    let claims = status.persistent_volume_claims@;
    if at == 0 {
        status.sandbox_claim
    } else if at == 1 {
        status.sandbox
    } else if 2 <= at < 2 + claims.len() {
        Some(claims[at - 2])
    } else {
        Some(status.persistent_volumes@[at - 2 - claims.len()])
    }
}

/// How many objects have to be gone.
pub open spec fn doomed_count(status: SandboxPoolCertificationStatus) -> nat {
    2 + status.persistent_volume_claims@.len() + status.persistent_volumes@.len()
}

/// An object that has to be gone counts as gone exactly where the server says that
/// there is none. While it is there under its UID the record stays; a replacement or a
/// forbidden lookup blocks the attempt; and any other failure is tried again. After
/// one object is gone the next is looked up, by the name it was recorded with; after
/// the last the warm pool is looked up to be restored.
pub proof fn law_each_doomed_object_is_proven_gone(
    subject: pass::PassSubjectView,
    stage: PassStage,
    status: SandboxPoolCertificationStatus,
    at: u128,
    lookup: Result<DynamicObject, ApiError>,
    result: Result<PassStep, String>,
)
    requires
        stage is ProveAbsence,
        stage->ProveAbsence_0 == status,
        stage->ProveAbsence_1 == at,
        at < doomed_count(status),
        doomed(status, at as int) is Some,
        pass::leads_to(subject, stage, PassAnswer::Object(lookup), result),
    ensures
        result matches Ok(PassStep::Ask(_)) ==> (lookup matches Err(error) && error.code == Some(
            404u16,
        )),
        lookup matches Err(error) ==> error.code == Some(404u16) ==> {
            &&& at + 1 == doomed_count(status) ==> result == Ok::<PassStep, String>(
                PassStep::Ask(PassStage::ReadScale(status, Scale::Restore)),
            )
            &&& at + 1 < doomed_count(status) && doomed(status, at + 1) is Some ==> (
            result matches Ok(PassStep::Ask(PassStage::ProveAbsence(kept, next, query))) && kept
                == status && next == at + 1 && match query {
                AbsenceQuery::Sandbox(name) => at + 1 == 1 && name@ == doomed(
                    status,
                    at + 1,
                )->0.name@,
                AbsenceQuery::VolumeClaim(name) => 2 <= at + 1 < 2
                    + status.persistent_volume_claims@.len() && name@ == doomed(
                    status,
                    at + 1,
                )->0.name@,
                AbsenceQuery::Volume(name) => 2 + status.persistent_volume_claims@.len() <= at + 1
                    && name@ == doomed(status, at + 1)->0.name@,
                _ => false,
            })
            &&& at + 1 < doomed_count(status) && doomed(status, at + 1) is None ==> ends_in(
                result,
                SandboxPoolCertificationPhase::CleanupBlocked,
            )
        },
        lookup matches Err(error) ==> error.code == Some(403u16) ==> ends_in(
            result,
            SandboxPoolCertificationPhase::CleanupBlocked,
        ),
        lookup matches Err(error) ==> error.code != Some(403u16) && error.code != Some(404u16)
            ==> result is Err,
        lookup matches Ok(found) ==> if found.metadata.uid matches Some(uid) && uid@ == doomed(
            status,
            at as int,
        )->0.uid@ {
            waits(result, status, subject.ready, false, "CertificationAbsencePending"@)
        } else {
            ends_in(result, SandboxPoolCertificationPhase::CleanupBlocked)
        },
{
    reveal_strlit("SandboxClaim");
    reveal_strlit("Sandbox");
    assert("SandboxClaim"@.len() == 12);
    assert("Sandbox"@.len() == 7);
}

/// Restored capacity is looked through for survivors exactly where the recorded warm
/// pool is found and stays, has the recorded generation, says that it observed it, and
/// says that as many replicas are ready as the pool keeps warm. Until then the record
/// stays; a lookup that fails is tried again; a record without a generation or a warm
/// pool that is deleting, misplaced or replaced blocks the attempt.
pub proof fn law_replenishment_is_observed(
    subject: pass::PassSubjectView,
    status: SandboxPoolCertificationStatus,
    lookup: Result<DynamicObject, ApiError>,
    result: Result<PassStep, String>,
)
    requires
        pass::leads_to(
            subject,
            PassStage::AwaitReplenishment(status),
            PassAnswer::Object(lookup),
            result,
        ),
        status.phase is Replenished,
    ensures
        (result matches Ok(PassStep::Ask(_))) <==> {
            &&& status.replenish_generation matches Some(generation)
            &&& lookup matches Ok(warm_pool)
            &&& is_recorded_and_stays(warm_pool, subject.namespace, status.sandbox_warm_pool)
            &&& observed_at(warm_pool, generation)
            &&& status_says(
                warm_pool,
                "readyReplicas"@,
                subject.validation.pool.spec.warm_capacity as int,
            )
        },
        result matches Ok(PassStep::Ask(next)) ==> (next matches PassStage::ListReplenished(
            kept,
            selector,
        ) && kept == status && selector@ == "agents.x-k8s.io/warm-pool-sandbox="@
            + names::name_hash(status.sandbox_warm_pool.name@)),
        status.replenish_generation is None ==> ends_in(
            result,
            SandboxPoolCertificationPhase::CleanupBlocked,
        ),
        status.replenish_generation is Some && lookup is Err ==> result is Err,
        status.replenish_generation matches Some(generation) ==> lookup matches Ok(warm_pool) ==> {
            &&& !is_recorded_and_stays(
                warm_pool,
                subject.namespace,
                status.sandbox_warm_pool,
            ) <==> ends_in(result, SandboxPoolCertificationPhase::CleanupBlocked)
            &&& is_recorded_and_stays(warm_pool, subject.namespace, status.sandbox_warm_pool) && !(
            observed_at(warm_pool, generation) && status_says(
                warm_pool,
                "readyReplicas"@,
                subject.validation.pool.spec.warm_capacity as int,
            )) ==> waits(
                result,
                status,
                subject.ready,
                false,
                "CertificationReplenishing"@,
            )
        },
{
    reveal_strlit("agents.x-k8s.io/warm-pool-sandbox=");
    reveal_strlit("agents.x-k8s.io/warm-pool-sandbox");
    reveal_strlit("=");
    assert("agents.x-k8s.io/warm-pool-sandbox="@ =~= "agents.x-k8s.io/warm-pool-sandbox"@ + "="@);
}

/// Whether a listed sandbox was there before the teardown: one of the idle ones that
/// were there before the claim, or the sacrificed one.
pub open spec fn survived(
    status: SandboxPoolCertificationStatus,
    listed: DynamicObject,
) -> bool {
    listed.metadata.uid matches Some(uid) && ((status.sandbox matches Some(sacrificed)
        && sacrificed.uid@ == uid@) || exists|i: int|
        0 <= i < status.baseline_idle_sandbox_uids@.len() && (
        #[trigger] status.baseline_idle_sandbox_uids@[i])@ == uid@)
}

proof fn lemma_survivor(
    status: SandboxPoolCertificationStatus,
    listed: Seq<DynamicObject>,
)
    ensures
        steps::survivor(status, listed) is Some <==> exists|i: int|
            0 <= i < listed.len() && survived(status, #[trigger] listed[i]),
    decreases listed.len(),
{
    if listed.len() > 0 {
        let less = listed.drop_last();
        lemma_survivor(status, less);
        let uids = text::texts(status.baseline_idle_sandbox_uids@);
        if let Some(uid) = listed.last().metadata.uid {
            if uids.contains(uid@) {
                let k = choose|k: int| 0 <= k < uids.len() && uids[k] == uid@;
                assert(status.baseline_idle_sandbox_uids@[k]@ == uid@);
            }
            if exists|i: int|
                0 <= i < status.baseline_idle_sandbox_uids@.len() && (
                #[trigger] status.baseline_idle_sandbox_uids@[i])@ == uid@ {
                let k = choose|k: int|
                    0 <= k < status.baseline_idle_sandbox_uids@.len() && (
                    #[trigger] status.baseline_idle_sandbox_uids@[k])@ == uid@;
                assert(uids[k] == uid@);
            }
            assert(steps::forbidden_uid(status, uid@) == survived(status, listed.last()));
        }
        if exists|i: int| 0 <= i < less.len() && survived(status, #[trigger] less[i]) {
            let k = choose|k: int| 0 <= k < less.len() && survived(status, #[trigger] less[k]);
            assert(survived(status, listed[k]));
        }
        if survived(status, listed.last()) {
            assert(survived(status, listed[listed.len() - 1]));
        }
        if exists|i: int| 0 <= i < listed.len() && survived(status, #[trigger] listed[i]) {
            let k = choose|k: int| 0 <= k < listed.len() && survived(status, #[trigger] listed[k]);
            if k < less.len() {
                assert(survived(status, less[k]));
            }
        }
    }
}

/// The fence is released only over fresh capacity: the list came, as many sandboxes
/// are in it as the pool keeps warm, and none of them was there before. A survivor
/// blocks the attempt, a short list waits, and a list that fails is tried again.
pub proof fn law_only_fresh_capacity_releases_the_fence(
    subject: pass::PassSubjectView,
    stage: PassStage,
    status: SandboxPoolCertificationStatus,
    list: Result<Vec<DynamicObject>, ApiError>,
    result: Result<PassStep, String>,
)
    requires
        stage is ListReplenished,
        stage->ListReplenished_0 == status,
        status.phase is Replenished,
        pass::leads_to(subject, stage, PassAnswer::Sandboxes(list), result),
    ensures
        result matches Ok(PassStep::Ask(next)) ==> {
            &&& next matches PassStage::SeekFence(kept, kept_for, _) && kept == status && kept_for
                == FenceUse::Release
            &&& list matches Ok(listed) && listed@.len()
                >= subject.validation.pool.spec.warm_capacity && forall|i: int|
                0 <= i < listed@.len() ==> !survived(status, #[trigger] listed@[i])
        },
        list is Err ==> result is Err,
        list matches Ok(listed) ==> {
            &&& (exists|i: int| 0 <= i < listed@.len() && survived(status, #[trigger] listed@[i]))
                <==> ends_in(result, SandboxPoolCertificationPhase::CleanupBlocked)
            &&& listed@.len() < subject.validation.pool.spec.warm_capacity && (forall|i: int|
                0 <= i < listed@.len() ==> !survived(status, #[trigger] listed@[i])) ==> waits(
                result,
                status,
                subject.ready,
                false,
                "CertificationReplenishing"@,
            )
            &&& listed@.len() >= subject.validation.pool.spec.warm_capacity && (forall|i: int|
                0 <= i < listed@.len() ==> !survived(status, #[trigger] listed@[i])) && (
            status.sandbox_claim is Some || status.sandbox is Some) ==> (result matches Ok(PassStep::Ask(_)))
        },
{
    if let Ok(listed) = list {
        lemma_survivor(status, listed@);
    }
}

/// The released fence moves the attempt on exactly where the release was accepted; a
/// conflict waits and a failure is tried again.
pub proof fn law_only_an_accepted_release_moves_on(
    subject: pass::PassSubjectView,
    stage: PassStage,
    status: SandboxPoolCertificationStatus,
    released: Released,
    result: Result<PassStep, String>,
)
    requires
        stage is ReleaseFence,
        stage->ReleaseFence_0 == status,
        status.phase is Replenished,
        pass::leads_to(subject, stage, PassAnswer::Released(released), result),
    ensures
        ends_in(result, SandboxPoolCertificationPhase::FenceFinalizerRemoved) <==> released
            is Accepted,
        released is Accepted ==> moves_on(
            result,
            status,
            SandboxPoolCertificationPhase::FenceFinalizerRemoved,
            subject.ready,
            true,
            "CertificationReplenished"@,
        ),
        released is Conflicted ==> waits(
            result,
            status,
            subject.ready,
            false,
            "CertificationFenceReleaseContended"@,
        ),
        released matches Released::Failed(error) ==> may_be_tried_again(
            result,
            "teardown fence finalizer release failed: "@ + error.error@,
        ),
{
}

/// The deletion of the fence moves the attempt on exactly where it went through or
/// found nothing. A conflict waits, a forbidden deletion blocks the attempt, and any
/// other failure is tried again.
pub proof fn law_fence_deletion_moves_on(
    subject: pass::PassSubjectView,
    stage: PassStage,
    status: SandboxPoolCertificationStatus,
    deleted: Result<(), ApiError>,
    result: Result<PassStep, String>,
)
    requires
        stage is DeleteFence,
        stage->DeleteFence_0 == status,
        status.phase is FenceFinalizerRemoved,
        pass::leads_to(subject, stage, PassAnswer::Done(deleted), result),
    ensures
        ends_in(result, SandboxPoolCertificationPhase::FenceDeleting) <==> (deleted matches Err(
            error,
        ) ==> error.code == Some(404u16)),
        ends_in(result, SandboxPoolCertificationPhase::FenceDeleting) ==> moves_on(
            result,
            status,
            SandboxPoolCertificationPhase::FenceDeleting,
            subject.ready,
            true,
            "CertificationFenceDeleting"@,
        ),
        deleted matches Err(error) ==> {
            &&& error.code == Some(409u16) ==> waits(
                result,
                status,
                subject.ready,
                false,
                "CertificationFenceTerminating"@,
            )
            &&& error.code == Some(403u16) ==> is_blocked(
                result,
                status,
                subject.ready,
                "teardown fence deletion is forbidden: "@ + error.response@,
            )
            &&& error.code != Some(404u16) && error.code != Some(409u16) && error.code != Some(
                403u16,
            ) ==> may_be_tried_again(result, "teardown fence deletion failed: "@ + error.error@)
        },
{
}

/// The attempt is certified exactly where the server says that the deleted fence is
/// gone, and the time is recorded then. While the fence is there and deleting the
/// record stays; one that is there and not deleting blocks the attempt; and any other
/// failure is tried again.
pub proof fn law_only_a_gone_fence_certifies(
    subject: pass::PassSubjectView,
    status: SandboxPoolCertificationStatus,
    desired: ConfigMap,
    lookup: Result<ConfigMap, ApiError>,
    result: Result<PassStep, String>,
)
    requires
        status.phase is FenceDeleting,
        pass::leads_to(
            subject,
            PassStage::SeekFence(status, FenceUse::Confirm, desired),
            PassAnswer::Fence(lookup),
            result,
        ),
    ensures
        ends_in(result, SandboxPoolCertificationPhase::Certified) <==> (lookup matches Err(error)
            && error.code == Some(404u16)),
        (result matches Ok(PassStep::Finished(progress)) && progress.certified) <==> ends_in(
            result,
            SandboxPoolCertificationPhase::Certified,
        ),
        ends_in(result, SandboxPoolCertificationPhase::Certified) ==> (result matches Ok(
            PassStep::Finished(progress),
        ) && progress.status.certified_at is Some && moves_on(
            result,
            SandboxPoolCertificationStatus {
                certified_at: progress.status.certified_at,
                ..status
            },
            SandboxPoolCertificationPhase::Certified,
            subject.ready,
            true,
            "Certified"@,
        )),
        lookup matches Err(error) ==> error.code != Some(404u16) ==> may_be_tried_again(
            result,
            "teardown fence lookup failed: "@ + error.error@,
        ),
        lookup matches Ok(fence) ==> if fence.metadata.deletion_timestamp is Some {
            waits(result, status, subject.ready, false, "CertificationFenceDeleting"@)
        } else {
            is_blocked(
                result,
                status,
                subject.ready,
                "released teardown fence exists without a deletion timestamp"@,
            )
        },
{
}

/// Whether a fence that was found is the recorded one, stays, and has what a guarded
/// write needs.
pub open spec fn is_recorded_fence(
    found: ConfigMap,
    status: SandboxPoolCertificationStatus,
) -> bool {
    &&& status.teardown_fence matches Some(recorded)
    &&& found.metadata.deletion_timestamp is None
    &&& found.metadata.uid matches Some(uid) && uid@ == recorded.uid@ && uid@.len() > 0
    &&& found.metadata.resource_version matches Some(version) && version@.len() > 0
}

/// The fence is released or deleted exactly where it is found, is the recorded one,
/// stays, and has a UID and a resource version. The release takes its one finalizer
/// away under a guard on its UID, and the deletion names its UID and version. In every
/// other case nothing is written and the pass fails.
pub proof fn law_only_the_recorded_fence_is_released_or_deleted(
    subject: pass::PassSubjectView,
    status: SandboxPoolCertificationStatus,
    purpose: FenceUse,
    desired: ConfigMap,
    lookup: Result<ConfigMap, ApiError>,
    result: Result<PassStep, String>,
)
    requires
        purpose == FenceUse::Release || purpose == FenceUse::Delete,
        pass::leads_to(
            subject,
            PassStage::SeekFence(status, purpose, desired),
            PassAnswer::Fence(lookup),
            result,
        ),
    ensures
        result is Ok <==> (lookup matches Ok(found) && is_recorded_fence(found, status)),
        result is Ok && purpose == FenceUse::Release ==> (result matches Ok(
            PassStep::Ask(PassStage::ReleaseFence(kept, fence, patch)),
        ) && kept == status && fence == desired && patch@ == json::JsonView::Array(
            seq![
                operation(
                    "test"@,
                    "/metadata/uid"@,
                    json::JsonView::Text(status.teardown_fence->0.uid@),
                ),
                operation(
                    "test"@,
                    "/metadata/finalizers"@,
                    json::JsonView::Array(
                        seq![json::JsonView::Text("kobe.kunobi.ninja/sandbox-teardown-fence"@)],
                    ),
                ),
                operation(
                    "replace"@,
                    "/metadata/finalizers"@,
                    json::JsonView::Array(Seq::empty()),
                ),
            ],
        )),
        result is Ok && purpose == FenceUse::Delete ==> (result matches Ok(
            PassStep::Ask(PassStage::DeleteFence(kept, fence, uid, version)),
        ) && kept == status && fence == desired && uid@ == status.teardown_fence->0.uid@
            && version@ == lookup->Ok_0.metadata.resource_version->0@),
{
}

/// Whether a fence that was found still fences: it stays, cannot be changed, holds
/// what is desired, and has the label and the finalizer of a fence.
pub open spec fn still_fences(found: ConfigMap, desired: ConfigMap) -> bool {
    &&& found.metadata.deletion_timestamp is None
    &&& found.immutable == Some(true)
    &&& text::opt_pairs(found.data) == text::opt_pairs(desired.data)
    &&& found.metadata@.label("kobe.kunobi.ninja/sandbox-teardown-fence"@) == Some("true"@)
    &&& exists|i: int|
        0 <= i < found.metadata.finalizers@.len() && (#[trigger] found.metadata.finalizers@[i])@
            == "kobe.kunobi.ninja/sandbox-teardown-fence"@
}

/// A fence that is to be installed is created exactly where the server says that there
/// is none, and probed exactly where it is found, still fences and has a UID; the probe
/// goes with the fence recorded. One that is deleting or drifted blocks the attempt, as
/// does a forbidden lookup; any other failure is tried again.
pub proof fn law_fence_is_created_or_probed(
    subject: pass::PassSubjectView,
    status: SandboxPoolCertificationStatus,
    desired: ConfigMap,
    lookup: Result<ConfigMap, ApiError>,
    result: Result<PassStep, String>,
)
    requires
        status.sandbox is Some,
        status.phase is CanaryPassed,
        pass::leads_to(
            subject,
            PassStage::SeekFence(status, FenceUse::Install, desired),
            PassAnswer::Fence(lookup),
            result,
        ),
    ensures
        lookup matches Err(error) ==> {
            &&& error.code == Some(404u16) ==> result == Ok::<PassStep, String>(
                PassStep::Ask(PassStage::CreateFence(status, desired)),
            )
            &&& error.code == Some(403u16) ==> is_blocked(
                result,
                status,
                subject.ready,
                "certification fence lookup is forbidden: "@ + error.response@,
            )
            &&& error.code != Some(404u16) && error.code != Some(403u16) ==> may_be_tried_again(
                result,
                "certification fence lookup failed: "@ + error.error@,
            )
        },
        lookup matches Ok(found) ==> {
            &&& !still_fences(found, desired) ==> is_blocked(
                result,
                status,
                subject.ready,
                "same-named certification teardown fence is deleting or drifted"@,
            )
            &&& still_fences(found, desired) ==> match found.metadata.uid {
                Some(uid) => if uid@.len() > 0 {
                    &&& result matches Ok(PassStep::Ask(PassStage::ProbeFence(fenced, _)))
                    &&& fenced.teardown_fence matches Some(recorded)
                    &&& recorded.api_version@ == "v1"@
                    &&& recorded.kind@ == "ConfigMap"@
                    &&& recorded.name@ == found.metadata@.any_name()
                    &&& recorded.uid@ == uid@
                    &&& fenced == (SandboxPoolCertificationStatus {
                        teardown_fence: Some(recorded),
                        ..status
                    })
                } else {
                    result is Err
                },
                None => result is Err,
            }
        },
{
    if let Ok(found) = lookup {
        let finalizers = found.metadata@.finalizers;
        let wanted = "kobe.kunobi.ninja/sandbox-teardown-fence"@;
        if finalizers.contains(wanted) {
            let k = choose|k: int| 0 <= k < finalizers.len() && finalizers[k] == wanted;
            assert(found.metadata.finalizers@[k]@ == wanted);
        }
        if exists|i: int|
            0 <= i < found.metadata.finalizers@.len() && (
            #[trigger] found.metadata.finalizers@[i])@ == wanted {
            let k = choose|k: int|
                0 <= k < found.metadata.finalizers@.len() && (
                #[trigger] found.metadata.finalizers@[k])@ == wanted;
            assert(finalizers[k] == wanted);
        }
        assert(fence::fence_is_intact(found, desired) == still_fences(found, desired));
    }
}

/// Where a pass goes from each phase, over a pool that is the same as before: it looks
/// for the claim, captures the workload, proves it again for the canary and for the
/// fence, drains the warm pool, awaits the drain, deletes the claim, proves what was
/// recorded gone, awaits new capacity, and looks the fence up to delete it and to see
/// it gone. A certified or blocked attempt ends the pass as it is.
pub proof fn law_each_phase_has_its_turn(
    subject: pass::PassSubjectView,
    begun: SandboxPoolCertificationStatus,
    fresh: SandboxPoolCertificationStatus,
    claim: Result<DynamicObject, String>,
    start: Result<PassStep, String>,
)
    requires
        pass::begins_with(subject, Some(begun), fresh, claim, start),
        !attempt::drifted(begun, fresh),
    ensures
        claim is Err ==> start is Err,
        claim matches Ok(desired) ==> {
            &&& begun.phase is Initialized ==> start == Ok::<PassStep, String>(
                PassStep::Ask(PassStage::FindClaim(begun, desired)),
            )
            &&& begun.phase is ClaimCreated ==> (start matches Ok(
                PassStep::Ask(PassStage::Capture(kept, _)),
            ) && kept == begun)
            &&& begun.phase is WorkloadCaptured && begun.sandbox_claim is Some
                && begun.sandbox is Some && begun.pod is Some ==> (start matches Ok(
                PassStep::Ask(PassStage::ProveTarget(kept, purpose, _)),
            ) && kept == begun && purpose == Purpose::Canary)
            &&& begun.phase is CanaryPassed && begun.sandbox_claim is Some && begun.sandbox is Some
                && begun.pod is Some ==> (start matches Ok(
                PassStep::Ask(PassStage::ProveTarget(kept, purpose, _)),
            ) && kept == begun && purpose == Purpose::Fence)
            &&& (begun.phase is WorkloadCaptured || begun.phase is CanaryPassed) && (
            begun.sandbox_claim is None || begun.sandbox is None || begun.pod is None) ==> ends_in(
                start,
                SandboxPoolCertificationPhase::CleanupBlocked,
            )
            &&& begun.phase is FenceInstalled ==> start == Ok::<PassStep, String>(
                PassStep::Ask(PassStage::ReadScale(begun, Scale::Drain)),
            )
            &&& begun.phase is DrainAcknowledged ==> start == Ok::<PassStep, String>(
                PassStep::Ask(PassStage::AwaitDrain(begun)),
            )
            &&& begun.phase is ClaimDeleting ==> start == Ok::<PassStep, String>(
                PassStep::Ask(PassStage::FindDoomedClaim(begun)),
            )
            &&& begun.phase is AbsenceProven ==> match begun.sandbox_claim {
                Some(recorded) => start matches Ok(
                    PassStep::Ask(PassStage::ProveAbsence(kept, at, AbsenceQuery::Claim(name))),
                ) && kept == begun && at == 0 && name@ == recorded.name@,
                None => ends_in(start, SandboxPoolCertificationPhase::CleanupBlocked),
            }
            &&& begun.phase is Replenished ==> start == Ok::<PassStep, String>(
                PassStep::Ask(PassStage::AwaitReplenishment(begun)),
            )
            &&& begun.phase is FenceFinalizerRemoved ==> match start {
                Ok(PassStep::Ask(PassStage::SeekFence(kept, purpose, _))) => kept == begun
                    && purpose == FenceUse::Delete,
                Err(_) => begun.sandbox_claim is None && begun.sandbox is None,
                _ => false,
            }
            &&& begun.phase is FenceDeleting ==> match start {
                Ok(PassStep::Ask(PassStage::SeekFence(kept, purpose, _))) => kept == begun
                    && purpose == FenceUse::Confirm,
                Err(_) => begun.sandbox_claim is None && begun.sandbox is None,
                _ => false,
            }
            &&& begun.phase is Certified ==> moves_on(
                start,
                begun,
                SandboxPoolCertificationPhase::Certified,
                subject.ready,
                false,
                "Certified"@,
            )
            &&& begun.phase is CleanupBlocked ==> waits(
                start,
                begun,
                subject.ready,
                false,
                "CleanupBlocked"@,
            )
        },
{
    if claim is Ok {
        let chosen = choose|chosen: attempt::Attempt| #[trigger]
            attempt::pass_begins(Some(begun), fresh, subject.ready, chosen)
                && pass::attempt_goes_on(subject, chosen, claim, start);
        assert(attempt::begins(chosen, begun, subject.ready));
    }
}

/// An attempt is for another pool than the one that is there exactly where the
/// fingerprint, the generation, or the name or UID of the template or the warm pool
/// are not the same.
pub proof fn law_drift_is_a_changed_identity(
    status: SandboxPoolCertificationStatus,
    fresh: SandboxPoolCertificationStatus,
)
    ensures
        !attempt::drifted(status, fresh) <==> status.fingerprint@ == fresh.fingerprint@
            && status.observed_generation == fresh.observed_generation
            && status.sandbox_template.name@ == fresh.sandbox_template.name@
            && status.sandbox_template.uid@ == fresh.sandbox_template.uid@
            && status.sandbox_warm_pool.name@ == fresh.sandbox_warm_pool.name@
            && status.sandbox_warm_pool.uid@ == fresh.sandbox_warm_pool.uid@,
{
}

/// A pass over a pool that has changed begins anew, unless the old attempt is not
/// certified and has a claim, a sandbox or a fence: then it is kept and blocked. A
/// pool without an attempt begins one.
pub proof fn law_a_changed_pool_begins_anew(
    subject: pass::PassSubjectView,
    existing: Option<SandboxPoolCertificationStatus>,
    fresh: SandboxPoolCertificationStatus,
    claim: Result<DynamicObject, String>,
    start: Result<PassStep, String>,
)
    requires
        pass::begins_with(subject, existing, fresh, claim, start),
        existing matches Some(status) ==> attempt::drifted(status, fresh),
    ensures
        existing is None ==> waits(
            start,
            fresh,
            subject.ready,
            false,
            "CertificationInitialized"@,
        ),
        existing matches Some(status) ==> if !(status.phase is Certified) && (
        status.sandbox_claim is Some || status.sandbox is Some || status.teardown_fence is Some) {
            is_blocked(
                start,
                status,
                subject.ready,
                "Pool generation or exact upstream identity changed during certification; retained the old attempt for exact cleanup"@,
            )
        } else {
            waits(start, fresh, subject.ready, false, "CertificationRestarted"@)
        },
{
    let chosen = choose|chosen: attempt::Attempt| #[trigger]
        attempt::pass_begins(existing, fresh, subject.ready, chosen) && pass::attempt_goes_on(
            subject,
            chosen,
            claim,
            start,
        );
    assert(chosen is Finished);
}

} // verus!
