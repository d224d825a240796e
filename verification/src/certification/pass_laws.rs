//! What one pass over a pool's certification comes to, whatever is answered.

use crate::certification::attempt::{self, Attempt, ManagementPoolCertificationProgress};
use crate::certification::capacity;
use crate::certification::capture;
use crate::certification::fingerprint;
use crate::certification::opening;
use crate::certification::pass::{self, FenceUse, PassAnswer, PassStage, PassStep, Purpose, Scale};
use crate::certification::steps;
use crate::crd::sandbox::SandboxPoolCertificationStatus;
use crate::k8s::DynamicObject;
use vstd::prelude::*;

verus! {

/// One turn of a pass: what was asked or written, what was answered, and what
/// that led to.
pub struct PassTurn {
    pub stage: PassStage,
    pub answer: PassAnswer,
    pub result: Result<PassStep, String>,
}

/// Whether these turns run from a start to an outcome, each from what the one
/// before led to. Without turns the start is the outcome.
pub open spec fn runs(
    subject: pass::PassSubjectView,
    start: Result<PassStep, String>,
    turns: Seq<PassTurn>,
    outcome: Result<ManagementPoolCertificationProgress, String>,
) -> bool {
    &&& forall|i: int|
        0 <= i < turns.len() ==> {
            &&& (#[trigger] turns[i]).stage.is_answered_by(turns[i].answer)
            &&& pass::leads_to(subject, turns[i].stage, turns[i].answer, turns[i].result)
            &&& (if i == 0 {
                start
            } else {
                turns[i - 1].result
            }) == Ok::<PassStep, String>(PassStep::Ask(turns[i].stage))
        }
    &&& pass::ending(
        if turns.len() == 0 {
            start
        } else {
            turns.last().result
        },
    ) == Some(outcome)
}

/// Whether these turns are a whole pass, from how it begins to how it ends.
#[verifier::opaque]
pub open spec fn is_pass(
    subject: pass::PassSubjectView,
    existing: Option<SandboxPoolCertificationStatus>,
    fresh: SandboxPoolCertificationStatus,
    claim: Result<DynamicObject, String>,
    start: Result<PassStep, String>,
    turns: Seq<PassTurn>,
    outcome: Result<ManagementPoolCertificationProgress, String>,
) -> bool {
    &&& pass::begins_with(subject, existing, fresh, claim, start)
    &&& runs(subject, start, turns, outcome)
}

/// Whether the record at a stage is the one that the pass began with, in the
/// phase that leads to the stage; while a workload is captured or a fence is
/// probed, with what was found on top of it.
spec fn rests_on(stage: PassStage, begun: SandboxPoolCertificationStatus) -> bool {
    match stage {
        PassStage::FindClaim(status, _) => status == begun && begun.phase is Initialized,
        PassStage::CreateClaim(status, _) => status == begun && begun.phase is Initialized,
        PassStage::Capture(status, stage) => capture::rests_on(stage, status, begun)
            && begun.phase is ClaimCreated,
        PassStage::ProveTarget(status, purpose, _) => status == begun && match purpose {
            Purpose::Canary => begun.phase is WorkloadCaptured,
            Purpose::Fence => begun.phase is CanaryPassed,
        },
        PassStage::RunCanary(status, _) => status == begun && begun.phase is WorkloadCaptured,
        PassStage::SeekFence(status, purpose, _) => status == begun && match purpose {
            FenceUse::Install => begun.phase is CanaryPassed,
            FenceUse::Release => begun.phase is Replenished,
            FenceUse::Delete => begun.phase is FenceFinalizerRemoved,
            FenceUse::Confirm => begun.phase is FenceDeleting,
        },
        PassStage::CreateFence(status, _) => status == begun && begun.phase is CanaryPassed,
        PassStage::ProbeFence(fenced, _) => steps::fenced_on_top_of(fenced, begun)
            && begun.phase is CanaryPassed,
        PassStage::ReadScale(status, scale) => status == begun && match scale {
            Scale::Drain => begun.phase is FenceInstalled,
            Scale::Restore => begun.phase is AbsenceProven,
        },
        PassStage::WriteScale(status, scale, _) => status == begun && match scale {
            Scale::Drain => begun.phase is FenceInstalled,
            Scale::Restore => begun.phase is AbsenceProven,
        },
        PassStage::AwaitDrain(status) => status == begun && begun.phase is DrainAcknowledged,
        PassStage::FindDoomedClaim(status) => status == begun && begun.phase is ClaimDeleting,
        PassStage::DeleteClaim(status, _, _) => status == begun && begun.phase is ClaimDeleting,
        PassStage::ProveAbsence(status, _, _) => status == begun && begun.phase is AbsenceProven,
        PassStage::AwaitReplenishment(status) => status == begun && begun.phase is Replenished,
        PassStage::ListReplenished(status, _) => status == begun && begun.phase is Replenished,
        PassStage::ReleaseFence(status, _, _) => status == begun && begun.phase is Replenished,
        PassStage::DeleteFence(status, _, _, _) => status == begun
            && begun.phase is FenceFinalizerRemoved,
    }
}

/// Whether a pass ends as it may: certified in the certified phase alone, and with
/// a record that follows the one that it began with.
pub open spec fn ends_well(
    begun: SandboxPoolCertificationStatus,
    progress: ManagementPoolCertificationProgress,
) -> bool {
    &&& progress.certified <==> progress.status.phase is Certified
    &&& attempt::follows(begun, progress.status)
}

/// Whether a result leads on from a record: to a stage that rests on it, or to an
/// end that follows it.
spec fn leads_on(
    begun: SandboxPoolCertificationStatus,
    result: Result<PassStep, String>,
) -> bool {
    match result {
        Ok(PassStep::Ask(next)) => rests_on(next, begun),
        Ok(PassStep::Finished(progress)) => ends_well(begun, progress),
        Err(_) => true,
    }
}

proof fn lemma_turn(
    subject: pass::PassSubjectView,
    begun: SandboxPoolCertificationStatus,
    turn: PassTurn,
)
    requires
        turn.stage.is_answered_by(turn.answer),
        pass::leads_to(subject, turn.stage, turn.answer, turn.result),
        rests_on(turn.stage, begun),
    ensures
        leads_on(begun, turn.result),
        turn.stage.writes() ==> !(turn.result matches Ok(PassStep::Ask(_))),
{
    match (turn.stage, turn.answer) {
        (PassStage::Capture(status, stage), PassAnswer::Captured(answer)) => {
            let result = match turn.result {
                Ok(PassStep::Finished(progress)) => Ok(capture::CaptureStep::Finished(progress)),
                Ok(PassStep::Ask(PassStage::Capture(kept, next))) => Ok(
                    capture::CaptureStep::Ask(kept, next),
                ),
                Ok(_) => arbitrary(),
                Err(error) => Err(error),
            };
            capture::law_capture_goes_on_from_the_record(
                subject.validation,
                subject.namespace,
                begun,
                status,
                subject.ready,
                stage,
                answer,
                result,
            );
        },
        _ => {},
    }
}

proof fn lemma_start(
    subject: pass::PassSubjectView,
    begun: SandboxPoolCertificationStatus,
    fresh: SandboxPoolCertificationStatus,
    claim: Result<DynamicObject, String>,
    start: Result<PassStep, String>,
)
    requires
        pass::begins_with(subject, Some(begun), fresh, claim, start),
        !attempt::drifted(begun, fresh),
    ensures
        leads_on(begun, start),
        begun.phase is CleanupBlocked ==> (start matches Ok(step) ==> step matches PassStep::Finished(
            progress,
        ) && progress.status == begun),
        begun.phase is Certified ==> !(start matches Ok(PassStep::Ask(_))),
{
    if claim is Ok {
        let chosen = choose|chosen: Attempt| #[trigger]
            attempt::pass_begins(Some(begun), fresh, subject.ready, chosen)
                && pass::attempt_goes_on(subject, chosen, claim, start);
        assert(attempt::begins(chosen, begun, subject.ready));
    }
}

proof fn lemma_turns_rest_on(
    subject: pass::PassSubjectView,
    begun: SandboxPoolCertificationStatus,
    fresh: SandboxPoolCertificationStatus,
    claim: Result<DynamicObject, String>,
    start: Result<PassStep, String>,
    turns: Seq<PassTurn>,
    outcome: Result<ManagementPoolCertificationProgress, String>,
    at: int,
)
    requires
        is_pass(subject, Some(begun), fresh, claim, start, turns, outcome),
        !attempt::drifted(begun, fresh),
        0 <= at < turns.len(),
    ensures
        rests_on(turns[at].stage, begun),
        leads_on(begun, turns[at].result),
        turns[at].stage.writes() ==> !(turns[at].result matches Ok(PassStep::Ask(_))),
    decreases at,
{
    reveal(is_pass);
    if at == 0 {
        lemma_start(subject, begun, fresh, claim, start);
    } else {
        lemma_turns_rest_on(subject, begun, fresh, claim, start, turns, outcome, at - 1);
    }
    lemma_turn(subject, begun, turns[at]);
}

/// A pass over an attempt whose pool is the same as before takes at most one
/// step, whatever is answered. It reports the pool as certified exactly in the
/// certified phase. The phase stays, is the next one, or is blocked, and nothing
/// recorded is lost. At most one thing is written to the cluster, and nothing is
/// asked after it. A blocked attempt comes back as it was, and nothing is asked
/// for it.
pub proof fn law_pass_takes_at_most_one_step(
    subject: pass::PassSubjectView,
    begun: SandboxPoolCertificationStatus,
    fresh: SandboxPoolCertificationStatus,
    claim: Result<DynamicObject, String>,
    start: Result<PassStep, String>,
    turns: Seq<PassTurn>,
    outcome: Result<ManagementPoolCertificationProgress, String>,
)
    requires
        is_pass(subject, Some(begun), fresh, claim, start, turns, outcome),
        !attempt::drifted(begun, fresh),
    ensures
        outcome matches Ok(progress) ==> {
            &&& progress.certified <==> progress.status.phase is Certified
            &&& attempt::phase_follows(begun.phase, progress.status.phase)
            &&& attempt::follows(begun, progress.status)
            &&& begun.phase is CleanupBlocked ==> progress.status == begun
        },
        forall|i: int|
            0 <= i < turns.len() && (#[trigger] turns[i]).stage.writes() ==> i == turns.len() - 1,
        begun.phase is CleanupBlocked || begun.phase is Certified ==> turns.len() == 0,
{
    reveal(is_pass);
    lemma_start(subject, begun, fresh, claim, start);
    if turns.len() > 0 {
        let last = turns.len() - 1;
        assert(turns[0].stage.is_answered_by(turns[0].answer));
        lemma_turns_rest_on(subject, begun, fresh, claim, start, turns, outcome, last);
    }
    assert forall|i: int| 0 <= i < turns.len() && (#[trigger] turns[i]).stage.writes() implies i
        == turns.len() - 1 by {
        lemma_turns_rest_on(subject, begun, fresh, claim, start, turns, outcome, i);
        if i < turns.len() - 1 {
            assert(turns[i + 1].stage.is_answered_by(turns[i + 1].answer));
        }
    }
}

/// A pass over a pool without an attempt, or with one for a pool that has changed,
/// asks and writes nothing. It records a fresh attempt, unless the old one has
/// something to clean up: then that one is kept and blocked.
pub proof fn law_pass_over_a_changed_pool_writes_nothing(
    subject: pass::PassSubjectView,
    existing: Option<SandboxPoolCertificationStatus>,
    fresh: SandboxPoolCertificationStatus,
    claim: Result<DynamicObject, String>,
    start: Result<PassStep, String>,
    turns: Seq<PassTurn>,
    outcome: Result<ManagementPoolCertificationProgress, String>,
)
    requires
        is_pass(subject, existing, fresh, claim, start, turns, outcome),
        !pass::goes_on(existing, fresh),
        !(fresh.phase is Certified),
    ensures
        turns.len() == 0,
        outcome matches Ok(progress) && !progress.certified && !(
        progress.status.phase is Certified) && if existing matches Some(status)
            && attempt::live_cleanup(status) {
            progress.status.phase is CleanupBlocked && attempt::follows(
                existing->0,
                progress.status,
            )
        } else {
            progress.status == fresh
        },
{
    reveal(is_pass);
    let chosen = choose|chosen: Attempt| #[trigger]
        attempt::pass_begins(existing, fresh, subject.ready, chosen) && pass::attempt_goes_on(
            subject,
            chosen,
            claim,
            start,
        );
    assert(chosen is Finished);
    if turns.len() > 0 {
        assert(turns[0].stage.is_answered_by(turns[0].answer));
    }
}

proof fn lemma_certified_pass_goes_on(
    subject: pass::PassSubjectView,
    existing: Option<SandboxPoolCertificationStatus>,
    fresh: SandboxPoolCertificationStatus,
    claim: Result<DynamicObject, String>,
    start: Result<PassStep, String>,
    turns: Seq<PassTurn>,
    progress: ManagementPoolCertificationProgress,
)
    requires
        is_pass(subject, existing, fresh, claim, start, turns, Ok(progress)),
        fresh.phase is Initialized,
        progress.certified,
    ensures
        existing matches Some(begun) && {
            &&& !attempt::drifted(begun, fresh)
            &&& begun.phase is Certified || begun.phase is FenceDeleting
            &&& attempt::follows(begun, progress.status)
        },
{
    match existing {
        Some(begun) if !attempt::drifted(begun, fresh) => {
            law_pass_takes_at_most_one_step(
                subject,
                begun,
                fresh,
                claim,
                start,
                turns,
                Ok(progress),
            );
            assert(attempt::phase_follows(begun.phase, progress.status.phase));
        },
        _ => {
            law_pass_over_a_changed_pool_writes_nothing(
                subject,
                existing,
                fresh,
                claim,
                start,
                turns,
                Ok(progress),
            );
        },
    }
}

/// A start that fails is the outcome.
proof fn lemma_failed_start(
    subject: pass::PassSubjectView,
    start: Result<PassStep, String>,
    turns: Seq<PassTurn>,
    outcome: Result<ManagementPoolCertificationProgress, String>,
)
    requires
        runs(subject, start, turns, outcome),
        start is Err,
    ensures
        outcome is Err,
{
    if turns.len() > 0 {
        assert(turns[0].stage.is_answered_by(turns[0].answer));
    }
}

/// A pass that reports the pool as certified rests on an attempt on the pool as it
/// is now: of its generation, of its upstream objects and with the fingerprint of
/// its evidence. The attempt was certified already, or its fence was being
/// deleted.
pub proof fn law_certified_for_the_current_evidence_only(
    subject: pass::PassSubjectView,
    template: DynamicObject,
    warm_pool: DynamicObject,
    runtime_api_version: Seq<char>,
    existing: Option<SandboxPoolCertificationStatus>,
    baseline_idle_sandbox_uids: Vec<String>,
    start: Result<PassStep, String>,
    turns: Seq<PassTurn>,
    outcome: Result<ManagementPoolCertificationProgress, String>,
)
    requires
        opening::opens_with(
            subject,
            template,
            warm_pool,
            runtime_api_version,
            existing,
            baseline_idle_sandbox_uids,
            start,
        ),
        runs(subject, start, turns, outcome),
        outcome matches Ok(progress) && progress.certified,
    ensures
        existing matches Some(begun) && {
            &&& begun.phase is Certified || begun.phase is FenceDeleting
            &&& fingerprint::fingerprint(
                subject.validation.pool,
                template.metadata@,
                warm_pool.metadata@,
                runtime_api_version,
            ) == Ok::<Seq<char>, Seq<char>>(begun.fingerprint@)
            &&& subject.validation.pool.metadata.generation == Some(begun.observed_generation)
            &&& template.metadata@.uid == Some(begun.sandbox_template.uid@)
            &&& warm_pool.metadata@.uid == Some(begun.sandbox_warm_pool.uid@)
            &&& attempt::follows(begun, outcome->Ok_0.status)
        },
{
    let pool = subject.validation.pool;
    if start is Err {
        lemma_failed_start(subject, start, turns, outcome);
    }
    let print = fingerprint::fingerprint(
        pool,
        template.metadata@,
        warm_pool.metadata@,
        runtime_api_version,
    );
    let (fresh, claim) = choose|
        fresh: SandboxPoolCertificationStatus,
        claim: Result<DynamicObject, String>,
    | #[trigger]
        pass::begins_with(subject, existing, fresh, claim, start) && attempt::just_begun(
            fresh,
            pool,
            template,
            warm_pool,
        ) && fresh.fingerprint@ == print->Ok_0;
    reveal(is_pass);
    lemma_certified_pass_goes_on(
        subject,
        existing,
        fresh,
        claim,
        start,
        turns,
        outcome->Ok_0,
    );
}

/// A warm pool that is deleting, misplaced or replaced is never scaled and never
/// waited for: whichever look at the recorded warm pool finds it so, the pass ends
/// there and the attempt is blocked.
pub proof fn law_drifted_warm_pool_blocks(
    subject: pass::PassSubjectView,
    stage: PassStage,
    status: SandboxPoolCertificationStatus,
    found: DynamicObject,
    result: Result<PassStep, String>,
)
    requires
        stage == PassStage::ReadScale(status, Scale::Drain) || stage == PassStage::ReadScale(
            status,
            Scale::Restore,
        ) || stage == PassStage::AwaitDrain(status) || stage == PassStage::AwaitReplenishment(
            status,
        ),
        capacity::is_drifted(found, subject.namespace, status.sandbox_warm_pool@),
        pass::leads_to(subject, stage, PassAnswer::Object(Ok(found)), result),
    ensures
        result matches Ok(PassStep::Finished(progress)) && progress.status.phase is CleanupBlocked
            && !progress.certified && !progress.mutated && attempt::follows(
            status,
            progress.status,
        ),
{
}

} // verus!
