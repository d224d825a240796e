//! One certification attempt: what is recorded, and which records may follow
//! each other.

use crate::certification::identity::{
    self, dynamic_reference, validate_pool_object_identity,
};
use crate::certification::names::{
    SandboxPool, AGENT_SANDBOX_API_VERSION, REQUIRED_POOL_ACK_RELEASE, SANDBOX_TEMPLATE_KIND,
    SANDBOX_WARM_POOL_KIND,
};
use crate::certification::workload::{self, dynamic_status_count};
use crate::crd::sandbox::{self, SandboxPoolCertificationPhase, SandboxPoolCertificationStatus};
use crate::k8s::DynamicObject;
use crate::text::{self, concat, same_text};
use vstd::prelude::*;
use vstd::string::*;

verus! {

/// The exact number of live, structurally certified idle sandboxes.
#[derive(Debug, Clone, Copy, PartialEq, Eq, Structural)]
pub struct ManagementPoolCertification {
    pub ready: u32,
}

/// What one pass over a pool's certification came to. It survives a restart.
#[derive(Debug, Clone, PartialEq, Eq)]
pub struct ManagementPoolCertificationProgress {
    /// What is recorded from now on.
    pub status: SandboxPoolCertificationStatus,
    /// Idle sandboxes that are ready.
    pub ready: u32,
    /// Whether the pool is certified.
    pub certified: bool,
    /// Whether the pass wrote to the cluster.
    pub mutated: bool,
    pub reason: &'static str,
    pub message: String,
}

/// How far an attempt has come; a blocked one has left the path.
pub open spec fn rank(phase: SandboxPoolCertificationPhase) -> int {
    match phase {
        SandboxPoolCertificationPhase::Initialized => 0,
        SandboxPoolCertificationPhase::ClaimCreated => 1,
        SandboxPoolCertificationPhase::WorkloadCaptured => 2,
        SandboxPoolCertificationPhase::CanaryPassed => 3,
        SandboxPoolCertificationPhase::FenceInstalled => 4,
        SandboxPoolCertificationPhase::DrainAcknowledged => 5,
        SandboxPoolCertificationPhase::ClaimDeleting => 6,
        SandboxPoolCertificationPhase::AbsenceProven => 7,
        SandboxPoolCertificationPhase::Replenished => 8,
        SandboxPoolCertificationPhase::FenceFinalizerRemoved => 9,
        SandboxPoolCertificationPhase::FenceDeleting => 10,
        SandboxPoolCertificationPhase::Certified => 11,
        SandboxPoolCertificationPhase::CleanupBlocked => -1,
    }
}

/// Whether the record holds the evidence of every phase behind it, and none of
/// a phase ahead. A blocked attempt keeps whatever it had.
pub open spec fn checkpointed(status: SandboxPoolCertificationStatus) -> bool {
    let reached = rank(status.phase);
    status.phase is CleanupBlocked || {
        &&& status.sandbox_claim is Some <==> reached >= 1
        &&& status.sandbox is Some <==> reached >= 2
        &&& status.pod is Some <==> reached >= 2
        &&& status.service is Some ==> reached >= 2
        &&& status.persistent_volume_claims@.len() > 0 ==> reached >= 2
        &&& status.persistent_volumes@.len() > 0 ==> reached >= 2
        &&& status.canary_passed_at is Some <==> reached >= 3
        &&& status.teardown_fence is Some ==> reached >= 3
        &&& reached >= 4 ==> status.teardown_fence is Some
        &&& status.drain_generation is Some <==> reached >= 5
        &&& status.replenish_generation is Some <==> reached >= 8
        &&& status.certified_at is Some <==> reached >= 11
    }
}

/// Whether what was recorded stays recorded: identities and evidence of an
/// attempt never change once they are there.
pub open spec fn evidence_kept(
    before: SandboxPoolCertificationStatus,
    after: SandboxPoolCertificationStatus,
) -> bool {
    &&& after.fingerprint == before.fingerprint
    &&& after.observed_generation == before.observed_generation
    &&& after.sandbox_template == before.sandbox_template
    &&& after.sandbox_warm_pool == before.sandbox_warm_pool
    &&& after.baseline_idle_sandbox_uids == before.baseline_idle_sandbox_uids
    &&& before.sandbox_claim is Some ==> after.sandbox_claim == before.sandbox_claim
    &&& before.sandbox is Some ==> after.sandbox == before.sandbox
    &&& before.pod is Some ==> after.pod == before.pod
    &&& before.service is Some ==> after.service == before.service
    &&& before.persistent_volume_claims@.len() > 0 ==> after.persistent_volume_claims
        == before.persistent_volume_claims
    &&& before.persistent_volumes@.len() > 0 ==> after.persistent_volumes
        == before.persistent_volumes
    &&& before.canary_passed_at is Some ==> after.canary_passed_at == before.canary_passed_at
    &&& before.drain_generation is Some ==> after.drain_generation == before.drain_generation
    &&& before.replenish_generation is Some ==> after.replenish_generation
        == before.replenish_generation
    &&& before.certified_at is Some ==> after.certified_at == before.certified_at
}

/// Whether the recorded fence stays the recorded fence.
pub open spec fn fence_kept(
    before: SandboxPoolCertificationStatus,
    after: SandboxPoolCertificationStatus,
) -> bool {
    before.teardown_fence is Some ==> after.teardown_fence == before.teardown_fence
}

/// Whether one pass may lead from one phase to the other: it stays, takes one
/// step, or is blocked for good.
pub open spec fn phase_follows(
    before: SandboxPoolCertificationPhase,
    after: SandboxPoolCertificationPhase,
) -> bool {
    ||| after == before
    ||| after is CleanupBlocked
    ||| !(before is CleanupBlocked) && rank(after) == rank(before) + 1
}

/// Whether one record may follow another within an attempt.
pub open spec fn follows(
    before: SandboxPoolCertificationStatus,
    after: SandboxPoolCertificationStatus,
) -> bool {
    &&& phase_follows(before.phase, after.phase)
    &&& checkpointed(before) ==> checkpointed(after) && evidence_kept(before, after)
}

/// Whether a pass reports this.
pub open spec fn reports(
    progress: ManagementPoolCertificationProgress,
    ready: u32,
    certified: bool,
    mutated: bool,
    reason: Seq<char>,
    message: Seq<char>,
) -> bool {
    &&& progress.ready == ready
    &&& progress.certified == certified
    &&& progress.mutated == mutated
    &&& progress.reason@ == reason
    &&& progress.message@ == message
}

/// Whether a pass left the record as it was.
pub open spec fn stays(
    progress: ManagementPoolCertificationProgress,
    status: SandboxPoolCertificationStatus,
    ready: u32,
    mutated: bool,
    reason: Seq<char>,
    message: Seq<char>,
) -> bool {
    progress.status == status && reports(progress, ready, false, mutated, reason, message)
}

/// Whether a pass recorded `next`, without a message.
pub open spec fn records(
    progress: ManagementPoolCertificationProgress,
    next: SandboxPoolCertificationStatus,
    phase: SandboxPoolCertificationPhase,
    ready: u32,
    mutated: bool,
    reason: Seq<char>,
    message: Seq<char>,
) -> bool {
    progress.status == (SandboxPoolCertificationStatus { phase, message: None, ..next })
        && reports(progress, ready, phase is Certified, mutated, reason, message)
}

/// Whether a pass blocked the attempt, and kept all that was recorded.
pub open spec fn blocks(
    progress: ManagementPoolCertificationProgress,
    status: SandboxPoolCertificationStatus,
    ready: u32,
    message: Seq<char>,
) -> bool {
    &&& progress.status == (SandboxPoolCertificationStatus {
        phase: SandboxPoolCertificationPhase::CleanupBlocked,
        message: progress.status.message,
        ..status
    })
    &&& text::opt_text(progress.status.message) == Some(message)
    &&& reports(progress, ready, false, false, "CleanupBlocked"@, message)
}

/// What one pass came to.
pub fn progress(
    status: SandboxPoolCertificationStatus,
    ready: u32,
    certified: bool,
    mutated: bool,
    reason: &'static str,
    message: String,
) -> (progress: ManagementPoolCertificationProgress)
    ensures
        progress.status == status,
        reports(progress, ready, certified, mutated, reason@, message@),
{
    ManagementPoolCertificationProgress { status, ready, certified, mutated, reason, message }
}

/// A pass that leaves the record as it is.
pub fn stay(
    status: SandboxPoolCertificationStatus,
    ready: u32,
    mutated: bool,
    reason: &'static str,
    message: &str,
) -> (result: ManagementPoolCertificationProgress)
    ensures
        stays(result, status, ready, mutated, reason@, message@),
        follows(status, result.status),
        fence_kept(status, result.status),
{
    progress(status, ready, false, mutated, reason, message.to_owned())
}

/// A pass that records its phase and clears the message.
pub fn record(
    status: SandboxPoolCertificationStatus,
    phase: SandboxPoolCertificationPhase,
    ready: u32,
    mutated: bool,
    reason: &'static str,
    message: &str,
) -> (result: ManagementPoolCertificationProgress)
    ensures
        records(result, status, phase, ready, mutated, reason@, message@),
{
    let certified = match phase {
        SandboxPoolCertificationPhase::Certified => true,
        _ => false,
    };
    let mut status = status;
    status.phase = phase;
    status.message = None;
    progress(status, ready, certified, mutated, reason, message.to_owned())
}

/// Blocks an attempt. Every reference is kept, for exact cleanup.
pub fn cleanup_blocked(
    status: SandboxPoolCertificationStatus,
    ready: u32,
    message: &str,
) -> (result: ManagementPoolCertificationProgress)
    ensures
        blocks(result, status, ready, message@),
        follows(status, result.status),
        fence_kept(status, result.status),
{
    let mut status = status;
    status.phase = SandboxPoolCertificationPhase::CleanupBlocked;
    status.message = Some(message.to_owned());
    progress(status, ready, false, false, "CleanupBlocked", message.to_owned())
}

/// What is wrong with the upstream release: only one acknowledges generations.
pub open spec fn release_error(release: Seq<char>) -> Option<Seq<char>> {
    if release == REQUIRED_POOL_ACK_RELEASE@ {
        None
    } else {
        Some(
            "durable pool certification requires Agent Sandbox "@ + REQUIRED_POOL_ACK_RELEASE@
                + " for SandboxWarmPool.status.observedGeneration; this build pins "@ + release,
        )
    }
}

/// Refuses an upstream release that does not acknowledge generations.
pub fn check_release(release: &str) -> (result: Result<(), String>)
    ensures
        text::reported(result) == release_error(release@),
{
    if same_text(release, REQUIRED_POOL_ACK_RELEASE) {
        return Ok(());
    }
    let mut message = concat(
        "durable pool certification requires Agent Sandbox ",
        REQUIRED_POOL_ACK_RELEASE,
    );
    message.append(" for SandboxWarmPool.status.observedGeneration; this build pins ");
    message.append(release);
    Err(message)
}

/// Whether the pool is in teardown, so that only identities can be proven, not
/// the population.
pub open spec fn in_teardown(phase: SandboxPoolCertificationPhase) -> bool {
    4 <= rank(phase) <= 10 || phase is CleanupBlocked
}

/// Whether the pool is in teardown, so that only identities can be proven, not
/// the population.
pub fn reduced_validation(existing: &Option<SandboxPoolCertificationStatus>) -> (reduced: bool)
    ensures
        reduced == (existing matches Some(status) && in_teardown(status.phase)),
{
    match existing {
        Some(status) => match status.phase {
            SandboxPoolCertificationPhase::FenceInstalled
            | SandboxPoolCertificationPhase::DrainAcknowledged
            | SandboxPoolCertificationPhase::ClaimDeleting
            | SandboxPoolCertificationPhase::AbsenceProven
            | SandboxPoolCertificationPhase::Replenished
            | SandboxPoolCertificationPhase::FenceFinalizerRemoved
            | SandboxPoolCertificationPhase::FenceDeleting
            | SandboxPoolCertificationPhase::CleanupBlocked => true,
            _ => false,
        },
        None => false,
    }
}

/// How many idle sandboxes are ready while the pool is in teardown, or why its
/// objects are not the recorded ones. The warm pool's generation moves during
/// teardown, so only its identity counts.
pub open spec fn teardown_population(
    pool: SandboxPool,
    namespace: Seq<char>,
    template: DynamicObject,
    warm_pool: DynamicObject,
    status: SandboxPoolCertificationStatus,
) -> Result<int, Seq<char>> {
    let recorded = sandbox::ReferenceView { generation: None, ..status.sandbox_warm_pool@ };
    match (
        identity::pool_object_identity(
            pool.metadata@,
            namespace,
            template.metadata@,
            SANDBOX_TEMPLATE_KIND@,
            Some(status.sandbox_template@),
        ),
        identity::pool_object_identity(
            pool.metadata@,
            namespace,
            warm_pool.metadata@,
            SANDBOX_WARM_POOL_KIND@,
            Some(recorded),
        ),
    ) {
        (Err(error), _) => Err(error),
        (_, Err(error)) => Err(error),
        (Ok(_), Ok(_)) => match workload::status_integer(
            warm_pool.data@,
            "readyReplicas"@,
            0,
            u32::MAX as int,
        ) {
            Some(count) => Ok(count),
            None => Ok(0),
        },
    }
}

/// What a result that holds a count says.
pub open spec fn count_outcome(result: Result<u32, String>) -> Result<int, Seq<char>> {
    match result {
        Ok(count) => Ok(count as int),
        Err(error) => Err(error@),
    }
}

/// Proves the identities of a pool in teardown, and gives the number of its
/// ready idle sandboxes.
pub fn validate_teardown_population(
    pool: &SandboxPool,
    namespace: &str,
    template: &DynamicObject,
    warm_pool: &DynamicObject,
    status: &SandboxPoolCertificationStatus,
) -> (result: Result<u32, String>)
    ensures
        count_outcome(result) == teardown_population(
            *pool,
            namespace@,
            *template,
            *warm_pool,
            *status,
        ),
{
    match validate_pool_object_identity(
        pool,
        namespace,
        template,
        SANDBOX_TEMPLATE_KIND,
        Some(&status.sandbox_template),
    ) {
        Ok(_) => {},
        Err(error) => {
            return Err(error);
        },
    }
    let mut identity = status.sandbox_warm_pool.duplicate();
    identity.generation = None;
    match validate_pool_object_identity(
        pool,
        namespace,
        warm_pool,
        SANDBOX_WARM_POOL_KIND,
        Some(&identity),
    ) {
        Ok(_) => {},
        Err(error) => {
            return Err(error);
        },
    }
    match dynamic_status_count(warm_pool, "readyReplicas") {
        Some(count) => Ok(count),
        None => Ok(0),
    }
}

/// Why an attempt cannot begin.
pub open spec fn initial_error(
    pool: SandboxPool,
    template: DynamicObject,
    warm_pool: DynamicObject,
) -> Option<Seq<char>> {
    if pool.metadata.generation is None {
        Some("SandboxPool generation is missing"@)
    } else {
        match (
            identity::reference_to(
                template.metadata@,
                AGENT_SANDBOX_API_VERSION@,
                SANDBOX_TEMPLATE_KIND@,
            ),
            identity::reference_to(
                warm_pool.metadata@,
                AGENT_SANDBOX_API_VERSION@,
                SANDBOX_WARM_POOL_KIND@,
            ),
        ) {
            (Err(error), _) => Some(error),
            (_, Err(error)) => Some(error),
            _ => None,
        }
    }
}

/// Whether a record is that of an attempt that has just begun.
pub open spec fn just_begun(
    status: SandboxPoolCertificationStatus,
    pool: SandboxPool,
    template: DynamicObject,
    warm_pool: DynamicObject,
) -> bool {
    &&& pool.metadata.generation == Some(status.observed_generation)
    &&& status.phase is Initialized
    &&& identity::reference_to(
        template.metadata@,
        AGENT_SANDBOX_API_VERSION@,
        SANDBOX_TEMPLATE_KIND@,
    ) == Ok::<sandbox::ReferenceView, Seq<char>>(status.sandbox_template@)
    &&& identity::reference_to(
        warm_pool.metadata@,
        AGENT_SANDBOX_API_VERSION@,
        SANDBOX_WARM_POOL_KIND@,
    ) == Ok::<sandbox::ReferenceView, Seq<char>>(status.sandbox_warm_pool@)
    &&& status.sandbox_claim is None
    &&& status.sandbox is None
    &&& status.pod is None
    &&& status.service is None
    &&& status.persistent_volume_claims@.len() == 0
    &&& status.persistent_volumes@.len() == 0
    &&& status.teardown_fence is None
    &&& status.drain_generation is None
    &&& status.replenish_generation is None
    &&& status.canary_passed_at is None
    &&& status.certified_at is None
    &&& status.message is None
}

/// The record of an attempt that begins with this fingerprint and this idle
/// population.
pub fn initialized_status(
    pool: &SandboxPool,
    template: &DynamicObject,
    warm_pool: &DynamicObject,
    fingerprint: String,
    baseline_idle_sandbox_uids: Vec<String>,
) -> (result: Result<SandboxPoolCertificationStatus, String>)
    ensures
        match result {
            Ok(status) => {
                &&& initial_error(*pool, *template, *warm_pool) is None
                &&& just_begun(status, *pool, *template, *warm_pool)
                &&& status.fingerprint == fingerprint
                &&& status.baseline_idle_sandbox_uids == baseline_idle_sandbox_uids
                &&& checkpointed(status)
            },
            Err(error) => initial_error(*pool, *template, *warm_pool) == Some(error@),
        },
{
    let observed_generation: i64 = match pool.metadata.generation {
        Some(generation) => generation,
        None => {
            return Err("SandboxPool generation is missing".to_owned());
        },
    };
    let sandbox_template = match dynamic_reference(
        template,
        AGENT_SANDBOX_API_VERSION,
        SANDBOX_TEMPLATE_KIND,
    ) {
        Ok(reference) => reference,
        Err(error) => {
            return Err(error);
        },
    };
    let sandbox_warm_pool = match dynamic_reference(
        warm_pool,
        AGENT_SANDBOX_API_VERSION,
        SANDBOX_WARM_POOL_KIND,
    ) {
        Ok(reference) => reference,
        Err(error) => {
            return Err(error);
        },
    };
    Ok(
        SandboxPoolCertificationStatus {
            fingerprint,
            observed_generation,
            phase: SandboxPoolCertificationPhase::Initialized,
            sandbox_template,
            sandbox_warm_pool,
            sandbox_claim: None,
            sandbox: None,
            pod: None,
            service: None,
            persistent_volume_claims: Vec::new(),
            persistent_volumes: Vec::new(),
            teardown_fence: None,
            baseline_idle_sandbox_uids,
            drain_generation: None,
            replenish_generation: None,
            canary_passed_at: None,
            certified_at: None,
            message: None,
        },
    )
}

/// Whether an attempt still has something to clean up.
pub open spec fn live_cleanup(status: SandboxPoolCertificationStatus) -> bool {
    !(status.phase is Certified) && (status.sandbox_claim is Some || status.sandbox is Some
        || status.teardown_fence is Some)
}

/// Whether an attempt still has something to clean up.
pub fn attempt_has_live_cleanup(status: &SandboxPoolCertificationStatus) -> (live: bool)
    ensures
        live == live_cleanup(*status),
{
    let certified = match status.phase {
        SandboxPoolCertificationPhase::Certified => true,
        _ => false,
    };
    !certified && (status.sandbox_claim.is_some() || status.sandbox.is_some()
        || status.teardown_fence.is_some())
}

/// Whether a recorded attempt certifies something else than what there is now.
pub open spec fn drifted(
    status: SandboxPoolCertificationStatus,
    fresh: SandboxPoolCertificationStatus,
) -> bool {
    ||| status.fingerprint@ != fresh.fingerprint@
    ||| status.observed_generation != fresh.observed_generation
    ||| status.sandbox_template.uid@ != fresh.sandbox_template.uid@
    ||| status.sandbox_template.name@ != fresh.sandbox_template.name@
    ||| status.sandbox_warm_pool.uid@ != fresh.sandbox_warm_pool.uid@
    ||| status.sandbox_warm_pool.name@ != fresh.sandbox_warm_pool.name@
}

/// Whether the pool is no longer the one that the attempt certifies.
pub fn has_drifted(
    status: &SandboxPoolCertificationStatus,
    fresh: &SandboxPoolCertificationStatus,
) -> (result: bool)
    ensures
        result == drifted(*status, *fresh),
{
    !same_text(status.fingerprint.as_str(), fresh.fingerprint.as_str())
        || status.observed_generation != fresh.observed_generation || !same_text(
        status.sandbox_template.uid.as_str(),
        fresh.sandbox_template.uid.as_str(),
    ) || !same_text(
        status.sandbox_template.name.as_str(),
        fresh.sandbox_template.name.as_str(),
    ) || !same_text(
        status.sandbox_warm_pool.uid.as_str(),
        fresh.sandbox_warm_pool.uid.as_str(),
    ) || !same_text(
        status.sandbox_warm_pool.name.as_str(),
        fresh.sandbox_warm_pool.name.as_str(),
    )
}

/// What a pass over a pool's certification does first.
#[derive(Debug, Clone, PartialEq, Eq)]
pub enum Attempt {
    /// Nothing more: this is what it came to.
    Finished(ManagementPoolCertificationProgress),
    /// Looks for the deterministic claim.
    FindClaim(SandboxPoolCertificationStatus),
    /// Waits for the recorded claim's workload and captures it.
    CaptureWorkload(SandboxPoolCertificationStatus),
    /// Proves the captured workload again and runs the canary in it.
    RunCanary(SandboxPoolCertificationStatus),
    /// Proves the captured workload again and installs the fence.
    InstallFence(SandboxPoolCertificationStatus),
    /// Scales the warm pool to zero.
    Drain(SandboxPoolCertificationStatus),
    /// Waits until the drain is acknowledged.
    AwaitDrain(SandboxPoolCertificationStatus),
    /// Deletes the claim until it is gone.
    DeleteClaim(SandboxPoolCertificationStatus),
    /// Proves the workload's absence and restores capacity.
    RestoreCapacity(SandboxPoolCertificationStatus),
    /// Waits for fresh capacity and releases the fence.
    ReleaseFence(SandboxPoolCertificationStatus),
    /// Deletes the released fence.
    DeleteFence(SandboxPoolCertificationStatus),
    /// Waits until the fence is gone.
    ConfirmFence(SandboxPoolCertificationStatus),
}

/// Whether a pass begins as the recorded phase asks.
pub open spec fn begins(
    attempt: Attempt,
    status: SandboxPoolCertificationStatus,
    ready: u32,
) -> bool {
    match status.phase {
        SandboxPoolCertificationPhase::Initialized => attempt == Attempt::FindClaim(status),
        SandboxPoolCertificationPhase::ClaimCreated => attempt == Attempt::CaptureWorkload(status),
        SandboxPoolCertificationPhase::WorkloadCaptured => attempt == Attempt::RunCanary(status),
        SandboxPoolCertificationPhase::CanaryPassed => attempt == Attempt::InstallFence(status),
        SandboxPoolCertificationPhase::FenceInstalled => attempt == Attempt::Drain(status),
        SandboxPoolCertificationPhase::DrainAcknowledged => attempt == Attempt::AwaitDrain(status),
        SandboxPoolCertificationPhase::ClaimDeleting => attempt == Attempt::DeleteClaim(status),
        SandboxPoolCertificationPhase::AbsenceProven => attempt == Attempt::RestoreCapacity(status),
        SandboxPoolCertificationPhase::Replenished => attempt == Attempt::ReleaseFence(status),
        SandboxPoolCertificationPhase::FenceFinalizerRemoved => attempt == Attempt::DeleteFence(
            status,
        ),
        SandboxPoolCertificationPhase::FenceDeleting => attempt == Attempt::ConfirmFence(status),
        SandboxPoolCertificationPhase::Certified => attempt matches Attempt::Finished(progress)
            && records(
            progress,
            status,
            status.phase,
            ready,
            false,
            "Certified"@,
            "current-generation exact pool certification receipt is valid"@,
        ),
        SandboxPoolCertificationPhase::CleanupBlocked => attempt matches Attempt::Finished(progress)
            && stays(
            progress,
            status,
            ready,
            false,
            "CleanupBlocked"@,
            match text::opt_text(status.message) {
                Some(message) => message,
                None => "certification cleanup is blocked"@,
            },
        ),
    }
}

/// Whether a pass begins as the recorded attempt asks.
pub open spec fn pass_begins(
    existing: Option<SandboxPoolCertificationStatus>,
    fresh: SandboxPoolCertificationStatus,
    ready: u32,
    attempt: Attempt,
) -> bool {
    match existing {
        None => attempt matches Attempt::Finished(progress) && stays(
            progress,
            fresh,
            ready,
            false,
            "CertificationInitialized"@,
            "checkpointed exact Template/WarmPool identity before creating the certification Claim"@,
        ),
        Some(status) => if !drifted(status, fresh) {
            begins(attempt, status, ready)
        } else if live_cleanup(status) {
            attempt matches Attempt::Finished(progress) && blocks(
                progress,
                status,
                ready,
                "Pool generation or exact upstream identity changed during certification; retained the old attempt for exact cleanup"@,
            )
        } else {
            attempt matches Attempt::Finished(progress) && stays(
                progress,
                fresh,
                ready,
                false,
                "CertificationRestarted"@,
                "restarted certification from the current exact Pool generation"@,
            )
        },
    }
}

/// Begins one pass over a pool's certification, which takes at most one durable
/// step. `fresh` is the record that an attempt would begin with now. An attempt
/// that has something to clean up is never given up for a fresh one.
pub fn reconcile_management_pool_certification(
    existing: Option<SandboxPoolCertificationStatus>,
    fresh: SandboxPoolCertificationStatus,
    ready: u32,
) -> (attempt: Attempt)
    ensures
        pass_begins(existing, fresh, ready, attempt),
{
    let status = match existing {
        Some(status) => status,
        None => {
            return Attempt::Finished(
                stay(
                    fresh,
                    ready,
                    false,
                    "CertificationInitialized",
                    "checkpointed exact Template/WarmPool identity before creating the certification Claim",
                ),
            );
        },
    };
    if has_drifted(&status, &fresh) {
        if attempt_has_live_cleanup(&status) {
            return Attempt::Finished(
                cleanup_blocked(
                    status,
                    ready,
                    "Pool generation or exact upstream identity changed during certification; retained the old attempt for exact cleanup",
                ),
            );
        }
        return Attempt::Finished(
            stay(
                fresh,
                ready,
                false,
                "CertificationRestarted",
                "restarted certification from the current exact Pool generation",
            ),
        );
    }
    match status.phase {
        SandboxPoolCertificationPhase::Initialized => Attempt::FindClaim(status),
        SandboxPoolCertificationPhase::ClaimCreated => Attempt::CaptureWorkload(status),
        SandboxPoolCertificationPhase::WorkloadCaptured => Attempt::RunCanary(status),
        SandboxPoolCertificationPhase::CanaryPassed => Attempt::InstallFence(status),
        SandboxPoolCertificationPhase::FenceInstalled => Attempt::Drain(status),
        SandboxPoolCertificationPhase::DrainAcknowledged => Attempt::AwaitDrain(status),
        SandboxPoolCertificationPhase::ClaimDeleting => Attempt::DeleteClaim(status),
        SandboxPoolCertificationPhase::AbsenceProven => Attempt::RestoreCapacity(status),
        SandboxPoolCertificationPhase::Replenished => Attempt::ReleaseFence(status),
        SandboxPoolCertificationPhase::FenceFinalizerRemoved => Attempt::DeleteFence(status),
        SandboxPoolCertificationPhase::FenceDeleting => Attempt::ConfirmFence(status),
        SandboxPoolCertificationPhase::Certified => Attempt::Finished(
            record(
                status,
                SandboxPoolCertificationPhase::Certified,
                ready,
                false,
                "Certified",
                "current-generation exact pool certification receipt is valid",
            ),
        ),
        SandboxPoolCertificationPhase::CleanupBlocked => {
            let message = match &status.message {
                Some(message) => message.clone(),
                None => "certification cleanup is blocked".to_owned(),
            };
            Attempt::Finished(stay(status, ready, false, "CleanupBlocked", message.as_str()))
        },
    }
}

/// An attempt that is given up for a fresh one has nothing left to clean up: it
/// is complete, or it never got a claim, a sandbox or a fence.
pub proof fn law_active_attempt_is_never_abandoned(status: SandboxPoolCertificationStatus)
    requires
        checkpointed(status),
        !live_cleanup(status),
    ensures
        status.phase is Certified || ((status.phase is Initialized
            || status.phase is CleanupBlocked) && status.sandbox_claim is None
            && status.sandbox is None && status.teardown_fence is None),
{
}

/// What the phases promise: from the captured workload on there are a claim, a
/// sandbox and a Pod; from the passed canary on its time; from the installed
/// fence on the fence; from the acknowledged drain and the restored capacity on
/// their generations; and a certificate has its time.
pub proof fn law_phases_hold_their_evidence(status: SandboxPoolCertificationStatus)
    requires
        checkpointed(status),
        !(status.phase is CleanupBlocked),
    ensures
        rank(status.phase) >= 2 ==> status.sandbox_claim is Some && status.sandbox is Some
            && status.pod is Some,
        rank(status.phase) >= 3 ==> status.canary_passed_at is Some,
        rank(status.phase) >= 4 ==> status.teardown_fence is Some,
        rank(status.phase) >= 5 ==> status.drain_generation is Some,
        rank(status.phase) >= 8 ==> status.replenish_generation is Some,
        status.phase is Certified ==> status.certified_at is Some,
{
}

/// A blocked attempt stays blocked: no record of the same attempt follows it in
/// another phase.
pub proof fn law_blocked_stays_blocked(
    before: SandboxPoolCertificationStatus,
    after: SandboxPoolCertificationStatus,
)
    requires
        follows(before, after),
        before.phase is CleanupBlocked,
    ensures
        after.phase is CleanupBlocked,
        evidence_kept(before, after),
{
}

/// Whether each record of a history may follow the one before it.
pub open spec fn history(records: Seq<SandboxPoolCertificationStatus>) -> bool {
    &&& records.len() > 0
    &&& checkpointed(records[0])
    &&& forall|i: int, j: int|
        0 <= i && j == i + 1 && j < records.len() ==> follows(
            #[trigger] records[i],
            #[trigger] records[j],
        )
}

/// Within one attempt nothing that was recorded ever changes, however many
/// passes lie between, and no phase is skipped or taken back.
pub proof fn law_history_keeps_its_evidence(
    records: Seq<SandboxPoolCertificationStatus>,
    from: int,
    to: int,
)
    requires
        history(records),
        0 <= from <= to < records.len(),
    ensures
        checkpointed(records[from]),
        evidence_kept(records[from], records[to]),
        records[to].phase is CleanupBlocked || (rank(records[from].phase) <= rank(
            records[to].phase,
        ) <= rank(records[from].phase) + (to - from) && !(records[from].phase is CleanupBlocked)),
    decreases to,
{
    if from > 0 {
        law_history_keeps_its_evidence(records, 0, from - 1);
        law_history_keeps_its_evidence(records, from - 1, from - 1);
        assert(follows(records[from - 1], records[from]));
    }
    if from < to {
        law_history_keeps_its_evidence(records, from, to - 1);
        law_history_keeps_its_evidence(records, to - 1, to - 1);
        assert(follows(records[to - 1], records[to]));
    }
}

} // verus!
