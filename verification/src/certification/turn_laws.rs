//! How a capture, a second proof and a census go on from each answer.

use crate::certification::captured;
use crate::certification::capture::CaptureStage;
use crate::certification::census::{self, CensusAnswer, CensusStageView, CensusStepView};
use crate::certification::identity;
use crate::certification::names;
use crate::certification::pass::{self, FenceUse, PassAnswer, PassStage, PassStep, Purpose};
use crate::certification::population::{self, ResolvedSandboxPod};
use crate::certification::revalidation::{self, CapturedAnswer, CapturedStageView, CapturedStepView};
use crate::certification::step_laws;
use crate::certification::storage;
use crate::certification::validation::{self, ClusterAnswer, IdleStepView, WorkloadStepView};
use crate::certification::workload;
use crate::crd::sandbox::{
    self, SandboxObjectReference, SandboxPoolCertificationPhase, SandboxPoolCertificationStatus,
};
use crate::k8s::{
    self, ApiError, DynamicObject, NetworkPolicy, Node, ObjectMeta, PersistentVolume, Pod, PodSpec,
    Service,
};
use crate::text;
use vstd::prelude::*;

verus! {

/// A workload is proven by its sandbox, its one Pod, its node and, exactly where the
/// pool exposes ports, its Service: the sandbox leads to its Pods, the Pod to its node,
/// and the node to the Service or to the end.
pub proof fn law_workload_is_proven_in_turn(
    held: validation::WorkloadValidationView,
    resolved: population::ResolvedView,
    sandbox: DynamicObject,
    selector: Seq<char>,
    pods: Result<Vec<Pod>, ApiError>,
    node_name: Seq<char>,
    node: Result<Node, ApiError>,
    service_name: Seq<char>,
    service_uid: Seq<char>,
    service: Result<Service, ApiError>,
)
    ensures
        match population::workload_pods(held.template_name, sandbox, resolved) {
            Ok(found) => validation::workload_first(held, sandbox, resolved) == Ok::<
                validation::WorkloadStageView,
                Seq<char>,
            >(validation::WorkloadStageView::Pods(found)),
            Err(words) => validation::workload_first(held, sandbox, resolved) == Err::<
                validation::WorkloadStageView,
                Seq<char>,
            >(words),
        },
        match population::workload_node(
            held.template_name,
            held.policy,
            held.expected_pod,
            resolved,
            pods,
        ) {
            Ok(name) => validation::workload_next(
                held,
                resolved,
                validation::WorkloadStageView::Pods(selector),
                ClusterAnswer::Pods(pods),
            ) == Ok::<WorkloadStepView, Seq<char>>(
                WorkloadStepView::Ask(validation::WorkloadStageView::Node(name)),
            ),
            Err(words) => validation::workload_next(
                held,
                resolved,
                validation::WorkloadStageView::Pods(selector),
                ClusterAnswer::Pods(pods),
            ) == Err::<WorkloadStepView, Seq<char>>(words),
        },
        ({
            let next = validation::workload_next(
                held,
                resolved,
                validation::WorkloadStageView::Node(node_name),
                ClusterAnswer::Node(node),
            );
            let exposes = held.pool.spec.template.exposed_ports@.len() > 0;
            let accepted = node matches Ok(found) && workload::node_error(found) is None;
            &&& next == Ok::<WorkloadStepView, Seq<char>>(WorkloadStepView::Proven) <==> accepted
                && !exposes && resolved.service_name is None && resolved.service_uid is None
            &&& next matches Ok(WorkloadStepView::Ask(asked)) ==> accepted && exposes && asked
                == validation::WorkloadStageView::Service(
                resolved.service_name->0,
                resolved.service_uid->0,
            )
            &&& accepted && exposes && resolved.service_name is Some
                && resolved.service_uid is Some ==> next is Ok
        }),
        validation::workload_next(
            held,
            resolved,
            validation::WorkloadStageView::Service(service_name, service_uid),
            ClusterAnswer::Service(service),
        ) == (match population::workload_service_error(
            held.pool,
            resolved,
            service_uid,
            service,
        ) {
            None => Ok::<WorkloadStepView, Seq<char>>(WorkloadStepView::Proven),
            Some(words) => Err(words),
        }),
{
}

/// An idle sandbox resolves by its one Pod, and by its Service exactly where its status
/// names one.
pub proof fn law_idle_sandbox_resolves_in_turn(
    sandbox: DynamicObject,
    selector: Seq<char>,
    pods: Result<Vec<Pod>, ApiError>,
    service_name: Seq<char>,
    resolved: population::ResolvedView,
    service: Result<Service, ApiError>,
)
    ensures
        ({
            let next = validation::idle_next(
                sandbox,
                validation::IdleStageView::Pods(selector),
                ClusterAnswer::Pods(pods),
            );
            match population::idle_pod(sandbox, pods) {
                Err(words) => next == Err::<IdleStepView, Seq<char>>(words),
                Ok(found) => if found.service_name is Some {
                    next == Ok::<IdleStepView, Seq<char>>(
                        IdleStepView::Ask(
                            validation::IdleStageView::Service(found.service_name->0, found),
                        ),
                    )
                } else {
                    next == Ok::<IdleStepView, Seq<char>>(IdleStepView::Resolved(found))
                },
            }
        }),
        ({
            let next = validation::idle_next(
                sandbox,
                validation::IdleStageView::Service(service_name, resolved),
                ClusterAnswer::Service(service),
            );
            match population::idle_service(resolved, service) {
                Ok(found) => next == Ok::<IdleStepView, Seq<char>>(IdleStepView::Resolved(found)),
                Err(words) => next == Err::<IdleStepView, Seq<char>>(words),
            }
        }),
{
}

/// The capture begins with the recorded claim: it goes on exactly where the claim is
/// found, is the recorded one and is ready at its generation. One that is not ready yet
/// is waited for. One that is gone, may not be read, or was replaced blocks the attempt,
/// and any other failure is tried again.
pub proof fn law_capture_begins_with_the_recorded_claim(
    subject: pass::PassSubjectView,
    status: SandboxPoolCertificationStatus,
    lookup: Result<DynamicObject, ApiError>,
    result: Result<PassStep, String>,
)
    requires
        pass::leads_to(
            subject,
            PassStage::Capture(status, CaptureStage::Claim),
            PassAnswer::Captured(CapturedAnswer::Object(lookup)),
            result,
        ),
    ensures
        status.sandbox_claim is None ==> step_laws::is_blocked(
            result,
            status,
            subject.ready,
            "ClaimCreated checkpoint has no exact SandboxClaim reference"@,
        ),
        status.sandbox_claim matches Some(recorded) ==> match lookup {
            Err(error) => if error.code == Some(404u16) || error.code == Some(403u16) {
                step_laws::is_blocked(
                    result,
                    status,
                    subject.ready,
                    "recorded certification Claim cannot be proven: "@ + error.response@,
                )
            } else {
                step_laws::may_be_tried_again(
                    result,
                    "certification Claim lookup failed: "@ + error.error@,
                )
            },
            Ok(found) => {
                let same = identity::reference_matches(
                    recorded@,
                    found.metadata@,
                    "extensions.agents.x-k8s.io/v1beta1"@,
                    "SandboxClaim"@,
                    subject.namespace,
                    recorded.name@,
                );
                &&& !same ==> step_laws::is_blocked(
                    result,
                    status,
                    subject.ready,
                    "recorded certification Claim was replaced or changed identity"@,
                )
                &&& same && !workload::ready_at_generation(found) ==> step_laws::waits(
                    result,
                    status,
                    subject.ready,
                    false,
                    "CertificationClaimPending"@,
                )
                &&& same && workload::ready_at_generation(found) ==> result == Ok::<
                    PassStep,
                    String,
                >(PassStep::Ask(PassStage::Capture(status, CaptureStage::Resolution(found))))
            },
        },
{
}

/// A claim that resolves leads to its sandbox, and one that does not fails to be tried
/// again. A sandbox that is found and accepted leads to its Pods; one that is not blocks
/// the attempt.
pub proof fn law_capture_follows_the_resolution(
    subject: pass::PassSubjectView,
    status: SandboxPoolCertificationStatus,
    claim: DynamicObject,
    resolution: Result<Option<ResolvedSandboxPod>, String>,
    to_sandbox: Result<PassStep, String>,
    resolved: ResolvedSandboxPod,
    lookup: Result<DynamicObject, ApiError>,
    to_pods: Result<PassStep, String>,
)
    requires
        pass::leads_to(
            subject,
            PassStage::Capture(status, CaptureStage::Resolution(claim)),
            PassAnswer::Captured(CapturedAnswer::Resolution(resolution)),
            to_sandbox,
        ),
        pass::leads_to(
            subject,
            PassStage::Capture(status, CaptureStage::Sandbox(resolved)),
            PassAnswer::Captured(CapturedAnswer::Object(lookup)),
            to_pods,
        ),
    ensures
        match resolution {
            Ok(Some(found)) => to_sandbox == Ok::<PassStep, String>(
                PassStep::Ask(PassStage::Capture(status, CaptureStage::Sandbox(found))),
            ),
            _ => to_sandbox is Err,
        },
        match lookup {
            Err(error) => step_laws::is_blocked(
                to_pods,
                status,
                subject.ready,
                "certification Sandbox cannot be proven: "@ + error.error@,
            ),
            Ok(found) => match population::workload_pods(
                subject.validation.template_name,
                found,
                resolved@,
            ) {
                Err(words) => step_laws::is_blocked(to_pods, status, subject.ready, words),
                Ok(selector) => to_pods matches Ok(
                    PassStep::Ask(PassStage::Capture(kept, CaptureStage::Workload(o, r, asked))),
                ) && kept == status && o == found && r == resolved && asked@
                    == validation::WorkloadStageView::Pods(selector),
            },
        },
{
}

/// A workload that is proven is recorded: the sandbox by its own identity, the Pod and
/// the Service by the names and UIDs that were resolved, each in the namespace; and its
/// volume claims are listed next. One that is not proven blocks the attempt.
pub proof fn law_proven_workload_is_recorded(
    subject: pass::PassSubjectView,
    stage: PassStage,
    status: SandboxPoolCertificationStatus,
    object: DynamicObject,
    resolved: ResolvedSandboxPod,
    at: validation::WorkloadStage,
    answer: ClusterAnswer,
    result: Result<PassStep, String>,
)
    requires
        stage == PassStage::Capture(status, CaptureStage::Workload(object, resolved, at)),
        pass::leads_to(
            subject,
            stage,
            PassAnswer::Captured(CapturedAnswer::Cluster(answer)),
            result,
        ),
    ensures
        match validation::workload_next(subject.validation, resolved@, at@, answer) {
            Err(words) => step_laws::is_blocked(result, status, subject.ready, words),
            Ok(WorkloadStepView::Ask(next)) => result matches Ok(
                PassStep::Ask(PassStage::Capture(kept, CaptureStage::Workload(o, r, asked))),
            ) && kept == status && o == object && r == resolved && asked@ == next,
            Ok(WorkloadStepView::Proven) => match object.metadata.uid {
                Some(uid) => if uid@.len() > 0 {
                    &&& result matches Ok(
                        PassStep::Ask(PassStage::Capture(kept, CaptureStage::VolumeClaims(of))),
                    )
                    &&& of@ == resolved.sandbox_uid@
                    &&& kept == (SandboxPoolCertificationStatus {
                        sandbox: kept.sandbox,
                        pod: kept.pod,
                        service: kept.service,
                        ..status
                    })
                    &&& kept.sandbox matches Some(taken)
                    &&& taken.api_version@ == "agents.x-k8s.io/v1beta1"@
                    &&& taken.kind@ == "Sandbox"@
                    &&& taken.name@ == object.metadata@.any_name()
                    &&& taken.uid@ == uid@
                    &&& kept.pod matches Some(pod)
                    &&& pod.api_version@ == "v1"@
                    &&& pod.kind@ == "Pod"@
                    &&& pod.namespace matches Some(place)
                    &&& place@ == subject.namespace
                    &&& pod.name@ == resolved.pod_name@
                    &&& pod.uid@ == resolved.pod_uid@
                    &&& match (resolved.service_name, resolved.service_uid) {
                        (Some(name), Some(id)) => kept.service matches Some(service)
                            && service.kind@ == "Service"@ && service.name@ == name@
                            && service.uid@ == id@ && service.api_version@ == "v1"@,
                        _ => kept.service is None,
                    }
                } else {
                    result is Err
                },
                None => result is Err,
            },
        },
{
}

/// The capture ends with the storage: the volume claims that the sandbox controls and
/// the volumes that are bound to them are recorded as listed, and the workload counts as
/// captured only then. A list that fails is tried again.
pub proof fn law_capture_ends_with_the_storage(
    subject: pass::PassSubjectView,
    status: SandboxPoolCertificationStatus,
    uid: String,
    claims: Result<Vec<ObjectMeta>, ApiError>,
    to_volumes: Result<PassStep, String>,
    found: Vec<SandboxObjectReference>,
    volumes: Result<Vec<PersistentVolume>, ApiError>,
    to_end: Result<PassStep, String>,
)
    requires
        pass::leads_to(
            subject,
            PassStage::Capture(status, CaptureStage::VolumeClaims(uid)),
            PassAnswer::Captured(CapturedAnswer::VolumeClaims(claims)),
            to_volumes,
        ),
        pass::leads_to(
            subject,
            PassStage::Capture(status, CaptureStage::Volumes(found)),
            PassAnswer::Captured(CapturedAnswer::Volumes(volumes)),
            to_end,
        ),
        !(status.phase is WorkloadCaptured),
    ensures
        claims is Err ==> to_volumes is Err,
        claims matches Ok(listed) ==> match storage::manifest(
            storage::meta_views(listed@),
            |i: int| listed@[i]@.controlled_by_uid(uid@),
            "PersistentVolumeClaim"@,
        ) {
            Err(_) => to_volumes is Err,
            Ok(references) => to_volumes matches Ok(
                PassStep::Ask(PassStage::Capture(kept, CaptureStage::Volumes(asked))),
            ) && kept == status && sandbox::reference_views(asked@) == references,
        },
        volumes is Err ==> to_end is Err,
        volumes matches Ok(listed) ==> match storage::manifest(
            storage::volume_views(listed@),
            |i: int| storage::bound_to(listed@[i], sandbox::reference_views(found@)),
            "PersistentVolume"@,
        ) {
            Err(_) => to_end is Err,
            Ok(references) => to_end matches Ok(PassStep::Finished(progress))
                && sandbox::reference_views(progress.status.persistent_volumes@) == references
                && step_laws::moves_on(
                to_end,
                SandboxPoolCertificationStatus {
                    persistent_volume_claims: found,
                    persistent_volumes: progress.status.persistent_volumes,
                    ..status
                },
                SandboxPoolCertificationPhase::WorkloadCaptured,
                subject.ready,
                false,
                "CertificationWorkloadCaptured"@,
            ),
        },
{
}

/// A captured workload that is proven again leads to the canary or to the fence,
/// whichever it was proven for. One that is not proven blocks the attempt.
pub proof fn law_second_proof_serves_its_purpose(
    subject: pass::PassSubjectView,
    stage: PassStage,
    status: SandboxPoolCertificationStatus,
    purpose: Purpose,
    at: revalidation::CapturedStage,
    answer: CapturedAnswer,
    result: Result<PassStep, String>,
)
    requires
        stage == PassStage::ProveTarget(status, purpose, at),
        pass::leads_to(subject, stage, PassAnswer::Captured(answer), result),
    ensures
        match revalidation::captured_next(
            subject.validation,
            subject.namespace,
            status,
            at@,
            answer,
        ) {
            Err(words) => step_laws::is_blocked(result, status, subject.ready, words),
            Ok(CapturedStepView::Ask(next)) => result matches Ok(
                PassStep::Ask(PassStage::ProveTarget(kept, kept_for, asked)),
            ) && kept == status && kept_for == purpose && asked@ == next,
            Ok(CapturedStepView::Proven(resolved)) => if purpose == Purpose::Canary {
                result matches Ok(PassStep::Ask(PassStage::RunCanary(kept, target))) && kept
                    == status && target@ == resolved
            } else {
                match result {
                    Ok(PassStep::Ask(PassStage::SeekFence(kept, kept_for, _))) => kept == status
                        && kept_for == FenceUse::Install,
                    Err(_) => status.sandbox_claim is None && status.sandbox is None,
                    _ => false,
                }
            },
        },
{
}

/// A captured workload is proven again in turn: the recorded claim, the recorded
/// sandbox, the recorded identities, the workload itself, its volume claims, and its
/// volumes last, which have to be the recorded ones.
pub proof fn law_captured_workload_is_proven_in_turn(
    held: validation::WorkloadValidationView,
    namespace: Seq<char>,
    status: SandboxPoolCertificationStatus,
    name: Seq<char>,
    claim: DynamicObject,
    object: DynamicObject,
    lookup: Result<DynamicObject, ApiError>,
    resolution: Result<Option<ResolvedSandboxPod>, String>,
    resolved: population::ResolvedView,
    claims: Result<Vec<ObjectMeta>, ApiError>,
    references: Seq<sandbox::ReferenceView>,
    volumes: Result<Vec<PersistentVolume>, ApiError>,
)
    requires
        status.sandbox_claim is Some,
        status.sandbox is Some,
        status.pod is Some,
    ensures
        revalidation::captured_next(
            held,
            namespace,
            status,
            CapturedStageView::Claim(name),
            CapturedAnswer::Object(lookup),
        ) == (match captured::captured_claim(status.sandbox_claim->0@, namespace, lookup) {
            Ok(found) => Ok::<CapturedStepView, Seq<char>>(
                CapturedStepView::Ask(
                    CapturedStageView::Sandbox(status.sandbox->0.name@, found),
                ),
            ),
            Err(words) => Err(words),
        }),
        revalidation::captured_next(
            held,
            namespace,
            status,
            CapturedStageView::Sandbox(name, claim),
            CapturedAnswer::Object(lookup),
        ) == (match captured::captured_sandbox(status.sandbox->0@, namespace, lookup) {
            Ok(found) => Ok::<CapturedStepView, Seq<char>>(
                CapturedStepView::Ask(CapturedStageView::Resolution(claim, found)),
            ),
            Err(words) => Err(words),
        }),
        ({
            let next = revalidation::captured_next(
                held,
                namespace,
                status,
                CapturedStageView::Resolution(claim, object),
                CapturedAnswer::Resolution(resolution),
            );
            match captured::captured_identity(
                resolution,
                status.sandbox->0@,
                status.pod->0@,
                sandbox::opt_reference(status.service),
            ) {
                Err(words) => next == Err::<CapturedStepView, Seq<char>>(words),
                Ok(found) => match population::workload_pods(held.template_name, object, found) {
                    Ok(selector) => next == Ok::<CapturedStepView, Seq<char>>(
                        CapturedStepView::Ask(
                            CapturedStageView::Workload(
                                found,
                                validation::WorkloadStageView::Pods(selector),
                            ),
                        ),
                    ),
                    Err(words) => next == Err::<CapturedStepView, Seq<char>>(words),
                },
            }
        }),
        claims matches Ok(listed) ==> revalidation::captured_next(
            held,
            namespace,
            status,
            CapturedStageView::VolumeClaims(resolved),
            CapturedAnswer::VolumeClaims(claims),
        ) == (match storage::manifest(
            storage::meta_views(listed@),
            |i: int| listed@[i]@.controlled_by_uid(status.sandbox->0.uid@),
            "PersistentVolumeClaim"@,
        ) {
            Ok(found) => Ok::<CapturedStepView, Seq<char>>(
                CapturedStepView::Ask(CapturedStageView::Volumes(resolved, found)),
            ),
            Err(words) => Err(words),
        }),
        ({
            let next = revalidation::captured_next(
                held,
                namespace,
                status,
                CapturedStageView::Volumes(resolved, references),
                CapturedAnswer::Volumes(volumes),
            );
            &&& next matches Ok(step) ==> step == CapturedStepView::Proven(resolved)
            &&& next is Ok <==> (storage::volume_manifest(volumes, references) matches Ok(found)
                && captured::captured_storage_error(references, found, status) is None)
        }),
{
}

/// While a captured workload is proven, its own turns are those of any workload; once it
/// is proven its volume claims are listed.
pub proof fn law_captured_turns_are_workload_turns(
    held: validation::WorkloadValidationView,
    namespace: Seq<char>,
    status: SandboxPoolCertificationStatus,
    resolved: population::ResolvedView,
    at: validation::WorkloadStageView,
    answer: ClusterAnswer,
)
    ensures
        revalidation::captured_next(
            held,
            namespace,
            status,
            CapturedStageView::Workload(resolved, at),
            CapturedAnswer::Cluster(answer),
        ) == (match validation::workload_next(held, resolved, at, answer) {
            Ok(WorkloadStepView::Ask(next)) => Ok::<CapturedStepView, Seq<char>>(
                CapturedStepView::Ask(CapturedStageView::Workload(resolved, next)),
            ),
            Ok(WorkloadStepView::Proven) => Ok(
                CapturedStepView::Ask(CapturedStageView::VolumeClaims(resolved)),
            ),
            Err(words) => Err(words),
        }),
{
}

/// A census begins exactly where the runtime is compatible and the pool has converged,
/// and asks for the network policy that is named after the template. It goes on to the
/// members exactly where that policy is found and exact, selects them by the warm pool's
/// label, and takes them exactly where the list came and is as long as the capacity that
/// the pool keeps warm.
pub proof fn law_census_reaches_the_members(
    subject: census::CensusSubjectView,
    runtime: Result<(), String>,
    name: Seq<char>,
    template_uid: Seq<char>,
    warm_pool_uid: Seq<char>,
    lookup: Result<NetworkPolicy, ApiError>,
    selector: Seq<char>,
    policy: NetworkPolicy,
    list: Result<Vec<DynamicObject>, ApiError>,
)
    ensures
        ({
            let next = census::census_next(
                subject,
                CensusStageView::Runtime,
                CensusAnswer::Runtime(runtime),
            );
            let converged = population::pool_converged(
                subject.pool,
                subject.namespace,
                subject.template,
                subject.warm_pool,
                subject.expected_template,
                subject.expected_warm_pool,
                subject.projection,
            );
            &&& next is Ok <==> runtime is Ok && converged is Ok
            &&& next is Ok ==> next == Ok::<CensusStepView, Seq<char>>(
                CensusStepView::Ask(
                    CensusStageView::Policy {
                        name: subject.template.metadata@.any_name() + "-network-policy"@,
                        template_uid: converged->Ok_0.0,
                        warm_pool_uid: converged->Ok_0.1,
                    },
                ),
            )
        }),
        ({
            let next = census::census_next(
                subject,
                CensusStageView::Policy { name, template_uid, warm_pool_uid },
                CensusAnswer::Policy(lookup),
            );
            &&& next is Ok <==> (lookup matches Ok(found) && population::policy_is_exact(
                found,
                subject.template.metadata@.any_name(),
                template_uid,
            ))
            &&& next is Ok ==> next == Ok::<CensusStepView, Seq<char>>(
                CensusStepView::Ask(
                    CensusStageView::Sandboxes {
                        selector: "agents.x-k8s.io/warm-pool-sandbox="@ + names::name_hash(
                            subject.warm_pool.metadata@.any_name(),
                        ),
                        warm_pool_uid,
                        policy: lookup->Ok_0,
                    },
                ),
            )
        }),
        ({
            let next = census::census_next(
                subject,
                CensusStageView::Sandboxes { selector, warm_pool_uid, policy },
                CensusAnswer::Sandboxes(list),
            );
            &&& next is Ok <==> (list matches Ok(listed) && listed@.len()
                == subject.pool.spec.warm_capacity)
            &&& next is Ok ==> next == Ok::<CensusStepView, Seq<char>>(
                CensusStepView::Ask(
                    CensusStageView::ExpectedPod {
                        warm_pool_uid,
                        policy,
                        members: list->Ok_0@,
                    },
                ),
            )
        }),
{
    reveal_strlit("agents.x-k8s.io/warm-pool-sandbox=");
    reveal_strlit("agents.x-k8s.io/warm-pool-sandbox");
    reveal_strlit("=");
    assert("agents.x-k8s.io/warm-pool-sandbox="@ =~= "agents.x-k8s.io/warm-pool-sandbox"@ + "="@);
}

/// A round of a census takes the members one by one, each exactly where it is a member
/// and selects its Pods. After the last the census is proven exactly where every member
/// has a UID, with the pool's capacity as the number that is ready and the members' UIDs
/// in order as the baseline.
pub proof fn law_census_takes_the_members_in_turn(
    subject: census::CensusSubjectView,
    round: census::RoundView,
)
    requires
        0 <= round.proven <= round.members.len(),
    ensures
        round.proven < round.members.len() ==> {
            let member = round.members[round.proven];
            let next = census::round_next(subject, round);
            &&& next is Ok <==> population::member_error(
                member,
                subject.warm_pool.metadata@.any_name(),
                round.warm_pool_uid,
                subject.template.metadata@.any_name(),
            ) is None && population::idle_selector(member) is Ok
            &&& next is Ok ==> next == Ok::<CensusStepView, Seq<char>>(
                CensusStepView::Ask(
                    CensusStageView::Idle {
                        round,
                        stage: validation::IdleStageView::Pods(
                            population::idle_selector(member)->Ok_0,
                        ),
                    },
                ),
            )
        },
        round.proven == round.members.len() ==> {
            let next = census::round_next(subject, round);
            &&& next is Ok <==> forall|i: int|
                0 <= i < round.members.len() ==> k8s::nonempty(
                    (#[trigger] round.members[i]).metadata@.uid,
                ) is Some
            &&& next matches Ok(step) ==> {
                &&& step matches CensusStepView::Proven(proven)
                &&& proven.ready == subject.pool.spec.warm_capacity
                &&& proven.policy == round.policy
                &&& proven.expected_pod == round.expected_pod
                &&& proven.baseline == text::sorted(
                    Seq::new(
                        round.members.len(),
                        |i: int| round.members[i].metadata@.uid->0,
                    ),
                )
            }
        },
{
    let uids = Seq::new(round.members.len(), |i: int| round.members[i].metadata@.uid->0);
    assert(population::sandbox_uids(round.members) =~= uids);
}

/// Within a round a member is resolved and then proven as any workload is, under the
/// round's policy and expected Pod; once it is proven the next member is taken.
pub proof fn law_census_proves_a_member_in_turn(
    subject: census::CensusSubjectView,
    round: census::RoundView,
    at: validation::IdleStageView,
    resolved: population::ResolvedView,
    stage: validation::WorkloadStageView,
    answer: ClusterAnswer,
    warm_pool_uid: Seq<char>,
    policy: NetworkPolicy,
    members: Seq<DynamicObject>,
    projected: Result<PodSpec, String>,
)
    ensures
        ({
            let held = validation::WorkloadValidationView {
                pool: subject.pool,
                template_name: subject.template.metadata@.any_name(),
                policy: round.policy,
                expected_pod: round.expected_pod,
            };
            let member = round.members[round.proven];
            &&& census::census_next(
                subject,
                CensusStageView::Idle { round, stage: at },
                CensusAnswer::Cluster(answer),
            ) == (match validation::idle_next(member, at, answer) {
                Err(words) => Err::<CensusStepView, Seq<char>>(words),
                Ok(IdleStepView::Ask(next)) => Ok(
                    CensusStepView::Ask(CensusStageView::Idle { round, stage: next }),
                ),
                Ok(IdleStepView::Resolved(found)) => match population::workload_pods(
                    held.template_name,
                    member,
                    found,
                ) {
                    Ok(selector) => Ok(
                        CensusStepView::Ask(
                            CensusStageView::Workload {
                                round,
                                resolved: found,
                                stage: validation::WorkloadStageView::Pods(selector),
                            },
                        ),
                    ),
                    Err(words) => Err(words),
                },
            })
            &&& census::census_next(
                subject,
                CensusStageView::Workload { round, resolved, stage },
                CensusAnswer::Cluster(answer),
            ) == (match validation::workload_next(held, resolved, stage, answer) {
                Err(words) => Err::<CensusStepView, Seq<char>>(words),
                Ok(WorkloadStepView::Ask(next)) => Ok(
                    CensusStepView::Ask(
                        CensusStageView::Workload { round, resolved, stage: next },
                    ),
                ),
                Ok(WorkloadStepView::Proven) => census::round_next(
                    subject,
                    census::RoundView { proven: round.proven + 1, ..round },
                ),
            })
        }),
        census::census_next(
            subject,
            CensusStageView::ExpectedPod { warm_pool_uid, policy, members },
            CensusAnswer::ExpectedPod(projected),
        ) == (match projected {
            Err(words) => Err::<CensusStepView, Seq<char>>(words@),
            Ok(expected_pod) => census::round_next(
                subject,
                census::RoundView { warm_pool_uid, policy, expected_pod, members, proven: 0 },
            ),
        }),
{
}

} // verus!
