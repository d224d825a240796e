//! A captured workload passes only where everything recorded was found again.

use crate::certification::captured;
use crate::certification::census_laws;
use crate::certification::population::{self, ResolvedSandboxPod};
use crate::certification::revalidation::{self, CapturedAnswer};
use crate::certification::storage;
use crate::certification::validation::{self, ClusterAnswer};
use crate::crd::sandbox::{self, SandboxPoolCertificationStatus};
use crate::k8s::{ApiError, DynamicObject, Node, ObjectMeta, PersistentVolume, Pod, Service};
use vstd::prelude::*;

verus! {

/// What was answered about a captured workload.
pub struct CapturedEvidence {
    pub claim: Result<DynamicObject, ApiError>,
    pub object: Result<DynamicObject, ApiError>,
    pub resolution: Result<Option<ResolvedSandboxPod>, String>,
    pub pods: Result<Vec<Pod>, ApiError>,
    pub node: Result<Node, ApiError>,
    pub service: Result<Service, ApiError>,
    pub volume_claims: Result<Vec<ObjectMeta>, ApiError>,
    pub volumes: Result<Vec<PersistentVolume>, ApiError>,
}

/// Whether these answers prove that a workload is the recorded one: its claim, its
/// sandbox and what they resolve to, the workload itself, and its storage.
pub open spec fn captured_proven(
    validation: validation::WorkloadValidationView,
    namespace: Seq<char>,
    status: SandboxPoolCertificationStatus,
    resolved: population::ResolvedView,
    evidence: CapturedEvidence,
) -> bool {
    let object = captured::captured_sandbox(status.sandbox->0@, namespace, evidence.object);
    let claims = sandbox::reference_views(status.persistent_volume_claims@);
    let volumes = sandbox::reference_views(status.persistent_volumes@);
    &&& captured::captured_claim(status.sandbox_claim->0@, namespace, evidence.claim) is Ok
    &&& object is Ok
    &&& captured::captured_identity(
        evidence.resolution,
        status.sandbox->0@,
        status.pod->0@,
        sandbox::opt_reference(status.service),
    ) == Ok::<population::ResolvedView, Seq<char>>(resolved)
    &&& census_laws::workload_proven(
        validation,
        object->Ok_0,
        resolved,
        evidence.pods,
        evidence.node,
        evidence.service,
    )
    &&& storage::claim_manifest(evidence.volume_claims, status.sandbox->0@.uid) == Ok::<
        Seq<sandbox::ReferenceView>,
        Seq<char>,
    >(claims)
    &&& storage::volume_manifest(evidence.volumes, claims) == Ok::<
        Seq<sandbox::ReferenceView>,
        Seq<char>,
    >(volumes)
}

/// What was answered about the recorded identities: the claim, the sandbox, and
/// what the claim resolves to.
pub open spec fn identity_answers(evidence: CapturedEvidence) -> Seq<CapturedAnswer> {
    seq![
        CapturedAnswer::Object(evidence.claim),
        CapturedAnswer::Object(evidence.object),
        CapturedAnswer::Resolution(evidence.resolution),
    ]
}

/// What was answered about the workload: its Pods, its node, and the Service where
/// the pool exposes ports.
pub open spec fn workload_answers(
    validation: validation::WorkloadValidationView,
    resolved: population::ResolvedView,
    evidence: CapturedEvidence,
) -> Seq<CapturedAnswer> {
    let pods = CapturedAnswer::Cluster(ClusterAnswer::Pods(evidence.pods));
    let node = CapturedAnswer::Cluster(ClusterAnswer::Node(evidence.node));
    if population::workload_service(
        validation.pool.spec.template.exposed_ports@.len() != 0,
        resolved,
        evidence.node,
    ) matches Ok(Some(_)) {
        seq![pods, node, CapturedAnswer::Cluster(ClusterAnswer::Service(evidence.service))]
    } else {
        seq![pods, node]
    }
}

/// What was answered in the whole proof of a captured workload.
pub open spec fn whole_answers(
    validation: validation::WorkloadValidationView,
    resolved: population::ResolvedView,
    evidence: CapturedEvidence,
) -> Seq<CapturedAnswer> {
    identity_answers(evidence) + workload_answers(validation, resolved, evidence) + seq![
        CapturedAnswer::VolumeClaims(evidence.volume_claims),
        CapturedAnswer::Volumes(evidence.volumes),
    ]
}

/// Whether what was heard up to a stage is just what the stage goes on from.
#[verifier::opaque]
spec fn stage_heard(
    validation: validation::WorkloadValidationView,
    stage: revalidation::CapturedStageView,
    evidence: CapturedEvidence,
    heard: Seq<CapturedAnswer>,
) -> bool {
    let pods = CapturedAnswer::Cluster(ClusterAnswer::Pods(evidence.pods));
    let node = CapturedAnswer::Cluster(ClusterAnswer::Node(evidence.node));
    heard == match stage {
        revalidation::CapturedStageView::Claim(_) => Seq::empty(),
        revalidation::CapturedStageView::Sandbox(_, _) => identity_answers(evidence).take(1),
        revalidation::CapturedStageView::Resolution(_, _) => identity_answers(evidence).take(2),
        revalidation::CapturedStageView::Workload(_, asked) => identity_answers(evidence)
            + match asked {
            validation::WorkloadStageView::Pods(_) => Seq::empty(),
            validation::WorkloadStageView::Node(_) => seq![pods],
            validation::WorkloadStageView::Service(_, _) => seq![pods, node],
        },
        revalidation::CapturedStageView::VolumeClaims(resolved) => identity_answers(evidence)
            + workload_answers(validation, resolved, evidence),
        revalidation::CapturedStageView::Volumes(resolved, _) => (identity_answers(evidence)
            + workload_answers(validation, resolved, evidence)).push(
            CapturedAnswer::VolumeClaims(evidence.volume_claims),
        ),
    }
}

/// Whether a stage's claim, sandbox and resolution were proven by this evidence.
spec fn resolution_proven(
    validation: validation::WorkloadValidationView,
    namespace: Seq<char>,
    status: SandboxPoolCertificationStatus,
    resolved: population::ResolvedView,
    evidence: CapturedEvidence,
) -> bool {
    let object = captured::captured_sandbox(status.sandbox->0@, namespace, evidence.object);
    &&& captured::captured_claim(status.sandbox_claim->0@, namespace, evidence.claim) is Ok
    &&& object is Ok
    &&& captured::captured_identity(
        evidence.resolution,
        status.sandbox->0@,
        status.pod->0@,
        sandbox::opt_reference(status.service),
    ) == Ok::<population::ResolvedView, Seq<char>>(resolved)
    &&& population::workload_pods(validation.template_name, object->Ok_0, resolved) is Ok
}

/// Whether everything that a stage relies on was proven by this evidence.
#[verifier::opaque]
spec fn stage_proven(
    validation: validation::WorkloadValidationView,
    namespace: Seq<char>,
    status: SandboxPoolCertificationStatus,
    stage: revalidation::CapturedStageView,
    evidence: CapturedEvidence,
) -> bool {
    let object = captured::captured_sandbox(status.sandbox->0@, namespace, evidence.object);
    match stage {
        revalidation::CapturedStageView::Claim(_) => true,
        revalidation::CapturedStageView::Sandbox(_, claim) => captured::captured_claim(
            status.sandbox_claim->0@,
            namespace,
            evidence.claim,
        ) == Ok::<DynamicObject, Seq<char>>(claim),
        revalidation::CapturedStageView::Resolution(claim, found) => {
            &&& captured::captured_claim(status.sandbox_claim->0@, namespace, evidence.claim) is Ok
            &&& object == Ok::<DynamicObject, Seq<char>>(found)
        },
        revalidation::CapturedStageView::Workload(resolved, stage) => {
            &&& resolution_proven(validation, namespace, status, resolved, evidence)
            &&& !(stage is Pods) ==> population::workload_node(
                validation.template_name,
                validation.policy,
                validation.expected_pod,
                resolved,
                evidence.pods,
            ) is Ok
            &&& stage matches validation::WorkloadStageView::Service(name, uid)
                ==> population::workload_service(
                validation.pool.spec.template.exposed_ports@.len() != 0,
                resolved,
                evidence.node,
            ) == Ok::<Option<(Seq<char>, Seq<char>)>, Seq<char>>(Some((name, uid)))
        },
        revalidation::CapturedStageView::VolumeClaims(resolved) => {
            &&& resolution_proven(validation, namespace, status, resolved, evidence)
            &&& census_laws::workload_proven(
                validation,
                object->Ok_0,
                resolved,
                evidence.pods,
                evidence.node,
                evidence.service,
            )
        },
        revalidation::CapturedStageView::Volumes(resolved, claims) => {
            &&& resolution_proven(validation, namespace, status, resolved, evidence)
            &&& census_laws::workload_proven(
                validation,
                object->Ok_0,
                resolved,
                evidence.pods,
                evidence.node,
                evidence.service,
            )
            &&& storage::claim_manifest(evidence.volume_claims, status.sandbox->0@.uid) == Ok::<
                Seq<sandbox::ReferenceView>,
                Seq<char>,
            >(claims)
        },
    }
}

/// What the evidence becomes with an answer.
spec fn noted(
    stage: revalidation::CapturedStageView,
    answer: CapturedAnswer,
    evidence: CapturedEvidence,
) -> CapturedEvidence {
    match answer {
        CapturedAnswer::Object(object) => if stage is Claim {
            CapturedEvidence { claim: object, ..evidence }
        } else {
            CapturedEvidence { object, ..evidence }
        },
        CapturedAnswer::Resolution(resolution) => CapturedEvidence { resolution, ..evidence },
        CapturedAnswer::Cluster(ClusterAnswer::Pods(pods)) => CapturedEvidence {
            pods,
            ..evidence
        },
        CapturedAnswer::Cluster(ClusterAnswer::Node(node)) => CapturedEvidence {
            node,
            ..evidence
        },
        CapturedAnswer::Cluster(ClusterAnswer::Service(service)) => CapturedEvidence {
            service,
            ..evidence
        },
        CapturedAnswer::VolumeClaims(volume_claims) => CapturedEvidence {
            volume_claims,
            ..evidence
        },
        CapturedAnswer::Volumes(volumes) => CapturedEvidence { volumes, ..evidence },
    }
}

proof fn lemma_step(
    validation: validation::WorkloadValidationView,
    namespace: Seq<char>,
    status: SandboxPoolCertificationStatus,
    stage: revalidation::CapturedStageView,
    answer: CapturedAnswer,
    evidence: CapturedEvidence,
)
    requires
        stage.is_answered_by(answer),
        stage_proven(validation, namespace, status, stage, evidence),
    ensures
        match revalidation::captured_next(validation, namespace, status, stage, answer) {
            Err(_) => true,
            Ok(revalidation::CapturedStepView::Ask(next)) => stage_proven(
                validation,
                namespace,
                status,
                next,
                noted(stage, answer, evidence),
            ),
            Ok(revalidation::CapturedStepView::Proven(resolved)) => captured_proven(
                validation,
                namespace,
                status,
                resolved,
                noted(stage, answer, evidence),
            ),
        },
{
    reveal(stage_proven);
}

/// Whether what an answer leads to goes on from just what was heard, or rests on it.
#[verifier::opaque]
spec fn step_heard(
    validation: validation::WorkloadValidationView,
    namespace: Seq<char>,
    status: SandboxPoolCertificationStatus,
    stage: revalidation::CapturedStageView,
    answer: CapturedAnswer,
    evidence: CapturedEvidence,
    heard: Seq<CapturedAnswer>,
) -> bool {
    match revalidation::captured_next(validation, namespace, status, stage, answer) {
        Err(_) => true,
        Ok(revalidation::CapturedStepView::Ask(next)) => stage_heard(
            validation,
            next,
            noted(stage, answer, evidence),
            heard.push(answer),
        ),
        Ok(revalidation::CapturedStepView::Proven(resolved)) => heard.push(answer)
            == whole_answers(validation, resolved, noted(stage, answer, evidence)),
    }
}

proof fn lemma_hear_workload(
    validation: validation::WorkloadValidationView,
    namespace: Seq<char>,
    status: SandboxPoolCertificationStatus,
    stage: revalidation::CapturedStageView,
    answer: CapturedAnswer,
    evidence: CapturedEvidence,
    heard: Seq<CapturedAnswer>,
)
    requires
        stage.is_answered_by(answer),
        stage_proven(validation, namespace, status, stage, evidence),
        stage_heard(validation, stage, evidence, heard),
        stage is Workload,
    ensures
        step_heard(validation, namespace, status, stage, answer, evidence, heard),
{
    reveal(step_heard);
    reveal(stage_proven);
    reveal(stage_heard);
    let resolved = stage->Workload_0;
    let asked = stage->Workload_1;
    let said = answer->Cluster_0;
    let after = noted(stage, answer, evidence);
    let identities = identity_answers(after);
    assert(identities == identity_answers(evidence));
    match validation::workload_next(validation, resolved, asked, said) {
        Ok(validation::WorkloadStepView::Proven) => {
            assert(heard.push(answer) =~= identities + workload_answers(
                validation,
                resolved,
                after,
            ));
        },
        Ok(validation::WorkloadStepView::Ask(validation::WorkloadStageView::Node(_))) => {
            assert(heard.push(answer) =~= identities + seq![answer]);
        },
        Ok(_) => {
            assert(heard.push(answer) =~= identities + seq![
                CapturedAnswer::Cluster(ClusterAnswer::Pods(after.pods)),
                answer,
            ]);
        },
        Err(_) => {},
    }
}

proof fn lemma_hear_around(
    validation: validation::WorkloadValidationView,
    namespace: Seq<char>,
    status: SandboxPoolCertificationStatus,
    stage: revalidation::CapturedStageView,
    answer: CapturedAnswer,
    evidence: CapturedEvidence,
    heard: Seq<CapturedAnswer>,
)
    requires
        stage.is_answered_by(answer),
        stage_proven(validation, namespace, status, stage, evidence),
        stage_heard(validation, stage, evidence, heard),
        !(stage is Workload),
    ensures
        step_heard(validation, namespace, status, stage, answer, evidence, heard),
{
    reveal(step_heard);
    reveal(stage_heard);
    let after = noted(stage, answer, evidence);
    let identities = identity_answers(after);
    match stage {
        revalidation::CapturedStageView::Claim(_) => {
            assert(heard.push(answer) =~= identities.take(1));
        },
        revalidation::CapturedStageView::Sandbox(_, _) => {
            assert(heard.push(answer) =~= identities.take(2));
        },
        revalidation::CapturedStageView::Resolution(_, _) => {
            assert(heard.push(answer) =~= identities + Seq::<CapturedAnswer>::empty());
        },
        revalidation::CapturedStageView::Volumes(resolved, _) => {
            assert(heard.push(answer) =~= whole_answers(validation, resolved, after));
        },
        _ => {},
    }
}

proof fn lemma_hear(
    validation: validation::WorkloadValidationView,
    namespace: Seq<char>,
    status: SandboxPoolCertificationStatus,
    stage: revalidation::CapturedStageView,
    answer: CapturedAnswer,
    evidence: CapturedEvidence,
    heard: Seq<CapturedAnswer>,
)
    requires
        stage.is_answered_by(answer),
        stage_proven(validation, namespace, status, stage, evidence),
        stage_heard(validation, stage, evidence, heard),
    ensures
        step_heard(validation, namespace, status, stage, answer, evidence, heard),
{
    if stage is Workload {
        lemma_hear_workload(validation, namespace, status, stage, answer, evidence, heard);
    } else {
        lemma_hear_around(validation, namespace, status, stage, answer, evidence, heard);
    }
}

/// What the proof of a captured workload comes to, from a stage on, with these
/// answers: nothing where they run out or do not fit what is asked.
pub open spec fn captured_run(
    validation: validation::WorkloadValidationView,
    namespace: Seq<char>,
    status: SandboxPoolCertificationStatus,
    stage: revalidation::CapturedStageView,
    answers: Seq<CapturedAnswer>,
) -> Option<Result<population::ResolvedView, Seq<char>>>
    decreases answers.len(),
{
    if answers.len() == 0 || !stage.is_answered_by(answers[0]) {
        None
    } else {
        match revalidation::captured_next(validation, namespace, status, stage, answers[0]) {
            Err(error) => Some(Err(error)),
            Ok(revalidation::CapturedStepView::Proven(resolved)) => Some(Ok(resolved)),
            Ok(revalidation::CapturedStepView::Ask(next)) => captured_run(
                validation,
                namespace,
                status,
                next,
                answers.skip(1),
            ),
        }
    }
}

/// Whether a workload that passes rests on what was answered: the answers begin
/// with those on the claim, the sandbox, its resolution, the workload and the
/// storage, and they prove that it is the recorded one.
pub open spec fn workload_rests_on(
    validation: validation::WorkloadValidationView,
    namespace: Seq<char>,
    status: SandboxPoolCertificationStatus,
    resolved: population::ResolvedView,
    answers: Seq<CapturedAnswer>,
    evidence: CapturedEvidence,
) -> bool {
    &&& whole_answers(validation, resolved, evidence).is_prefix_of(answers)
    &&& captured_proven(validation, namespace, status, resolved, evidence)
}

proof fn lemma_run(
    validation: validation::WorkloadValidationView,
    namespace: Seq<char>,
    status: SandboxPoolCertificationStatus,
    stage: revalidation::CapturedStageView,
    answers: Seq<CapturedAnswer>,
    evidence: CapturedEvidence,
    heard: Seq<CapturedAnswer>,
)
    requires
        stage_proven(validation, namespace, status, stage, evidence),
        stage_heard(validation, stage, evidence, heard),
        captured_run(validation, namespace, status, stage, answers) matches Some(Ok(_)),
    ensures
        exists|proof_of: CapturedEvidence|
            workload_rests_on(
                validation,
                namespace,
                status,
                captured_run(validation, namespace, status, stage, answers)->0->Ok_0,
                heard + answers,
                proof_of,
            ),
    decreases answers.len(),
{
    let answer = answers[0];
    let after = noted(stage, answer, evidence);
    let heard_after = heard.push(answer);
    let whole = captured_run(validation, namespace, status, stage, answers);
    lemma_step(validation, namespace, status, stage, answer, evidence);
    lemma_hear(validation, namespace, status, stage, answer, evidence, heard);
    reveal(step_heard);
    assert(heard_after + answers.skip(1) =~= heard + answers);
    match revalidation::captured_next(validation, namespace, status, stage, answer) {
        Ok(revalidation::CapturedStepView::Ask(next)) => {
            assert(whole == captured_run(validation, namespace, status, next, answers.skip(1)));
            lemma_run(validation, namespace, status, next, answers.skip(1), after, heard_after);
        },
        Ok(revalidation::CapturedStepView::Proven(resolved)) => {
            assert(whole->0->Ok_0 == resolved);
            assert(heard_after.is_prefix_of(heard + answers));
            assert(workload_rests_on(
                validation,
                namespace,
                status,
                resolved,
                heard + answers,
                after,
            ));
        },
        Err(_) => {},
    }
}

/// Whatever the cluster answers, a captured workload that passes was found again
/// as it was recorded: by the answers that were given, in their order, it is the
/// exact claim, sandbox, Pod and Service, and exactly the recorded storage.
pub proof fn law_captured_workload_is_the_recorded_one(
    validation: validation::WorkloadValidationView,
    namespace: Seq<char>,
    status: SandboxPoolCertificationStatus,
    answers: Seq<CapturedAnswer>,
)
    requires
        captured::workload_recorded(status),
        captured_run(
            validation,
            namespace,
            status,
            revalidation::CapturedStageView::Claim(status.sandbox_claim->0@.name),
            answers,
        ) matches Some(Ok(_)),
    ensures
        exists|evidence: CapturedEvidence|
            workload_rests_on(
                validation,
                namespace,
                status,
                captured_run(
                    validation,
                    namespace,
                    status,
                    revalidation::CapturedStageView::Claim(status.sandbox_claim->0@.name),
                    answers,
                )->0->Ok_0,
                answers,
                evidence,
            ),
{
    reveal(stage_proven);
    reveal(stage_heard);
    let heard = Seq::<CapturedAnswer>::empty();
    lemma_run(
        validation,
        namespace,
        status,
        revalidation::CapturedStageView::Claim(status.sandbox_claim->0@.name),
        answers,
        arbitrary(),
        heard,
    );
    assert(heard + answers =~= answers);
}

/// Everything that a workload which passes rests on was answered: the claim, the
/// sandbox and its resolution, the Pods and the node, the Service where the pool
/// exposes ports, and the storage.
pub proof fn law_captured_evidence_was_answered(
    validation: validation::WorkloadValidationView,
    namespace: Seq<char>,
    status: SandboxPoolCertificationStatus,
    resolved: population::ResolvedView,
    answers: Seq<CapturedAnswer>,
    evidence: CapturedEvidence,
)
    requires
        workload_rests_on(validation, namespace, status, resolved, answers, evidence),
    ensures
        answers.contains(CapturedAnswer::Object(evidence.claim)),
        answers.contains(CapturedAnswer::Object(evidence.object)),
        answers.contains(CapturedAnswer::Resolution(evidence.resolution)),
        answers.contains(CapturedAnswer::Cluster(ClusterAnswer::Pods(evidence.pods))),
        answers.contains(CapturedAnswer::Cluster(ClusterAnswer::Node(evidence.node))),
        population::workload_service(
            validation.pool.spec.template.exposed_ports@.len() != 0,
            resolved,
            evidence.node,
        ) matches Ok(Some(_)) ==> answers.contains(
            CapturedAnswer::Cluster(ClusterAnswer::Service(evidence.service)),
        ),
        answers.contains(CapturedAnswer::VolumeClaims(evidence.volume_claims)),
        answers.contains(CapturedAnswer::Volumes(evidence.volumes)),
{
    let whole = whole_answers(validation, resolved, evidence);
    let identities = identity_answers(evidence);
    let workload = workload_answers(validation, resolved, evidence);
    assert(whole == answers.take(whole.len() as int));
    assert forall|i: int| 0 <= i < whole.len() implies answers.contains(#[trigger] whole[i]) by {
        assert(answers[i] == whole[i]);
    }
    assert(whole[0] == identities[0] && whole[1] == identities[1] && whole[2] == identities[2]);
    assert(whole[3] == workload[0] && whole[4] == workload[1]);
    if workload.len() == 3 {
        assert(whole[5] == workload[2]);
    }
    let storage = 3 + workload.len() as int;
    assert(whole[storage] == CapturedAnswer::VolumeClaims(evidence.volume_claims));
    assert(whole[storage + 1] == CapturedAnswer::Volumes(evidence.volumes));
}

} // verus!
