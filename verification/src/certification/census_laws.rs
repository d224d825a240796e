//! A census ends well only where every member of the population was proven.

use crate::certification::census::{self, CensusAnswer};
use crate::certification::names::SandboxPool;
use crate::certification::population;
use crate::certification::validation::{self, ClusterAnswer};
use crate::k8s::{ApiError, DynamicObject, NetworkPolicy, Node, Pod, PodSpec, Service};
use crate::text;
use vstd::prelude::*;

verus! {

/// What the cluster answered about one member, and what the member resolved to.
pub struct MemberEvidence {
    pub idle_pods: Result<Vec<Pod>, ApiError>,
    pub idle_service: Result<Service, ApiError>,
    pub resolved: population::ResolvedView,
    pub pods: Result<Vec<Pod>, ApiError>,
    pub node: Result<Node, ApiError>,
    pub service: Result<Service, ApiError>,
}

/// Whether these answers resolve an idle sandbox.
pub open spec fn resolves(
    sandbox: DynamicObject,
    pods: Result<Vec<Pod>, ApiError>,
    service: Result<Service, ApiError>,
    resolved: population::ResolvedView,
) -> bool {
    match population::idle_pod(sandbox, pods) {
        Err(_) => false,
        Ok(first) => match first.service_name {
            None => resolved == first,
            Some(_) => population::idle_service(first, service) == Ok::<
                population::ResolvedView,
                Seq<char>,
            >(resolved),
        },
    }
}

/// Whether these answers prove a resolved workload.
pub open spec fn workload_proven(
    validation: validation::WorkloadValidationView,
    sandbox: DynamicObject,
    resolved: population::ResolvedView,
    pods: Result<Vec<Pod>, ApiError>,
    node: Result<Node, ApiError>,
    service: Result<Service, ApiError>,
) -> bool {
    &&& population::workload_pods(validation.template_name, sandbox, resolved) is Ok
    &&& population::workload_node(
        validation.template_name,
        validation.policy,
        validation.expected_pod,
        resolved,
        pods,
    ) is Ok
    &&& match population::workload_service(
        validation.pool.spec.template.exposed_ports@.len() != 0,
        resolved,
        node,
    ) {
        Err(_) => false,
        Ok(None) => true,
        Ok(Some(pair)) => population::workload_service_error(
            validation.pool,
            resolved,
            pair.1,
            service,
        ) is None,
    }
}

/// Whether a member is a current one of the warm pool and these answers prove
/// its workload.
pub open spec fn member_proven(
    subject: census::CensusSubjectView,
    warm_pool_uid: Seq<char>,
    policy: NetworkPolicy,
    expected_pod: PodSpec,
    member: DynamicObject,
    evidence: MemberEvidence,
) -> bool {
    &&& population::member_error(
        member,
        subject.warm_pool_name(),
        warm_pool_uid,
        subject.template_name(),
    ) is None
    &&& resolves(member, evidence.idle_pods, evidence.idle_service, evidence.resolved)
    &&& workload_proven(
        validation::WorkloadValidationView {
            pool: subject.pool,
            template_name: subject.template_name(),
            policy,
            expected_pod,
        },
        member,
        evidence.resolved,
        evidence.pods,
        evidence.node,
        evidence.service,
    )
}

/// Whether a population is the proven one with these members: the pool's objects
/// and its policy are exact, there are as many members as the pool wants, each
/// of them is proven by what the cluster answered, and the baseline is their
/// UIDs in order.
pub open spec fn population_proven(
    subject: census::CensusSubjectView,
    population: census::PopulationView,
    members: Seq<DynamicObject>,
    evidence: Seq<MemberEvidence>,
) -> bool {
    &&& subject.uids() is Ok
    &&& population::policy_is_exact(
        population.policy,
        subject.template_name(),
        subject.uids()->Ok_0.0,
    )
    &&& population.ready == subject.pool.spec.warm_capacity
    &&& members.len() == population.ready
    &&& evidence.len() == members.len()
    &&& forall|i: int|
        0 <= i < members.len() ==> member_proven(
            subject,
            subject.uids()->Ok_0.1,
            population.policy,
            population.expected_pod,
            #[trigger] members[i],
            evidence[i],
        )
    &&& population::all_identified(members)
    &&& population.baseline == text::sorted(population::sandbox_uids(members))
}

/// What is asked about one member until it is resolved, and answered so: its Pods,
/// and the Service where its status names one.
pub open spec fn idle_answers(member: DynamicObject, evidence: MemberEvidence) -> Seq<
    CensusAnswer,
> {
    let pods = CensusAnswer::Cluster(ClusterAnswer::Pods(evidence.idle_pods));
    if population::idle_pod(member, evidence.idle_pods) matches Ok(first)
        && first.service_name is Some {
        seq![pods, CensusAnswer::Cluster(ClusterAnswer::Service(evidence.idle_service))]
    } else {
        seq![pods]
    }
}

/// What is asked about one resolved member, and answered so: its Pods, its node,
/// and the Service where the pool exposes ports.
pub open spec fn workload_answers(pool: SandboxPool, evidence: MemberEvidence) -> Seq<
    CensusAnswer,
> {
    let pods = CensusAnswer::Cluster(ClusterAnswer::Pods(evidence.pods));
    let node = CensusAnswer::Cluster(ClusterAnswer::Node(evidence.node));
    if population::workload_service(
        pool.spec.template.exposed_ports@.len() != 0,
        evidence.resolved,
        evidence.node,
    ) matches Ok(Some(_)) {
        seq![pods, node, CensusAnswer::Cluster(ClusterAnswer::Service(evidence.service))]
    } else {
        seq![pods, node]
    }
}

/// What was answered about the members that there is evidence on, one member after
/// the other.
pub open spec fn member_answers(
    pool: SandboxPool,
    members: Seq<DynamicObject>,
    evidence: Seq<MemberEvidence>,
) -> Seq<CensusAnswer>
    decreases evidence.len(),
{
    if evidence.len() == 0 {
        Seq::empty()
    } else {
        member_answers(pool, members, evidence.drop_last()) + idle_answers(
            members[evidence.len() - 1],
            evidence.last(),
        ) + workload_answers(pool, evidence.last())
    }
}

/// What was answered before the first member is asked about.
pub open spec fn first_answers(
    policy: NetworkPolicy,
    listed: Vec<DynamicObject>,
    expected_pod: PodSpec,
) -> Seq<CensusAnswer> {
    seq![
        CensusAnswer::Runtime(Ok(())),
        CensusAnswer::Policy(Ok(policy)),
        CensusAnswer::Sandboxes(Ok(listed)),
        CensusAnswer::ExpectedPod(Ok(expected_pod)),
    ]
}

/// What was answered in the whole census of a population with these members.
pub open spec fn whole_answers(
    subject: census::CensusSubjectView,
    population: census::PopulationView,
    listed: Vec<DynamicObject>,
    evidence: Seq<MemberEvidence>,
) -> Seq<CensusAnswer> {
    first_answers(population.policy, listed, population.expected_pod) + member_answers(
        subject.pool,
        listed@,
        evidence,
    )
}

/// Whether what was heard up to a stage is just what the stage goes on from: the
/// list, the evidence on the members before and on the current one.
#[verifier::opaque]
spec fn stage_heard(
    subject: census::CensusSubjectView,
    stage: census::CensusStageView,
    listed: Vec<DynamicObject>,
    evidence: Seq<MemberEvidence>,
    current: MemberEvidence,
    heard: Seq<CensusAnswer>,
) -> bool {
    match stage {
        census::CensusStageView::Runtime => heard == Seq::<CensusAnswer>::empty(),
        census::CensusStageView::Policy { .. } => heard == seq![CensusAnswer::Runtime(Ok(()))],
        census::CensusStageView::Sandboxes { policy, .. } => heard == seq![
            CensusAnswer::Runtime(Ok(())),
            CensusAnswer::Policy(Ok(policy)),
        ],
        census::CensusStageView::ExpectedPod { policy, members, .. } => members == listed@ && heard
            == seq![
            CensusAnswer::Runtime(Ok(())),
            CensusAnswer::Policy(Ok(policy)),
            CensusAnswer::Sandboxes(Ok(listed)),
        ],
        census::CensusStageView::Idle { round, stage } => {
            let before = first_answers(round.policy, listed, round.expected_pod) + member_answers(
                subject.pool,
                listed@,
                evidence,
            );
            &&& round.members == listed@
            &&& heard == if stage is Pods {
                before
            } else {
                before.push(CensusAnswer::Cluster(ClusterAnswer::Pods(current.idle_pods)))
            }
        },
        census::CensusStageView::Workload { round, resolved, stage } => {
            let before = first_answers(round.policy, listed, round.expected_pod) + member_answers(
                subject.pool,
                listed@,
                evidence,
            ) + idle_answers(round.members[round.proven], current);
            &&& round.members == listed@
            &&& heard == match stage {
                validation::WorkloadStageView::Pods(_) => before,
                validation::WorkloadStageView::Node(_) => before.push(
                    CensusAnswer::Cluster(ClusterAnswer::Pods(current.pods)),
                ),
                validation::WorkloadStageView::Service(_, _) => before.push(
                    CensusAnswer::Cluster(ClusterAnswer::Pods(current.pods)),
                ).push(CensusAnswer::Cluster(ClusterAnswer::Node(current.node))),
            }
        },
    }
}

/// Whether the members that a round counts as proven are, by this evidence.
spec fn round_proven(
    subject: census::CensusSubjectView,
    round: census::RoundView,
    evidence: Seq<MemberEvidence>,
) -> bool {
    &&& subject.uids() is Ok
    &&& round.warm_pool_uid == subject.uids()->Ok_0.1
    &&& population::policy_is_exact(round.policy, subject.template_name(), subject.uids()->Ok_0.0)
    &&& round.members.len() == subject.pool.spec.warm_capacity
    &&& 0 <= round.proven <= round.members.len()
    &&& evidence.len() == round.proven
    &&& forall|i: int|
        0 <= i < round.proven ==> member_proven(
            subject,
            round.warm_pool_uid,
            round.policy,
            round.expected_pod,
            #[trigger] round.members[i],
            evidence[i],
        )
}

/// Whether everything that a stage relies on was proven: by `evidence` of the
/// members before, and by `current` of the member that is asked about.
#[verifier::opaque]
spec fn stage_proven(
    subject: census::CensusSubjectView,
    stage: census::CensusStageView,
    evidence: Seq<MemberEvidence>,
    current: MemberEvidence,
) -> bool {
    match stage {
        census::CensusStageView::Runtime => true,
        census::CensusStageView::Policy { template_uid, warm_pool_uid, .. } => subject.uids()
            == Ok::<(Seq<char>, Seq<char>), Seq<char>>((template_uid, warm_pool_uid)),
        census::CensusStageView::Sandboxes { warm_pool_uid, policy, .. } => {
            &&& subject.uids() is Ok
            &&& warm_pool_uid == subject.uids()->Ok_0.1
            &&& population::policy_is_exact(
                policy,
                subject.template_name(),
                subject.uids()->Ok_0.0,
            )
        },
        census::CensusStageView::ExpectedPod { warm_pool_uid, policy, members } => {
            &&& subject.uids() is Ok
            &&& warm_pool_uid == subject.uids()->Ok_0.1
            &&& population::policy_is_exact(
                policy,
                subject.template_name(),
                subject.uids()->Ok_0.0,
            )
            &&& members.len() == subject.pool.spec.warm_capacity
        },
        census::CensusStageView::Idle { round, stage } => {
            &&& round_proven(subject, round, evidence)
            &&& round.proven < round.members.len()
            &&& population::member_error(
                round.members[round.proven],
                subject.warm_pool_name(),
                round.warm_pool_uid,
                subject.template_name(),
            ) is None
            &&& stage matches validation::IdleStageView::Service(_, first)
                ==> population::idle_pod(round.members[round.proven], current.idle_pods) == Ok::<
                population::ResolvedView,
                Seq<char>,
            >(first) && first.service_name is Some
        },
        census::CensusStageView::Workload { round, resolved, stage } => {
            let held = census::held_to(subject, round);
            let member = round.members[round.proven];
            &&& round_proven(subject, round, evidence)
            &&& round.proven < round.members.len()
            &&& population::member_error(
                member,
                subject.warm_pool_name(),
                round.warm_pool_uid,
                subject.template_name(),
            ) is None
            &&& current.resolved == resolved
            &&& resolves(member, current.idle_pods, current.idle_service, resolved)
            &&& population::workload_pods(held.template_name, member, resolved) is Ok
            &&& !(stage is Pods) ==> population::workload_node(
                held.template_name,
                held.policy,
                held.expected_pod,
                resolved,
                current.pods,
            ) is Ok
            &&& stage matches validation::WorkloadStageView::Service(name, uid)
                ==> population::workload_service(
                held.pool.spec.template.exposed_ports@.len() != 0,
                resolved,
                current.node,
            ) == Ok::<Option<(Seq<char>, Seq<char>)>, Seq<char>>(Some((name, uid)))
        },
    }
}

/// What the evidence on the current member becomes with an answer.
spec fn noted(
    subject: census::CensusSubjectView,
    stage: census::CensusStageView,
    answer: CensusAnswer,
    current: MemberEvidence,
) -> MemberEvidence {
    match (stage, answer) {
        (census::CensusStageView::Idle { round, stage }, CensusAnswer::Cluster(answer)) => {
            let noted = match answer {
                ClusterAnswer::Pods(pods) => MemberEvidence { idle_pods: pods, ..current },
                ClusterAnswer::Service(service) => MemberEvidence {
                    idle_service: service,
                    ..current
                },
                ClusterAnswer::Node(_) => current,
            };
            match validation::idle_next(round.members[round.proven], stage, answer) {
                Ok(validation::IdleStepView::Resolved(resolved)) => MemberEvidence {
                    resolved,
                    ..noted
                },
                _ => noted,
            }
        },
        (census::CensusStageView::Workload { .. }, CensusAnswer::Cluster(answer)) => match answer {
            ClusterAnswer::Pods(pods) => MemberEvidence { pods, ..current },
            ClusterAnswer::Node(node) => MemberEvidence { node, ..current },
            ClusterAnswer::Service(service) => MemberEvidence { service, ..current },
        },
        _ => current,
    }
}

proof fn lemma_round_goes_on(
    subject: census::CensusSubjectView,
    round: census::RoundView,
    evidence: Seq<MemberEvidence>,
    current: MemberEvidence,
)
    requires
        round_proven(subject, round, evidence),
    ensures
        match census::round_next(subject, round) {
            Err(_) => true,
            Ok(census::CensusStepView::Ask(next)) => stage_proven(subject, next, evidence, current),
            Ok(census::CensusStepView::Proven(population)) => population_proven(
                subject,
                population,
                round.members,
                evidence,
            ),
        },
{
    reveal(stage_proven);
}

/// The members that a stage has gathered.
spec fn gathered(stage: census::CensusStageView) -> Seq<DynamicObject> {
    match stage {
        census::CensusStageView::ExpectedPod { members, .. } => members,
        census::CensusStageView::Idle { round, .. } => round.members,
        census::CensusStageView::Workload { round, .. } => round.members,
        _ => Seq::empty(),
    }
}

/// The evidence after an answer: with that on the current member, where the answer
/// completes it.
spec fn evidence_after(
    subject: census::CensusSubjectView,
    stage: census::CensusStageView,
    answer: CensusAnswer,
    evidence: Seq<MemberEvidence>,
    current: MemberEvidence,
) -> Seq<MemberEvidence> {
    match (stage, answer) {
        (
            census::CensusStageView::Workload { round, resolved, stage: asked },
            CensusAnswer::Cluster(said),
        ) => if validation::workload_next(census::held_to(subject, round), resolved, asked, said)
            == Ok::<validation::WorkloadStepView, Seq<char>>(validation::WorkloadStepView::Proven) {
            evidence.push(noted(subject, stage, answer, current))
        } else {
            evidence
        },
        _ => evidence,
    }
}

proof fn lemma_step(
    subject: census::CensusSubjectView,
    stage: census::CensusStageView,
    answer: CensusAnswer,
    evidence: Seq<MemberEvidence>,
    current: MemberEvidence,
)
    requires
        stage.is_answered_by(answer),
        stage_proven(subject, stage, evidence, current),
        !(stage is Idle) && !(stage is Workload) ==> evidence.len() == 0,
    ensures
        match census::census_next(subject, stage, answer) {
            Err(_) => true,
            Ok(census::CensusStepView::Ask(next)) => {
                let after = evidence_after(subject, stage, answer, evidence, current);
                &&& stage_proven(subject, next, after, noted(subject, stage, answer, current))
                &&& !(next is Idle) && !(next is Workload) ==> after.len() == 0
            },
            Ok(census::CensusStepView::Proven(population)) => population_proven(
                subject,
                population,
                gathered(stage),
                evidence_after(subject, stage, answer, evidence, current),
            ),
        },
{
    reveal(stage_proven);
    let current = noted(subject, stage, answer, current);
    match (stage, answer) {
        (
            census::CensusStageView::ExpectedPod { warm_pool_uid, policy, members },
            CensusAnswer::ExpectedPod(Ok(expected_pod)),
        ) => {
            let round = census::RoundView {
                warm_pool_uid,
                policy,
                expected_pod,
                members,
                proven: 0,
            };
            lemma_round_goes_on(subject, round, evidence, current);
        },
        (
            census::CensusStageView::Workload { round, resolved, stage },
            CensusAnswer::Cluster(answer),
        ) => {
            let held = census::held_to(subject, round);
            if validation::workload_next(held, resolved, stage, answer) == Ok::<
                validation::WorkloadStepView,
                Seq<char>,
            >(validation::WorkloadStepView::Proven) {
                let after = evidence.push(current);
                let next = census::RoundView { proven: round.proven + 1, ..round };
                assert(member_proven(
                    subject,
                    round.warm_pool_uid,
                    round.policy,
                    round.expected_pod,
                    round.members[round.proven],
                    current,
                ));
                assert forall|i: int| 0 <= i < next.proven implies member_proven(
                    subject,
                    next.warm_pool_uid,
                    next.policy,
                    next.expected_pod,
                    #[trigger] next.members[i],
                    after[i],
                ) by {
                    if i < round.proven {
                        assert(after[i] == evidence[i]);
                    }
                }
                lemma_round_goes_on(subject, next, after, current);
            }
        },
        _ => {},
    }
}

/// The list that a census goes on with after an answer.
spec fn listed_after(answer: CensusAnswer, listed: Vec<DynamicObject>) -> Vec<DynamicObject> {
    match answer {
        CensusAnswer::Sandboxes(Ok(found)) => found,
        _ => listed,
    }
}

proof fn lemma_round_hears(
    subject: census::CensusSubjectView,
    round: census::RoundView,
    listed: Vec<DynamicObject>,
    evidence: Seq<MemberEvidence>,
    current: MemberEvidence,
    heard: Seq<CensusAnswer>,
)
    requires
        round.members == listed@,
        heard == first_answers(round.policy, listed, round.expected_pod) + member_answers(
            subject.pool,
            listed@,
            evidence,
        ),
    ensures
        match census::round_next(subject, round) {
            Err(_) => true,
            Ok(census::CensusStepView::Ask(next)) => stage_heard(
                subject,
                next,
                listed,
                evidence,
                current,
                heard,
            ),
            Ok(census::CensusStepView::Proven(population)) => heard == whole_answers(
                subject,
                population,
                listed,
                evidence,
            ),
        },
{
    reveal(stage_heard);
}

/// Whether what an answer leads to goes on from just what was heard, or rests on it.
#[verifier::opaque]
spec fn step_heard(
    subject: census::CensusSubjectView,
    stage: census::CensusStageView,
    answer: CensusAnswer,
    listed: Vec<DynamicObject>,
    evidence: Seq<MemberEvidence>,
    current: MemberEvidence,
    heard: Seq<CensusAnswer>,
) -> bool {
    match census::census_next(subject, stage, answer) {
        Err(_) => true,
        Ok(census::CensusStepView::Ask(next)) => stage_heard(
            subject,
            next,
            listed_after(answer, listed),
            evidence_after(subject, stage, answer, evidence, current),
            noted(subject, stage, answer, current),
            heard.push(answer),
        ),
        Ok(census::CensusStepView::Proven(population)) => gathered(stage) == listed_after(
            answer,
            listed,
        )@ && heard.push(answer) == whole_answers(
            subject,
            population,
            listed_after(answer, listed),
            evidence_after(subject, stage, answer, evidence, current),
        ),
    }
}

proof fn lemma_hear_idle(
    subject: census::CensusSubjectView,
    stage: census::CensusStageView,
    answer: CensusAnswer,
    listed: Vec<DynamicObject>,
    evidence: Seq<MemberEvidence>,
    current: MemberEvidence,
    heard: Seq<CensusAnswer>,
)
    requires
        stage.is_answered_by(answer),
        stage_proven(subject, stage, evidence, current),
        !(stage is Idle) && !(stage is Workload) ==> evidence.len() == 0,
        stage_heard(subject, stage, listed, evidence, current, heard),
        stage is Idle,
    ensures
        step_heard(subject, stage, answer, listed, evidence, current, heard),
{
    reveal(stage_proven);
    reveal(stage_heard);
    reveal(step_heard);
    let round = stage->Idle_round;
    let asked = stage->Idle_stage;
    let said = answer->Cluster_0;
    let member = round.members[round.proven];
    let noted = noted(subject, stage, answer, current);
    let before = first_answers(round.policy, listed, round.expected_pod) + member_answers(
        subject.pool,
        listed@,
        evidence,
    );
    if validation::idle_next(member, asked, said) matches Ok(
        validation::IdleStepView::Resolved(_),
    ) {
        assert(heard.push(answer) =~= before + idle_answers(member, noted));
    }
}

proof fn lemma_hear_workload(
    subject: census::CensusSubjectView,
    stage: census::CensusStageView,
    answer: CensusAnswer,
    listed: Vec<DynamicObject>,
    evidence: Seq<MemberEvidence>,
    current: MemberEvidence,
    heard: Seq<CensusAnswer>,
)
    requires
        stage.is_answered_by(answer),
        stage_proven(subject, stage, evidence, current),
        !(stage is Idle) && !(stage is Workload) ==> evidence.len() == 0,
        stage_heard(subject, stage, listed, evidence, current, heard),
        stage is Workload,
    ensures
        step_heard(subject, stage, answer, listed, evidence, current, heard),
{
    reveal(stage_proven);
    reveal(stage_heard);
    reveal(step_heard);
    let round = stage->Workload_round;
    let resolved = stage->resolved;
    let asked = stage->Workload_stage;
    let said = answer->Cluster_0;
    let member = round.members[round.proven];
    let after = evidence_after(subject, stage, answer, evidence, current);
    let noted = noted(subject, stage, answer, current);
    let heard_after = heard.push(answer);
    let proven_before = first_answers(round.policy, listed, round.expected_pod) + member_answers(
        subject.pool,
        listed@,
        evidence,
    );
    let before = proven_before + idle_answers(member, current);
    assert(idle_answers(member, noted) == idle_answers(member, current));
    if validation::workload_next(census::held_to(subject, round), resolved, asked, said) == Ok::<
        validation::WorkloadStepView,
        Seq<char>,
    >(validation::WorkloadStepView::Proven) {
        let next = census::RoundView { proven: round.proven + 1, ..round };
        assert(after == evidence.push(noted));
        assert(after.drop_last() =~= evidence);
        assert(evidence.len() == round.proven);
        assert(heard_after =~= before + workload_answers(subject.pool, noted));
        assert(member_answers(subject.pool, listed@, after) == member_answers(
            subject.pool,
            listed@,
            evidence,
        ) + idle_answers(member, noted) + workload_answers(subject.pool, noted));
        assert(heard_after =~= first_answers(round.policy, listed, round.expected_pod)
            + member_answers(subject.pool, listed@, after));
        lemma_round_hears(subject, next, listed, after, noted, heard_after);
    }
}

proof fn lemma_hear_first(
    subject: census::CensusSubjectView,
    stage: census::CensusStageView,
    answer: CensusAnswer,
    listed: Vec<DynamicObject>,
    evidence: Seq<MemberEvidence>,
    current: MemberEvidence,
    heard: Seq<CensusAnswer>,
)
    requires
        stage.is_answered_by(answer),
        stage_proven(subject, stage, evidence, current),
        !(stage is Idle) && !(stage is Workload) ==> evidence.len() == 0,
        stage_heard(subject, stage, listed, evidence, current, heard),
        !(stage is Idle) && !(stage is Workload),
    ensures
        step_heard(subject, stage, answer, listed, evidence, current, heard),
{
    reveal(stage_proven);
    reveal(stage_heard);
    reveal(step_heard);
    let after = evidence_after(subject, stage, answer, evidence, current);
    let noted = noted(subject, stage, answer, current);
    let heard_after = heard.push(answer);
    match (stage, answer) {
        (census::CensusStageView::Runtime, CensusAnswer::Runtime(Ok(done))) => {
            assert(done == ());
            assert(heard_after =~= seq![CensusAnswer::Runtime(Ok(()))]);
        },
        (census::CensusStageView::Policy { .. }, CensusAnswer::Policy(Ok(policy))) => {
            assert(heard_after =~= seq![
                CensusAnswer::Runtime(Ok(())),
                CensusAnswer::Policy(Ok(policy)),
            ]);
        },
        (
            census::CensusStageView::Sandboxes { policy, .. },
            CensusAnswer::Sandboxes(Ok(found)),
        ) => {
            assert(heard_after =~= seq![
                CensusAnswer::Runtime(Ok(())),
                CensusAnswer::Policy(Ok(policy)),
                CensusAnswer::Sandboxes(Ok(found)),
            ]);
        },
        (
            census::CensusStageView::ExpectedPod { warm_pool_uid, policy, members },
            CensusAnswer::ExpectedPod(Ok(expected_pod)),
        ) => {
            let round = census::RoundView {
                warm_pool_uid,
                policy,
                expected_pod,
                members,
                proven: 0,
            };
            assert(heard_after =~= first_answers(policy, listed, expected_pod) + member_answers(
                subject.pool,
                listed@,
                evidence,
            ));
            lemma_round_hears(subject, round, listed, after, noted, heard_after);
        },
        _ => {},
    }
}

proof fn lemma_hear(
    subject: census::CensusSubjectView,
    stage: census::CensusStageView,
    answer: CensusAnswer,
    listed: Vec<DynamicObject>,
    evidence: Seq<MemberEvidence>,
    current: MemberEvidence,
    heard: Seq<CensusAnswer>,
)
    requires
        stage.is_answered_by(answer),
        stage_proven(subject, stage, evidence, current),
        !(stage is Idle) && !(stage is Workload) ==> evidence.len() == 0,
        stage_heard(subject, stage, listed, evidence, current, heard),
    ensures
        step_heard(subject, stage, answer, listed, evidence, current, heard),
{
    if stage is Idle {
        lemma_hear_idle(subject, stage, answer, listed, evidence, current, heard);
    } else if stage is Workload {
        lemma_hear_workload(subject, stage, answer, listed, evidence, current, heard);
    } else {
        lemma_hear_first(subject, stage, answer, listed, evidence, current, heard);
    }
}

/// What a census comes to, from a stage on, with these answers: nothing where
/// they run out or do not fit what is asked.
pub open spec fn census_run(
    subject: census::CensusSubjectView,
    stage: census::CensusStageView,
    answers: Seq<CensusAnswer>,
) -> Option<Result<census::PopulationView, Seq<char>>>
    decreases answers.len(),
{
    if answers.len() == 0 || !stage.is_answered_by(answers[0]) {
        None
    } else {
        match census::census_next(subject, stage, answers[0]) {
            Err(error) => Some(Err(error)),
            Ok(census::CensusStepView::Proven(population)) => Some(Ok(population)),
            Ok(census::CensusStepView::Ask(next)) => census_run(subject, next, answers.skip(1)),
        }
    }
}

proof fn lemma_run(
    subject: census::CensusSubjectView,
    stage: census::CensusStageView,
    answers: Seq<CensusAnswer>,
    listed: Vec<DynamicObject>,
    evidence: Seq<MemberEvidence>,
    current: MemberEvidence,
    heard: Seq<CensusAnswer>,
)
    requires
        stage_proven(subject, stage, evidence, current),
        !(stage is Idle) && !(stage is Workload) ==> evidence.len() == 0,
        stage_heard(subject, stage, listed, evidence, current, heard),
        census_run(subject, stage, answers) matches Some(Ok(_)),
    ensures
        exists|members: Vec<DynamicObject>, proof_of: Seq<MemberEvidence>|
            census_rests_on(
                subject,
                census_run(subject, stage, answers)->0->Ok_0,
                heard + answers,
                members,
                proof_of,
            ),
    decreases answers.len(),
{
    let answer = answers[0];
    let after = evidence_after(subject, stage, answer, evidence, current);
    let heard_after = heard.push(answer);
    lemma_step(subject, stage, answer, evidence, current);
    lemma_hear(subject, stage, answer, listed, evidence, current, heard);
    reveal(step_heard);
    assert(heard_after + answers.skip(1) =~= heard + answers);
    match census::census_next(subject, stage, answer) {
        Ok(census::CensusStepView::Ask(next)) => {
            assert(census_run(subject, stage, answers) == census_run(
                subject,
                next,
                answers.skip(1),
            ));
            lemma_run(
                subject,
                next,
                answers.skip(1),
                listed_after(answer, listed),
                after,
                noted(subject, stage, answer, current),
                heard_after,
            );
        },
        Ok(census::CensusStepView::Proven(population)) => {
            assert(census_run(subject, stage, answers)->0->Ok_0 == population);
            assert(population_proven(subject, population, gathered(stage), after));
            assert(heard_after.is_prefix_of(heard + answers));
            assert(census_rests_on(
                subject,
                population,
                heard + answers,
                listed_after(answer, listed),
                after,
            ));
        },
        Err(_) => {},
    }
}

/// Whether a population rests on what was answered: the answers begin with those
/// on the runtime, the policy, the list of the members and the projected Pod, and
/// go on with those about each member in turn, and they prove the population with
/// exactly the listed members.
pub open spec fn census_rests_on(
    subject: census::CensusSubjectView,
    population: census::PopulationView,
    answers: Seq<CensusAnswer>,
    listed: Vec<DynamicObject>,
    evidence: Seq<MemberEvidence>,
) -> bool {
    &&& whole_answers(subject, population, listed, evidence).is_prefix_of(answers)
    &&& population_proven(subject, population, listed@, evidence)
}

/// Whatever the cluster answers, a census that ends well has proven a whole
/// population: as many members as the pool wants, which are the listed ones, each
/// one by the answers that were given about it in its turn, under the exact policy
/// of the exact template, and the baseline holds their UIDs.
pub proof fn law_census_proves_every_member(
    subject: census::CensusSubjectView,
    answers: Seq<CensusAnswer>,
)
    requires
        census_run(subject, census::CensusStageView::Runtime, answers) matches Some(Ok(_)),
    ensures
        exists|listed: Vec<DynamicObject>, evidence: Seq<MemberEvidence>|
            census_rests_on(
                subject,
                census_run(subject, census::CensusStageView::Runtime, answers)->0->Ok_0,
                answers,
                listed,
                evidence,
            ),
{
    reveal(stage_proven);
    reveal(stage_heard);
    let heard = Seq::<CensusAnswer>::empty();
    lemma_run(
        subject,
        census::CensusStageView::Runtime,
        answers,
        arbitrary(),
        Seq::empty(),
        arbitrary(),
        heard,
    );
    assert(heard + answers =~= answers);
}

/// What was answered about one member is part of what was answered about all.
proof fn lemma_member_answers_contain(
    pool: SandboxPool,
    members: Seq<DynamicObject>,
    evidence: Seq<MemberEvidence>,
    at: int,
    answer: CensusAnswer,
)
    requires
        0 <= at < evidence.len(),
        idle_answers(members[at], evidence[at]).contains(answer) || workload_answers(
            pool,
            evidence[at],
        ).contains(answer),
    ensures
        member_answers(pool, members, evidence).contains(answer),
    decreases evidence.len(),
{
    let last = evidence.len() - 1;
    let before = member_answers(pool, members, evidence.drop_last());
    let idle = idle_answers(members[last], evidence.last());
    let workload = workload_answers(pool, evidence.last());
    let whole = before + idle + workload;
    if at < last {
        lemma_member_answers_contain(pool, members, evidence.drop_last(), at, answer);
        let i = choose|i: int| 0 <= i < before.len() && before[i] == answer;
        assert(whole[i] == answer);
    } else if idle.contains(answer) {
        let i = choose|i: int| 0 <= i < idle.len() && idle[i] == answer;
        assert(whole[before.len() + i] == answer);
    } else {
        let i = choose|i: int| 0 <= i < workload.len() && workload[i] == answer;
        assert(whole[before.len() + idle.len() + i] == answer);
    }
}

/// Everything that a population rests on was answered: the policy, the list of the
/// members and the projected Pod, and whatever was asked about each member.
pub proof fn law_census_evidence_was_answered(
    subject: census::CensusSubjectView,
    population: census::PopulationView,
    answers: Seq<CensusAnswer>,
    listed: Vec<DynamicObject>,
    evidence: Seq<MemberEvidence>,
)
    requires
        census_rests_on(subject, population, answers, listed, evidence),
    ensures
        answers.contains(CensusAnswer::Runtime(Ok(()))),
        answers.contains(CensusAnswer::Policy(Ok(population.policy))),
        answers.contains(CensusAnswer::Sandboxes(Ok(listed))),
        answers.contains(CensusAnswer::ExpectedPod(Ok(population.expected_pod))),
        forall|at: int, answer: CensusAnswer|
            0 <= at < evidence.len() && #[trigger] idle_answers(
                listed@[at],
                evidence[at],
            ).contains(answer) ==> answers.contains(answer),
        forall|at: int, answer: CensusAnswer|
            0 <= at < evidence.len() && #[trigger] workload_answers(
                subject.pool,
                evidence[at],
            ).contains(answer) ==> answers.contains(answer),
{
    let first = first_answers(population.policy, listed, population.expected_pod);
    let about = member_answers(subject.pool, listed@, evidence);
    let whole = whole_answers(subject, population, listed, evidence);
    assert(whole == answers.take(whole.len() as int));
    assert forall|i: int| 0 <= i < 4 implies answers.contains(#[trigger] first[i]) by {
        assert(whole[i] == first[i]);
        assert(answers[i] == first[i]);
    }
    assert(answers.contains(first[0]) && answers.contains(first[1]) && answers.contains(first[2])
        && answers.contains(first[3]));
    assert forall|at: int, answer: CensusAnswer|
        0 <= at < evidence.len() && #[trigger] idle_answers(listed@[at], evidence[at]).contains(
            answer,
        ) implies answers.contains(answer) by {
        lemma_member_answers_contain(subject.pool, listed@, evidence, at, answer);
        let i = choose|i: int| 0 <= i < about.len() && about[i] == answer;
        assert(whole[first.len() + i] == answer);
        assert(answers[first.len() + i] == answer);
    }
    assert forall|at: int, answer: CensusAnswer|
        0 <= at < evidence.len() && #[trigger] workload_answers(
            subject.pool,
            evidence[at],
        ).contains(answer) implies answers.contains(answer) by {
        lemma_member_answers_contain(subject.pool, listed@, evidence, at, answer);
        let i = choose|i: int| 0 <= i < about.len() && about[i] == answer;
        assert(whole[first.len() + i] == answer);
        assert(answers[first.len() + i] == answer);
    }
}

/// How many queries are left from a stage on, at most.
pub open spec fn queries_left(
    subject: census::CensusSubjectView,
    stage: census::CensusStageView,
) -> int {
    let capacity = subject.pool.spec.warm_capacity as int;
    match stage {
        census::CensusStageView::Runtime => 4 + 5 * capacity,
        census::CensusStageView::Policy { .. } => 3 + 5 * capacity,
        census::CensusStageView::Sandboxes { .. } => 2 + 5 * capacity,
        census::CensusStageView::ExpectedPod { members, .. } => 1 + 5 * (members.len() as int),
        census::CensusStageView::Idle { round, stage } => 5 * (round.members.len() - round.proven)
            - if stage is Pods {
            0int
        } else {
            1
        },
        census::CensusStageView::Workload { round, stage, .. } => 5 * (round.members.len()
            - round.proven) - match stage {
            validation::WorkloadStageView::Pods(_) => 2int,
            validation::WorkloadStageView::Node(_) => 3,
            validation::WorkloadStageView::Service(_, _) => 4,
        },
    }
}

/// A census ends: each answer leaves fewer queries than were left before it, and
/// every stage leaves at least its own.
pub proof fn law_census_ends(
    subject: census::CensusSubjectView,
    stage: census::CensusStageView,
    answer: CensusAnswer,
)
    requires
        stage.is_coherent(),
        stage.is_answered_by(answer),
    ensures
        queries_left(subject, stage) >= 1,
        census::census_next(subject, stage, answer) matches Ok(census::CensusStepView::Ask(next))
            ==> queries_left(subject, next) < queries_left(subject, stage),
{
}

} // verus!
