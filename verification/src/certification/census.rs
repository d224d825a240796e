//! The census of a pool: the conversation in which its objects, its network
//! policy and every idle member are proven, from the runtime's check to the
//! baseline of UIDs.

use crate::certification::identity::{self, PoolProjection};
use crate::certification::names::SandboxPool;
use crate::certification::population::{
    self, baseline_uids, check_isolation, check_runtime, idle_sandbox_selector,
    network_policy_name, validate_member, validate_network_policy, validate_pool_convergence,
    validate_population_count, warm_pool_selector, ResolvedSandboxPod,
};
use crate::certification::validation::{
    self, begin_resolved_workload, resolve_idle_sandbox, validate_resolved_workload,
    ClusterAnswer, IdleStage, IdleStep, WorkloadStage, WorkloadStep, WorkloadValidation,
};
use crate::crd::sandbox::{self, SandboxObjectReference};
use crate::k8s::{ApiError, DynamicObject, NetworkPolicy, PodSpec};
use crate::text;
use vstd::prelude::*;
use vstd::string::*;

verus! {

/// The pool whose population is proven, and what its objects are held to.
pub struct CensusSubject<'a> {
    pub pool: &'a SandboxPool,
    pub namespace: &'a str,
    pub template: &'a DynamicObject,
    pub warm_pool: &'a DynamicObject,
    pub expected_template: Option<&'a SandboxObjectReference>,
    pub expected_warm_pool: Option<&'a SandboxObjectReference>,
    pub projection: &'a PoolProjection,
}

/// The pool whose population is proven, and what its objects are held to.
pub struct CensusSubjectView {
    pub pool: SandboxPool,
    pub namespace: Seq<char>,
    pub template: DynamicObject,
    pub warm_pool: DynamicObject,
    pub expected_template: Option<sandbox::ReferenceView>,
    pub expected_warm_pool: Option<sandbox::ReferenceView>,
    pub projection: PoolProjection,
}

impl<'a> View for CensusSubject<'a> {
    type V = CensusSubjectView;

    open spec fn view(&self) -> CensusSubjectView {
        CensusSubjectView {
            pool: *self.pool,
            namespace: self.namespace@,
            template: *self.template,
            warm_pool: *self.warm_pool,
            expected_template: identity::opt_reference_view(self.expected_template),
            expected_warm_pool: identity::opt_reference_view(self.expected_warm_pool),
            projection: *self.projection,
        }
    }
}

impl CensusSubjectView {
    /// The UIDs of the pool's template and warm pool, or what is wrong with them.
    pub open spec fn uids(self) -> Result<(Seq<char>, Seq<char>), Seq<char>> {
        population::pool_converged(
            self.pool,
            self.namespace,
            self.template,
            self.warm_pool,
            self.expected_template,
            self.expected_warm_pool,
            self.projection,
        )
    }

    /// The name of the pool's template.
    pub open spec fn template_name(self) -> Seq<char> {
        self.template.metadata@.any_name()
    }

    /// The name of the pool's warm pool.
    pub open spec fn warm_pool_name(self) -> Seq<char> {
        self.warm_pool.metadata@.any_name()
    }
}

/// A population that was proven.
#[derive(Debug, Clone, PartialEq, Eq)]
pub struct ValidatedPopulation {
    pub ready: u32,
    pub baseline_idle_sandbox_uids: Vec<String>,
    pub policy: NetworkPolicy,
    pub expected_pod: PodSpec,
}

/// A population that was proven.
pub struct PopulationView {
    pub ready: u32,
    pub baseline: Seq<Seq<char>>,
    pub policy: NetworkPolicy,
    pub expected_pod: PodSpec,
}

impl View for ValidatedPopulation {
    type V = PopulationView;

    open spec fn view(&self) -> PopulationView {
        PopulationView {
            ready: self.ready,
            baseline: text::texts(self.baseline_idle_sandbox_uids@),
            policy: self.policy,
            expected_pod: self.expected_pod,
        }
    }
}

/// The members that are proven one after the other, and how many have been.
#[derive(Debug, Clone, PartialEq, Eq)]
pub struct Round {
    pub warm_pool_uid: String,
    pub policy: NetworkPolicy,
    pub expected_pod: PodSpec,
    pub members: Vec<DynamicObject>,
    pub proven: usize,
}

/// The members that are proven one after the other, and how many have been.
pub struct RoundView {
    pub warm_pool_uid: Seq<char>,
    pub policy: NetworkPolicy,
    pub expected_pod: PodSpec,
    pub members: Seq<DynamicObject>,
    pub proven: int,
}

impl View for Round {
    type V = RoundView;

    open spec fn view(&self) -> RoundView {
        RoundView {
            warm_pool_uid: self.warm_pool_uid@,
            policy: self.policy,
            expected_pod: self.expected_pod,
            members: self.members@,
            proven: self.proven as int,
        }
    }
}

/// What is asked next while a population is proven.
#[derive(Debug, Clone, PartialEq, Eq)]
pub enum CensusStage {
    /// Check the runtime's APIs.
    Runtime,
    /// Look the network policy of this name up.
    Policy { name: String, template_uid: String, warm_pool_uid: String },
    /// List the sandboxes of this selector.
    Sandboxes { selector: String, warm_pool_uid: String, policy: NetworkPolicy },
    /// Project the Pod that the pool's template describes.
    ExpectedPod { warm_pool_uid: String, policy: NetworkPolicy, members: Vec<DynamicObject> },
    /// Resolve the next member.
    Idle { round: Round, stage: IdleStage },
    /// Prove the workload of the next member.
    Workload { round: Round, resolved: ResolvedSandboxPod, stage: WorkloadStage },
}

/// What a census asks next.
pub enum CensusStageView {
    Runtime,
    Policy { name: Seq<char>, template_uid: Seq<char>, warm_pool_uid: Seq<char> },
    Sandboxes { selector: Seq<char>, warm_pool_uid: Seq<char>, policy: NetworkPolicy },
    ExpectedPod { warm_pool_uid: Seq<char>, policy: NetworkPolicy, members: Seq<DynamicObject> },
    Idle { round: RoundView, stage: validation::IdleStageView },
    Workload {
        round: RoundView,
        resolved: population::ResolvedView,
        stage: validation::WorkloadStageView,
    },
}

impl View for CensusStage {
    type V = CensusStageView;

    open spec fn view(&self) -> CensusStageView {
        match self {
            CensusStage::Runtime => CensusStageView::Runtime,
            CensusStage::Policy { name, template_uid, warm_pool_uid } => CensusStageView::Policy {
                name: name@,
                template_uid: template_uid@,
                warm_pool_uid: warm_pool_uid@,
            },
            CensusStage::Sandboxes {
                selector,
                warm_pool_uid,
                policy,
            } => CensusStageView::Sandboxes {
                selector: selector@,
                warm_pool_uid: warm_pool_uid@,
                policy: *policy,
            },
            CensusStage::ExpectedPod {
                warm_pool_uid,
                policy,
                members,
            } => CensusStageView::ExpectedPod {
                warm_pool_uid: warm_pool_uid@,
                policy: *policy,
                members: members@,
            },
            CensusStage::Idle { round, stage } => CensusStageView::Idle {
                round: round@,
                stage: stage@,
            },
            CensusStage::Workload { round, resolved, stage } => CensusStageView::Workload {
                round: round@,
                resolved: resolved@,
                stage: stage@,
            },
        }
    }
}

/// What was answered to a census.
#[derive(Debug)]
pub enum CensusAnswer {
    Runtime(Result<(), String>),
    Policy(Result<NetworkPolicy, ApiError>),
    Sandboxes(Result<Vec<DynamicObject>, ApiError>),
    ExpectedPod(Result<PodSpec, String>),
    Cluster(ClusterAnswer),
}

impl CensusStageView {
    /// Whether an answer is one to this stage's query.
    pub open spec fn is_answered_by(self, answer: CensusAnswer) -> bool {
        match (self, answer) {
            (CensusStageView::Runtime, CensusAnswer::Runtime(_)) => true,
            (CensusStageView::Policy { .. }, CensusAnswer::Policy(_)) => true,
            (CensusStageView::Sandboxes { .. }, CensusAnswer::Sandboxes(_)) => true,
            (CensusStageView::ExpectedPod { .. }, CensusAnswer::ExpectedPod(_)) => true,
            (
                CensusStageView::Idle { stage, .. },
                CensusAnswer::Cluster(answer),
            ) => stage.is_answered_by(answer),
            (
                CensusStageView::Workload { stage, .. },
                CensusAnswer::Cluster(answer),
            ) => stage.is_answered_by(answer),
            _ => false,
        }
    }

    /// Whether a member is left to be proven where one is asked about.
    pub open spec fn is_coherent(self) -> bool {
        match self {
            CensusStageView::Idle { round, .. } => 0 <= round.proven < round.members.len(),
            CensusStageView::Workload { round, .. } => 0 <= round.proven < round.members.len(),
            _ => true,
        }
    }
}

/// What an answer leads to while a population is proven.
#[derive(Debug, Clone, PartialEq, Eq)]
pub enum CensusStep {
    Ask(CensusStage),
    Proven(ValidatedPopulation),
}

/// What a step says.
pub enum CensusStepView {
    Ask(CensusStageView),
    Proven(PopulationView),
}

/// What a result that holds a step says.
pub open spec fn census_outcome(result: Result<CensusStep, String>) -> Result<
    CensusStepView,
    Seq<char>,
> {
    match result {
        Ok(CensusStep::Ask(stage)) => Ok(CensusStepView::Ask(stage@)),
        Ok(CensusStep::Proven(population)) => Ok(CensusStepView::Proven(population@)),
        Err(error) => Err(error@),
    }
}

/// What the members' workloads are held to.
pub open spec fn held_to(
    subject: CensusSubjectView,
    round: RoundView,
) -> validation::WorkloadValidationView {
    validation::WorkloadValidationView {
        pool: subject.pool,
        template_name: subject.template_name(),
        policy: round.policy,
        expected_pod: round.expected_pod,
    }
}

/// Where a census goes on after `round.proven` members: to the next member, or to
/// its end.
pub open spec fn round_next(subject: CensusSubjectView, round: RoundView) -> Result<
    CensusStepView,
    Seq<char>,
> {
    if round.proven >= round.members.len() {
        if population::all_identified(round.members) {
            Ok(
                CensusStepView::Proven(
                    PopulationView {
                        ready: subject.pool.spec.warm_capacity,
                        baseline: text::sorted(population::sandbox_uids(round.members)),
                        policy: round.policy,
                        expected_pod: round.expected_pod,
                    },
                ),
            )
        } else {
            Err("WarmPool Sandbox UID is missing"@)
        }
    } else {
        let member = round.members[round.proven];
        match population::member_error(
            member,
            subject.warm_pool_name(),
            round.warm_pool_uid,
            subject.template_name(),
        ) {
            Some(error) => Err(error),
            None => match population::idle_selector(member) {
                Ok(selector) => Ok(
                    CensusStepView::Ask(
                        CensusStageView::Idle {
                            round,
                            stage: validation::IdleStageView::Pods(selector),
                        },
                    ),
                ),
                Err(error) => Err(error),
            },
        }
    }
}

/// Where an answer leads in a census.
pub open spec fn census_next(
    subject: CensusSubjectView,
    stage: CensusStageView,
    answer: CensusAnswer,
) -> Result<CensusStepView, Seq<char>>
    recommends
        stage.is_answered_by(answer),
        stage.is_coherent(),
{
    match (stage, answer) {
        (CensusStageView::Runtime, CensusAnswer::Runtime(runtime)) => match (
            population::runtime_error(runtime),
            subject.uids(),
        ) {
            (Some(error), _) => Err(error),
            (None, Err(error)) => Err(error),
            (None, Ok(uids)) => Ok(
                CensusStepView::Ask(
                    CensusStageView::Policy {
                        name: population::policy_name(subject.template.metadata@),
                        template_uid: uids.0,
                        warm_pool_uid: uids.1,
                    },
                ),
            ),
        },
        (
            CensusStageView::Policy { template_uid, warm_pool_uid, .. },
            CensusAnswer::Policy(lookup),
        ) => match lookup {
            Err(error) => Err("strict NetworkPolicy lookup failed: "@ + error.error@),
            Ok(policy) => if population::policy_is_exact(
                policy,
                subject.template_name(),
                template_uid,
            ) {
                Ok(
                    CensusStepView::Ask(
                        CensusStageView::Sandboxes {
                            selector: population::selector_text(subject.warm_pool_name()),
                            warm_pool_uid,
                            policy,
                        },
                    ),
                )
            } else {
                Err("the exact Template-owned strict NetworkPolicy is absent or drifted"@)
            },
        },
        (
            CensusStageView::Sandboxes { warm_pool_uid, policy, .. },
            CensusAnswer::Sandboxes(list),
        ) => match list {
            Err(error) => Err("WarmPool Sandbox list failed: "@ + error.error@),
            Ok(sandboxes) => if sandboxes@.len() == subject.pool.spec.warm_capacity {
                Ok(
                    CensusStepView::Ask(
                        CensusStageView::ExpectedPod {
                            warm_pool_uid,
                            policy,
                            members: sandboxes@,
                        },
                    ),
                )
            } else {
                Err("WarmPool status count does not match its exact live Sandbox list"@)
            },
        },
        (
            CensusStageView::ExpectedPod { warm_pool_uid, policy, members },
            CensusAnswer::ExpectedPod(projected),
        ) => match projected {
            Err(error) => Err(error@),
            Ok(expected_pod) => round_next(
                subject,
                RoundView { warm_pool_uid, policy, expected_pod, members, proven: 0 },
            ),
        },
        (
            CensusStageView::Idle { round, stage },
            CensusAnswer::Cluster(answer),
        ) => match validation::idle_next(round.members[round.proven], stage, answer) {
            Err(error) => Err(error),
            Ok(validation::IdleStepView::Ask(stage)) => Ok(
                CensusStepView::Ask(CensusStageView::Idle { round, stage }),
            ),
            Ok(validation::IdleStepView::Resolved(resolved)) => match validation::workload_first(
                held_to(subject, round),
                round.members[round.proven],
                resolved,
            ) {
                Ok(stage) => Ok(
                    CensusStepView::Ask(CensusStageView::Workload { round, resolved, stage }),
                ),
                Err(error) => Err(error),
            },
        },
        (
            CensusStageView::Workload { round, resolved, stage },
            CensusAnswer::Cluster(answer),
        ) => match validation::workload_next(held_to(subject, round), resolved, stage, answer) {
            Err(error) => Err(error),
            Ok(validation::WorkloadStepView::Ask(stage)) => Ok(
                CensusStepView::Ask(CensusStageView::Workload { round, resolved, stage }),
            ),
            Ok(validation::WorkloadStepView::Proven) => round_next(
                subject,
                RoundView { proven: round.proven + 1, ..round },
            ),
        },
        _ => Err(Seq::empty()),
    }
}

/// Goes on to the next member, or ends the census.
fn next_member(subject: &CensusSubject<'_>, round: Round) -> (result: Result<CensusStep, String>)
    requires
        round.proven <= round.members@.len(),
    ensures
        census_outcome(result) == round_next(subject@, round@),
        result matches Ok(CensusStep::Ask(next)) ==> next@.is_coherent(),
{
    if round.proven >= round.members.len() {
        let baseline_idle_sandbox_uids = match baseline_uids(&round.members) {
            Ok(uids) => uids,
            Err(error) => {
                return Err(error);
            },
        };
        return Ok(
            CensusStep::Proven(
                ValidatedPopulation {
                    ready: subject.pool.spec.warm_capacity,
                    baseline_idle_sandbox_uids,
                    policy: round.policy,
                    expected_pod: round.expected_pod,
                },
            ),
        );
    }
    let member = &round.members[round.proven];
    match validate_member(
        member,
        subject.warm_pool.metadata.name_any().as_str(),
        round.warm_pool_uid.as_str(),
        subject.template.metadata.name_any().as_str(),
    ) {
        Ok(_) => {},
        Err(error) => {
            return Err(error);
        },
    }
    match idle_sandbox_selector(member) {
        Ok(selector) => Ok(
            CensusStep::Ask(CensusStage::Idle { round, stage: IdleStage::Pods(selector) }),
        ),
        Err(error) => Err(error),
    }
}

/// How the census of a pool begins, or why it does not.
pub open spec fn census_first(pool: SandboxPool) -> Result<CensusStageView, Seq<char>> {
    match population::isolation_error(pool) {
        None => Ok(CensusStageView::Runtime),
        Some(error) => Err(error),
    }
}

/// Begins the census of a pool: only the trusted isolation tier is qualified.
pub fn begin_management_population(subject: &CensusSubject<'_>) -> (result: Result<
    CensusStage,
    String,
>)
    ensures
        match result {
            Ok(stage) => stage == CensusStage::Runtime && population::isolation_error(
                *subject.pool,
            ) is None,
            Err(error) => population::isolation_error(*subject.pool) == Some(error@),
        },
        match result {
            Ok(stage) => census_first(*subject.pool) == Ok::<CensusStageView, Seq<char>>(stage@),
            Err(error) => census_first(*subject.pool) == Err::<CensusStageView, Seq<char>>(error@),
        },
{
    match check_isolation(subject.pool) {
        Ok(_) => Ok(CensusStage::Runtime),
        Err(error) => Err(error),
    }
}

/// Goes on with the census of a pool: the runtime, the pool's objects, the strict
/// network policy, the list of its sandboxes, and then each of them.
pub fn validate_management_population(
    subject: &CensusSubject<'_>,
    stage: CensusStage,
    answer: CensusAnswer,
) -> (result: Result<CensusStep, String>)
    requires
        stage@.is_answered_by(answer),
        stage@.is_coherent(),
    ensures
        census_outcome(result) == census_next(subject@, stage@, answer),
        result matches Ok(CensusStep::Ask(next)) ==> next@.is_coherent(),
{
    match (stage, answer) {
        (CensusStage::Runtime, CensusAnswer::Runtime(runtime)) => {
            match check_runtime(runtime) {
                Ok(_) => {},
                Err(error) => {
                    return Err(error);
                },
            }
            match validate_pool_convergence(
                subject.pool,
                subject.namespace,
                subject.template,
                subject.warm_pool,
                subject.expected_template,
                subject.expected_warm_pool,
                subject.projection,
            ) {
                Ok(uids) => Ok(
                    CensusStep::Ask(
                        CensusStage::Policy {
                            name: network_policy_name(subject.template),
                            template_uid: uids.0,
                            warm_pool_uid: uids.1,
                        },
                    ),
                ),
                Err(error) => Err(error),
            }
        },
        (
            CensusStage::Policy { template_uid, warm_pool_uid, .. },
            CensusAnswer::Policy(lookup),
        ) => {
            match validate_network_policy(subject.template, template_uid.as_str(), lookup) {
                Ok(policy) => Ok(
                    CensusStep::Ask(
                        CensusStage::Sandboxes {
                            selector: warm_pool_selector(
                                subject.warm_pool.metadata.name_any().as_str(),
                            ),
                            warm_pool_uid,
                            policy,
                        },
                    ),
                ),
                Err(error) => Err(error),
            }
        },
        (
            CensusStage::Sandboxes { warm_pool_uid, policy, .. },
            CensusAnswer::Sandboxes(list),
        ) => {
            match validate_population_count(subject.pool.spec.warm_capacity, list) {
                Ok(members) => Ok(
                    CensusStep::Ask(CensusStage::ExpectedPod { warm_pool_uid, policy, members }),
                ),
                Err(error) => Err(error),
            }
        },
        (
            CensusStage::ExpectedPod { warm_pool_uid, policy, members },
            CensusAnswer::ExpectedPod(projected),
        ) => {
            let expected_pod = match projected {
                Ok(expected_pod) => expected_pod,
                Err(error) => {
                    return Err(error);
                },
            };
            next_member(subject, Round { warm_pool_uid, policy, expected_pod, members, proven: 0 })
        },
        (CensusStage::Idle { round, stage }, CensusAnswer::Cluster(answer)) => {
            match resolve_idle_sandbox(&round.members[round.proven], stage, answer) {
                Err(error) => Err(error),
                Ok(IdleStep::Ask(stage)) => Ok(CensusStep::Ask(CensusStage::Idle { round, stage })),
                Ok(IdleStep::Resolved(resolved)) => {
                    let template_name = subject.template.metadata.name_any();
                    let begun = begin_resolved_workload(
                        &WorkloadValidation {
                            pool: subject.pool,
                            template_name: template_name.as_str(),
                            policy: &round.policy,
                            expected_pod: &round.expected_pod,
                        },
                        &round.members[round.proven],
                        &resolved,
                    );
                    match begun {
                        Ok(stage) => Ok(
                            CensusStep::Ask(CensusStage::Workload { round, resolved, stage }),
                        ),
                        Err(error) => Err(error),
                    }
                },
            }
        },
        (CensusStage::Workload { round, resolved, stage }, CensusAnswer::Cluster(answer)) => {
            let template_name = subject.template.metadata.name_any();
            let step = validate_resolved_workload(
                &WorkloadValidation {
                    pool: subject.pool,
                    template_name: template_name.as_str(),
                    policy: &round.policy,
                    expected_pod: &round.expected_pod,
                },
                &resolved,
                stage,
                answer,
            );
            match step {
                Err(error) => Err(error),
                Ok(WorkloadStep::Ask(stage)) => Ok(
                    CensusStep::Ask(CensusStage::Workload { round, resolved, stage }),
                ),
                Ok(WorkloadStep::Proven) => {
                    let count: usize = round.members.len();
                    assert(round.proven < count);
                    let mut round = round;
                    round.proven = round.proven + 1;
                    next_member(subject, round)
                },
            }
        },
        _ => Err(String::new()),
    }
}

} // verus!
