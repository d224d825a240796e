//! The conversation in which an idle population is proven: what the cluster is
//! asked, one query at a time, and what each answer leads to.

use crate::certification::names::SandboxPool;
use crate::certification::population::{
    self, resolve_idle_pod, resolve_idle_service, validate_workload_node, validate_workload_pod,
    validate_workload_service, workload_selector, ResolvedSandboxPod,
};
use crate::k8s::{ApiError, DynamicObject, NetworkPolicy, Node, Pod, PodSpec, Service};
use vstd::prelude::*;
use vstd::string::*;

verus! {

/// What the cluster answered.
#[derive(Debug)]
pub enum ClusterAnswer {
    Pods(Result<Vec<Pod>, ApiError>),
    Node(Result<Node, ApiError>),
    Service(Result<Service, ApiError>),
}

/// What is asked next while a resolved workload is proven.
#[derive(Debug, Clone, PartialEq, Eq)]
pub enum WorkloadStage {
    /// List the Pods of this selector.
    Pods(String),
    /// Look this node up.
    Node(String),
    /// Look this Service up; it has to have this UID.
    Service(String, String),
}

/// What a workload's stage asks.
pub enum WorkloadStageView {
    Pods(Seq<char>),
    Node(Seq<char>),
    Service(Seq<char>, Seq<char>),
}

impl View for WorkloadStage {
    type V = WorkloadStageView;

    open spec fn view(&self) -> WorkloadStageView {
        match self {
            WorkloadStage::Pods(selector) => WorkloadStageView::Pods(selector@),
            WorkloadStage::Node(name) => WorkloadStageView::Node(name@),
            WorkloadStage::Service(name, uid) => WorkloadStageView::Service(name@, uid@),
        }
    }
}

impl WorkloadStageView {
    /// Whether an answer is one to this stage's query.
    pub open spec fn is_answered_by(self, answer: ClusterAnswer) -> bool {
        match self {
            WorkloadStageView::Pods(_) => answer is Pods,
            WorkloadStageView::Node(_) => answer is Node,
            WorkloadStageView::Service(_, _) => answer is Service,
        }
    }
}

/// What an answer leads to while a resolved workload is proven.
#[derive(Debug, Clone, PartialEq, Eq)]
pub enum WorkloadStep {
    Ask(WorkloadStage),
    Proven,
}

/// What a step says.
pub enum WorkloadStepView {
    Ask(WorkloadStageView),
    Proven,
}

/// What a result that holds a step says.
pub open spec fn workload_outcome(result: Result<WorkloadStep, String>) -> Result<
    WorkloadStepView,
    Seq<char>,
> {
    match result {
        Ok(WorkloadStep::Ask(stage)) => Ok(WorkloadStepView::Ask(stage@)),
        Ok(WorkloadStep::Proven) => Ok(WorkloadStepView::Proven),
        Err(error) => Err(error@),
    }
}

/// What a workload is held to.
pub struct WorkloadValidation<'a> {
    pub pool: &'a SandboxPool,
    pub template_name: &'a str,
    pub policy: &'a NetworkPolicy,
    pub expected_pod: &'a PodSpec,
}

/// What a workload is held to.
pub struct WorkloadValidationView {
    pub pool: SandboxPool,
    pub template_name: Seq<char>,
    pub policy: NetworkPolicy,
    pub expected_pod: PodSpec,
}

impl<'a> View for WorkloadValidation<'a> {
    type V = WorkloadValidationView;

    open spec fn view(&self) -> WorkloadValidationView {
        WorkloadValidationView {
            pool: *self.pool,
            template_name: self.template_name@,
            policy: *self.policy,
            expected_pod: *self.expected_pod,
        }
    }
}

/// The first query in the proof of a resolved workload, or why there is none.
pub open spec fn workload_first(
    validation: WorkloadValidationView,
    sandbox: DynamicObject,
    resolved: population::ResolvedView,
) -> Result<WorkloadStageView, Seq<char>> {
    match population::workload_pods(validation.template_name, sandbox, resolved) {
        Ok(selector) => Ok(WorkloadStageView::Pods(selector)),
        Err(error) => Err(error),
    }
}

/// Where an answer leads in the proof of a resolved workload.
pub open spec fn workload_next(
    validation: WorkloadValidationView,
    resolved: population::ResolvedView,
    stage: WorkloadStageView,
    answer: ClusterAnswer,
) -> Result<WorkloadStepView, Seq<char>>
    recommends
        stage.is_answered_by(answer),
{
    match (stage, answer) {
        (WorkloadStageView::Pods(_), ClusterAnswer::Pods(pods)) => match population::workload_node(
            validation.template_name,
            validation.policy,
            validation.expected_pod,
            resolved,
            pods,
        ) {
            Ok(name) => Ok(WorkloadStepView::Ask(WorkloadStageView::Node(name))),
            Err(error) => Err(error),
        },
        (
            WorkloadStageView::Node(_),
            ClusterAnswer::Node(node),
        ) => match population::workload_service(
            validation.pool.spec.template.exposed_ports@.len() != 0,
            resolved,
            node,
        ) {
            Ok(Some(pair)) => Ok(
                WorkloadStepView::Ask(WorkloadStageView::Service(pair.0, pair.1)),
            ),
            Ok(None) => Ok(WorkloadStepView::Proven),
            Err(error) => Err(error),
        },
        (
            WorkloadStageView::Service(_, uid),
            ClusterAnswer::Service(service),
        ) => match population::workload_service_error(validation.pool, resolved, uid, service) {
            None => Ok(WorkloadStepView::Proven),
            Some(error) => Err(error),
        },
        _ => Err(Seq::empty()),
    }
}

/// The first query in the proof of a resolved workload.
pub fn begin_resolved_workload(
    validation: &WorkloadValidation<'_>,
    sandbox: &DynamicObject,
    resolved: &ResolvedSandboxPod,
) -> (result: Result<WorkloadStage, String>)
    ensures
        match result {
            Ok(stage) => workload_first(validation@, *sandbox, resolved@) == Ok::<
                WorkloadStageView,
                Seq<char>,
            >(stage@),
            Err(error) => workload_first(validation@, *sandbox, resolved@) == Err::<
                WorkloadStageView,
                Seq<char>,
            >(error@),
        },
{
    match workload_selector(validation.template_name, sandbox, resolved) {
        Ok(selector) => Ok(WorkloadStage::Pods(selector)),
        Err(error) => Err(error),
    }
}

/// Goes on with the proof of a resolved workload: its one Pod, the node that it
/// is scheduled to, and its Service where ports are exposed.
pub fn validate_resolved_workload(
    validation: &WorkloadValidation<'_>,
    resolved: &ResolvedSandboxPod,
    stage: WorkloadStage,
    answer: ClusterAnswer,
) -> (result: Result<WorkloadStep, String>)
    requires
        stage@.is_answered_by(answer),
    ensures
        workload_outcome(result) == workload_next(validation@, resolved@, stage@, answer),
{
    match (stage, answer) {
        (WorkloadStage::Pods(_), ClusterAnswer::Pods(pods)) => {
            match validate_workload_pod(
                validation.template_name,
                validation.policy,
                validation.expected_pod,
                resolved,
                pods,
            ) {
                Ok(name) => Ok(WorkloadStep::Ask(WorkloadStage::Node(name))),
                Err(error) => Err(error),
            }
        },
        (WorkloadStage::Node(_), ClusterAnswer::Node(node)) => {
            match validate_workload_node(validation.pool, resolved, node) {
                Ok(Some(service)) => Ok(
                    WorkloadStep::Ask(WorkloadStage::Service(service.0, service.1)),
                ),
                Ok(None) => Ok(WorkloadStep::Proven),
                Err(error) => Err(error),
            }
        },
        (WorkloadStage::Service(_, uid), ClusterAnswer::Service(service)) => {
            match validate_workload_service(validation.pool, resolved, uid.as_str(), service) {
                Ok(_) => Ok(WorkloadStep::Proven),
                Err(error) => Err(error),
            }
        },
        _ => Err(String::new()),
    }
}

/// What is asked next while an idle sandbox is resolved.
#[derive(Debug, Clone, PartialEq, Eq)]
pub enum IdleStage {
    /// List the Pods of this selector.
    Pods(String),
    /// Look the Service of this sandbox up, by this name.
    Service(String, ResolvedSandboxPod),
}

/// What an idle sandbox's stage asks.
pub enum IdleStageView {
    Pods(Seq<char>),
    Service(Seq<char>, population::ResolvedView),
}

impl View for IdleStage {
    type V = IdleStageView;

    open spec fn view(&self) -> IdleStageView {
        match self {
            IdleStage::Pods(selector) => IdleStageView::Pods(selector@),
            IdleStage::Service(name, resolved) => IdleStageView::Service(name@, resolved@),
        }
    }
}

impl IdleStageView {
    /// Whether an answer is one to this stage's query.
    pub open spec fn is_answered_by(self, answer: ClusterAnswer) -> bool {
        match self {
            IdleStageView::Pods(_) => answer is Pods,
            IdleStageView::Service(_, _) => answer is Service,
        }
    }
}

/// What an answer leads to while an idle sandbox is resolved.
#[derive(Debug, Clone, PartialEq, Eq)]
pub enum IdleStep {
    Ask(IdleStage),
    Resolved(ResolvedSandboxPod),
}

/// What a step says.
pub enum IdleStepView {
    Ask(IdleStageView),
    Resolved(population::ResolvedView),
}

/// What a result that holds a step says.
pub open spec fn idle_outcome(result: Result<IdleStep, String>) -> Result<
    IdleStepView,
    Seq<char>,
> {
    match result {
        Ok(IdleStep::Ask(stage)) => Ok(IdleStepView::Ask(stage@)),
        Ok(IdleStep::Resolved(resolved)) => Ok(IdleStepView::Resolved(resolved@)),
        Err(error) => Err(error@),
    }
}

/// Where an answer leads in the resolution of an idle sandbox.
pub open spec fn idle_next(
    sandbox: DynamicObject,
    stage: IdleStageView,
    answer: ClusterAnswer,
) -> Result<IdleStepView, Seq<char>>
    recommends
        stage.is_answered_by(answer),
{
    match (stage, answer) {
        (IdleStageView::Pods(_), ClusterAnswer::Pods(pods)) => match population::idle_pod(
            sandbox,
            pods,
        ) {
            Ok(resolved) => match resolved.service_name {
                Some(name) => Ok(IdleStepView::Ask(IdleStageView::Service(name, resolved))),
                None => Ok(IdleStepView::Resolved(resolved)),
            },
            Err(error) => Err(error),
        },
        (
            IdleStageView::Service(_, resolved),
            ClusterAnswer::Service(service),
        ) => match population::idle_service(resolved, service) {
            Ok(resolved) => Ok(IdleStepView::Resolved(resolved)),
            Err(error) => Err(error),
        },
        _ => Err(Seq::empty()),
    }
}

/// Goes on with the resolution of an idle sandbox to its one Pod and its
/// Service.
pub fn resolve_idle_sandbox(
    sandbox: &DynamicObject,
    stage: IdleStage,
    answer: ClusterAnswer,
) -> (result: Result<IdleStep, String>)
    requires
        stage@.is_answered_by(answer),
    ensures
        idle_outcome(result) == idle_next(*sandbox, stage@, answer),
{
    match (stage, answer) {
        (IdleStage::Pods(_), ClusterAnswer::Pods(pods)) => match resolve_idle_pod(sandbox, pods) {
            Ok(resolved) => match resolved.service_name.clone() {
                Some(name) => Ok(IdleStep::Ask(IdleStage::Service(name, resolved))),
                None => Ok(IdleStep::Resolved(resolved)),
            },
            Err(error) => Err(error),
        },
        (IdleStage::Service(_, resolved), ClusterAnswer::Service(service)) => {
            match resolve_idle_service(resolved, service) {
                Ok(resolved) => Ok(IdleStep::Resolved(resolved)),
                Err(error) => Err(error),
            }
        },
        _ => Err(String::new()),
    }
}

} // verus!
