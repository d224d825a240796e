//! What the models of the certification show of its values, and what its smaller
//! readings come to.

use crate::certification::attempt;
use crate::certification::capacity::{self, Absence, AbsenceView, ExactRead};
use crate::certification::captured;
use crate::certification::census::{
    self, CensusStage, CensusStageView, CensusSubject, Round, ValidatedPopulation,
};
use crate::certification::claim;
use crate::certification::fingerprint;
use crate::certification::identity;
use crate::certification::names::{self, SandboxPool};
use crate::certification::pass::PassSubject;
use crate::certification::population::{self, ResolvedSandboxPod};
use crate::certification::revalidation::{CapturedStage, CapturedStageView};
use crate::certification::step_laws;
use crate::certification::storage;
use crate::certification::validation::{
    IdleStage, IdleStageView, WorkloadStage, WorkloadStageView, WorkloadValidation,
};
use crate::crd::sandbox::{
    self, SandboxContainerSpec, SandboxObjectReference, SandboxPoolCertificationStatus,
    SandboxPortSpec, SandboxTemplateSpec,
};
use crate::json::{self, Json};
use crate::k8s::{self, ApiError, DynamicObject, NetworkPolicySpec, ObjectMeta, PodSpec};
use crate::text;
use vstd::prelude::*;
use vstd::utf8::*;

verus! {

/// A resolved workload shows its sandbox, its Pod and, where there is one, its Service.
pub proof fn law_resolved_workload_shows_its_fields(resolved: ResolvedSandboxPod)
    ensures
        resolved@.sandbox_name == resolved.sandbox_name@,
        resolved@.sandbox_uid == resolved.sandbox_uid@,
        resolved@.pod_name == resolved.pod_name@,
        resolved@.pod_uid == resolved.pod_uid@,
        resolved.service_name matches Some(name) ==> resolved@.service_name == Some(name@),
        resolved.service_name is None ==> resolved@.service_name is None,
        resolved.service_uid matches Some(uid) ==> resolved@.service_uid == Some(uid@),
        resolved.service_uid is None ==> resolved@.service_uid is None,
{
}

/// What is proven of a pool, a workload or a pass is held to what the caller gave.
pub proof fn law_subjects_show_their_fields(
    validation: WorkloadValidation<'_>,
    pass: PassSubject<'_>,
    census: CensusSubject<'_>,
)
    ensures
        validation@.pool == *validation.pool,
        validation@.template_name == validation.template_name@,
        validation@.policy == *validation.policy,
        validation@.expected_pod == *validation.expected_pod,
        pass@.validation == pass.validation@,
        pass@.namespace == pass.namespace@,
        pass@.managed_by == pass.managed_by@,
        pass@.ready == pass.ready,
        census@.pool == *census.pool,
        census@.namespace == census.namespace@,
        census@.template == *census.template,
        census@.warm_pool == *census.warm_pool,
        census@.projection == *census.projection,
        census.expected_template is None ==> census@.expected_template is None,
        census.expected_template matches Some(expected) ==> census@.expected_template == Some(
            expected@,
        ),
        census.expected_warm_pool is None ==> census@.expected_warm_pool is None,
        census.expected_warm_pool matches Some(expected) ==> census@.expected_warm_pool == Some(
            expected@,
        ),
{
}

/// A stage shows what is asked next, and a round which members it has and how many of
/// them are proven.
pub proof fn law_stages_show_what_is_asked(
    workload: WorkloadStage,
    idle: IdleStage,
    again: CapturedStage,
    round: Round,
    population: ValidatedPopulation,
)
    ensures
        workload matches WorkloadStage::Pods(selector) ==> workload@ == WorkloadStageView::Pods(
            selector@,
        ),
        workload matches WorkloadStage::Node(name) ==> workload@ == WorkloadStageView::Node(name@),
        workload matches WorkloadStage::Service(name, uid) ==> workload@
            == WorkloadStageView::Service(name@, uid@),
        idle matches IdleStage::Pods(selector) ==> idle@ == IdleStageView::Pods(selector@),
        idle matches IdleStage::Service(name, resolved) ==> idle@ == IdleStageView::Service(
            name@,
            resolved@,
        ),
        again matches CapturedStage::Claim(name) ==> again@ == CapturedStageView::Claim(name@),
        again matches CapturedStage::Sandbox(name, claim) ==> again@ == CapturedStageView::Sandbox(
            name@,
            claim,
        ),
        again matches CapturedStage::Resolution(claim, object) ==> again@
            == CapturedStageView::Resolution(claim, object),
        again matches CapturedStage::Workload(resolved, stage) ==> again@
            == CapturedStageView::Workload(resolved@, stage@),
        again matches CapturedStage::VolumeClaims(resolved) ==> again@
            == CapturedStageView::VolumeClaims(resolved@),
        again matches CapturedStage::Volumes(resolved, claims) ==> again@
            == CapturedStageView::Volumes(resolved@, sandbox::reference_views(claims@)),
        round@.warm_pool_uid == round.warm_pool_uid@,
        round@.policy == round.policy,
        round@.expected_pod == round.expected_pod,
        round@.members == round.members@,
        round@.proven == round.proven,
        population@.ready == population.ready,
        population@.policy == population.policy,
        population@.expected_pod == population.expected_pod,
        population@.baseline.len() == population.baseline_idle_sandbox_uids@.len(),
        forall|i: int|
            0 <= i < population@.baseline.len() ==> #[trigger] population@.baseline[i]
                == population.baseline_idle_sandbox_uids@[i]@,
{
}

/// A stage of a census shows what is asked next and what was found so far.
pub proof fn law_census_stages_show_what_is_asked(stage: CensusStage)
    ensures
        stage is Runtime ==> stage@ == CensusStageView::Runtime,
        stage matches CensusStage::Policy { name, template_uid, warm_pool_uid } ==> stage@ == (
        CensusStageView::Policy {
            name: name@,
            template_uid: template_uid@,
            warm_pool_uid: warm_pool_uid@,
        }),
        stage matches CensusStage::Sandboxes { selector, warm_pool_uid, policy } ==> stage@ == (
        CensusStageView::Sandboxes {
            selector: selector@,
            warm_pool_uid: warm_pool_uid@,
            policy,
        }),
        stage matches CensusStage::ExpectedPod { warm_pool_uid, policy, members } ==> stage@ == (
        CensusStageView::ExpectedPod {
            warm_pool_uid: warm_pool_uid@,
            policy,
            members: members@,
        }),
        stage matches CensusStage::Idle { round, stage: idle } ==> stage@ == (
        CensusStageView::Idle { round: round@, stage: idle@ }),
        stage matches CensusStage::Workload { round, resolved, stage: at } ==> stage@ == (
        CensusStageView::Workload { round: round@, resolved: resolved@, stage: at@ }),
{
}

/// A result is shown as it is: a success by what it holds, a failure by its message.
pub proof fn law_results_are_shown_as_they_are(
    words: String,
    count: u32,
    object: DynamicObject,
    pair: (String, String),
    reference: SandboxObjectReference,
    references: Vec<SandboxObjectReference>,
    resolved: ResolvedSandboxPod,
    absence: Absence,
)
    ensures
        attempt::count_outcome(Ok(count)) == Ok::<int, Seq<char>>(count as int),
        attempt::count_outcome(Err(words)) == Err::<int, Seq<char>>(words@),
        captured::object_outcome(Ok(object)) == Ok::<DynamicObject, Seq<char>>(object),
        captured::object_outcome(Err(words)) == Err::<DynamicObject, Seq<char>>(words@),
        identity::pair_outcome(Ok(pair)) == Ok::<(Seq<char>, Seq<char>), Seq<char>>(
            (pair.0@, pair.1@),
        ),
        identity::pair_outcome(Err(words)) == Err::<(Seq<char>, Seq<char>), Seq<char>>(words@),
        identity::reference_outcome(Ok(reference)) == Ok::<sandbox::ReferenceView, Seq<char>>(
            reference@,
        ),
        identity::reference_outcome(Err(words)) == Err::<sandbox::ReferenceView, Seq<char>>(words@),
        storage::manifest_outcome(Ok(references)) is Ok,
        storage::manifest_outcome(Ok(references))->Ok_0.len() == references@.len(),
        forall|i: int|
            0 <= i < references@.len() ==> #[trigger] storage::manifest_outcome(
                Ok(references),
            )->Ok_0[i] == references@[i]@,
        storage::manifest_outcome(Err(words)) == Err::<Seq<sandbox::ReferenceView>, Seq<char>>(
            words@,
        ),
        population::resolved_outcome(Ok(resolved)) == Ok::<population::ResolvedView, Seq<char>>(
            resolved@,
        ),
        population::resolved_outcome(Err(words)) == Err::<population::ResolvedView, Seq<char>>(
            words@,
        ),
        capacity::absence_outcome(Ok(absence)) == Ok::<AbsenceView, Seq<char>>(absence@),
        capacity::absence_outcome(Err(words)) == Err::<AbsenceView, Seq<char>>(words@),
        absence is Proven <==> absence@ is Proven,
        absence is Present <==> absence@ is Present,
        absence matches Absence::Blocked(message) ==> absence@ == AbsenceView::Blocked(message@),
        text::outcome(Ok(words)) == Ok::<Seq<char>, Seq<char>>(words@),
        text::outcome(Err(words)) == Err::<Seq<char>, Seq<char>>(words@),
        text::reported(Ok(())) is None,
        text::reported(Err(words)) == Some(words@),
{
}

/// A network policy shows its selector, its types and its rules, and each rule its peers.
pub proof fn law_policies_show_their_rules(policy: NetworkPolicySpec)
    ensures
        policy.pod_selector is None <==> policy@.pod_selector is None,
        policy.pod_selector matches Some(selector) ==> policy@.pod_selector == Some(selector@),
        policy.policy_types is None <==> policy@.policy_types is None,
        policy.policy_types matches Some(types) ==> policy@.policy_types == Some(
            text::texts(types@),
        ),
        policy.ingress is None <==> policy@.ingress is None,
        policy.ingress matches Some(rules) ==> policy@.ingress->0.len() == rules@.len() && forall|
            i: int,
        |
            0 <= i < rules@.len() ==> #[trigger] policy@.ingress->0[i] == rules@[i]@,
        policy.egress is None <==> policy@.egress is None,
        policy.egress matches Some(rules) ==> policy@.egress->0.len() == rules@.len() && forall|
            i: int,
        |
            0 <= i < rules@.len() ==> #[trigger] policy@.egress->0[i] == rules@[i]@,
{
}

/// A rule shows its peers, and a peer its block of addresses and its selectors.
pub proof fn law_rules_show_their_peers(rule: k8s::NetworkPolicyRule, at: int)
    ensures
        rule.peers is None <==> rule@.peers is None,
        rule.peers matches Some(peers) ==> {
            &&& rule@.peers->0.len() == peers@.len()
            &&& 0 <= at < peers@.len() ==> {
                let peer = peers@[at];
                let shown = rule@.peers->0[at];
                &&& peer.namespace_selector is None <==> shown.namespace_selector is None
                &&& peer.namespace_selector matches Some(selector) ==> shown.namespace_selector
                    == Some(selector@)
                &&& peer.pod_selector is None <==> shown.pod_selector is None
                &&& peer.pod_selector matches Some(selector) ==> shown.pod_selector == Some(
                    selector@,
                )
                &&& peer.ip_block is None <==> shown.ip_block is None
                &&& peer.ip_block matches Some(block) ==> shown.ip_block->0.cidr == block.cidr@ && (
                block.except is None <==> shown.ip_block->0.except is None) && (
                block.except matches Some(except) ==> shown.ip_block->0.except == Some(
                    text::texts(except@),
                ))
            }
        },
{
}

/// The projected Pod specification is the template's `spec.podTemplate.spec`, whatever
/// is in it; without one, or without a projection, there is none.
pub proof fn law_projection_is_the_templates_pod(
    template: Json,
    spec: json::JsonView,
    words: String,
)
    ensures
        population::projection(Ok(template)) == Ok::<json::JsonView, Seq<char>>(spec) <==> {
            &&& template@.get("spec"@) matches Some(held)
            &&& held.get("podTemplate"@) matches Some(pod)
            &&& pod.get("spec"@) == Some(spec)
        },
        population::projection(Ok(template)) matches Err(error) ==> error
            == "restricted template has no Pod spec"@,
        population::projection(Err(words)) == Err::<json::JsonView, Seq<char>>(
            "could not project the restricted template: "@ + words@,
        ),
{
}

/// Every scheduled Pod is held to the specification that was parsed, and to none where
/// parsing failed.
pub proof fn law_pods_are_held_to_the_parsed_spec(spec: PodSpec, words: String)
    ensures
        population::expected_pod(Ok(spec)) == Ok::<PodSpec, Seq<char>>(spec),
        population::expected_pod(Err(words)) == Err::<PodSpec, Seq<char>>(
            "invalid projected Pod spec: "@ + words@,
        ),
{
}

/// A census begins, with the runtime, exactly where the pool is of the trusted tier.
pub proof fn law_census_begins_for_the_trusted_tier(pool: SandboxPool)
    ensures
        census::census_first(pool) is Ok <==> pool.spec.isolation is TrustedRunc,
        census::census_first(pool) matches Ok(stage) ==> stage == CensusStageView::Runtime,
{
}

/// An object has one of these controllers exactly where one of its owners controls it
/// and has one of these UIDs.
pub proof fn law_controller_is_an_owner(meta: ObjectMeta, owner_uids: Seq<Seq<char>>)
    ensures
        storage::has_controller(meta@, owner_uids) <==> exists|i: int, k: int|
            0 <= i < meta.owner_references@.len() && 0 <= k < owner_uids.len()
                && (#[trigger] meta.owner_references@[i]).controller == Some(true)
                && meta.owner_references@[i].uid@ == #[trigger] owner_uids[k],
{
    crate::base_laws::law_metadata_reads_its_fields(meta);
    if storage::has_controller(meta@, owner_uids) {
        let k = choose|k: int|
            0 <= k < owner_uids.len() && meta@.controlled_by_uid(#[trigger] owner_uids[k]);
        let i = choose|i: int|
            0 <= i < meta.owner_references@.len() && {
                let owner = #[trigger] meta.owner_references@[i];
                owner.controller == Some(true) && owner.uid@ == owner_uids[k]
            };
        assert(meta.owner_references@[i].uid@ == owner_uids[k]);
    }
    if exists|i: int, k: int|
        0 <= i < meta.owner_references@.len() && 0 <= k < owner_uids.len() && (
        #[trigger] meta.owner_references@[i]).controller == Some(true)
            && meta.owner_references@[i].uid@ == #[trigger] owner_uids[k] {
        let (i, k) = choose|i: int, k: int|
            0 <= i < meta.owner_references@.len() && 0 <= k < owner_uids.len() && (
            #[trigger] meta.owner_references@[i]).controller == Some(true)
                && meta.owner_references@[i].uid@ == #[trigger] owner_uids[k];
        assert(meta@.controlled_by_uid(owner_uids[k]));
    }
}

/// The record of an object by its kind: the claim, the sandbox, and nothing of any
/// other kind.
pub proof fn law_records_are_kept_by_kind(
    status: SandboxPoolCertificationStatus,
    kind: Seq<char>,
)
    ensures
        capacity::recorded_of_kind(status, "SandboxClaim"@) == status.sandbox_claim,
        capacity::recorded_of_kind(status, "Sandbox"@) == status.sandbox,
        kind != "SandboxClaim"@ && kind != "Sandbox"@ ==> capacity::recorded_of_kind(
            status,
            kind,
        ) is None,
{
    reveal_strlit("SandboxClaim");
    reveal_strlit("Sandbox");
    assert("SandboxClaim"@.len() == 12 && "Sandbox"@.len() == 7);
}

/// A recorded object is read exactly where it is found in its namespace under its UID
/// and stays. Found otherwise it has drifted; not found, it is an error, which says
/// whether it cannot be proven or may be tried again.
pub proof fn law_only_the_recorded_object_is_read(
    lookup: Result<DynamicObject, ApiError>,
    namespace: Seq<char>,
    recorded: SandboxObjectReference,
    result: Result<ExactRead, String>,
)
    requires
        capacity::read_dynamic_exact_gives(lookup, namespace, recorded@, result),
    ensures
        (result matches Ok(ExactRead::Exact(_))) <==> (lookup matches Ok(found)
            && step_laws::is_recorded_and_stays(found, namespace, recorded)),
        result matches Ok(ExactRead::Exact(read)) ==> lookup == Ok::<DynamicObject, ApiError>(read),
        result is Err <==> lookup is Err,
        result matches Ok(ExactRead::Drifted(message)) ==> message@ == "recorded "@ + recorded.kind@
            + " is deleting or no longer matches its checkpointed identity"@,
        lookup matches Err(error) ==> (result matches Err(message) && message@ == (if error.code
            == Some(404u16) || error.code == Some(403u16) {
            "recorded "@ + recorded.kind@ + " cannot be proven: "@ + error.response@
        } else {
            "recorded "@ + recorded.kind@ + " lookup failed: "@ + error.error@
        })),
{
}

/// A fence is named by the head of the fingerprint that takes exactly forty bytes, the
/// shortest one; where no head does, there is no name.
pub proof fn law_fence_is_named_by_forty_bytes(fingerprint: Seq<char>, from: int)
    requires
        0 <= from <= fingerprint.len() + 1,
    ensures
        names::forty_bytes(fingerprint, from) matches Some(cut) ==> {
            &&& from <= cut <= fingerprint.len()
            &&& encode_utf8(fingerprint.take(cut)).len() == 40
            &&& forall|i: int|
                from <= i < cut ==> encode_utf8(#[trigger] fingerprint.take(i)).len() != 40
        },
        names::forty_bytes(fingerprint, from) is None <==> forall|i: int|
            from <= i <= fingerprint.len() ==> encode_utf8(#[trigger] fingerprint.take(i)).len()
                != 40,
    decreases fingerprint.len() + 1 - from,
{
    if from <= fingerprint.len() && encode_utf8(fingerprint.take(from)).len() != 40 {
        law_fence_is_named_by_forty_bytes(fingerprint, from + 1);
    }
}

/// A label of a claim is in order exactly where it has the expected value; otherwise the
/// report names the label, what it is and what it should be.
pub proof fn law_label_is_in_order_exactly(
    claim: k8s::MetaView,
    key: Seq<char>,
    expected: Seq<char>,
)
    ensures
        claim::label_error(claim, key, expected) is None <==> claim.label(key) == Some(expected),
        claim::label_error(claim, key, expected) matches Some(report) ==> report
            == "certification Claim metadata drifted from the exact Pool: label "@ + key + " is "@
            + claim::debug_text(
            match claim.label(key) {
                Some(found) => found,
                None => "<absent>"@,
            },
        ) + ", expected "@ + claim::debug_text(expected),
{
}

/// How a pool's sandboxes are selected and its policy is named.
pub proof fn law_upstream_objects_are_found_by_name(
    warm_pool_name: Seq<char>,
    template: k8s::MetaView,
)
    ensures
        population::selector_text(warm_pool_name) == "agents.x-k8s.io/warm-pool-sandbox"@ + "="@
            + names::name_hash(warm_pool_name),
        population::policy_name(template) == template.any_name() + "-network-policy"@,
{
}

/// What the fingerprint takes in of a template, member by member: its containers and
/// ports in their order, and the runner's path only where there is one.
pub proof fn law_template_evidence_by_member(template: SandboxTemplateSpec, at: int)
    ensures
        ({
            &&& fingerprint::template_value(template) matches json::JsonView::Object(members)
            &&& members.len() == (if template.runner_path is Some {
                4int
            } else {
                3
            })
            &&& members[0].0 == "containers"@
            &&& members[0].1 matches json::JsonView::Array(containers)
            &&& containers.len() == template.containers@.len()
            &&& 0 <= at < containers.len() ==> containers[at] == fingerprint::container_value(
                template.containers@[at],
            )
            &&& members[1] == ("defaultContainer"@, json::JsonView::Text(
                template.default_container@,
            ))
            &&& members[2].0 == "exposedPorts"@
            &&& members[2].1 matches json::JsonView::Array(ports)
            &&& ports.len() == template.exposed_ports@.len()
            &&& 0 <= at < ports.len() ==> ports[at] == fingerprint::port_value(
                template.exposed_ports@[at],
            )
            &&& template.runner_path matches Some(path) ==> members[3] == ("runnerPath"@,
            json::JsonView::Text(path@))
        }),
{
}

/// What the fingerprint takes in of a container and of a port, member by member.
pub proof fn law_container_evidence_by_member(container: SandboxContainerSpec, port: SandboxPortSpec)
    ensures
        fingerprint::container_value(container) == json::JsonView::Object(
            seq![
                (
                    "args"@,
                    json::JsonView::Array(
                        container.args@.map_values(|word: String| json::JsonView::Text(word@)),
                    ),
                ),
                (
                    "command"@,
                    json::JsonView::Array(
                        container.command@.map_values(|word: String| json::JsonView::Text(word@)),
                    ),
                ),
                ("image"@, json::JsonView::Text(container.image@)),
                ("name"@, json::JsonView::Text(container.name@)),
                (
                    "resources"@,
                    json::JsonView::Object(
                        seq![
                            ("limits"@, fingerprint::quantity_value(container.resources.limits)),
                            (
                                "requests"@,
                                fingerprint::quantity_value(container.resources.requests),
                            ),
                        ],
                    ),
                ),
            ],
        ),
        fingerprint::quantity_value(container.resources.limits) == json::JsonView::Object(
            seq![
                ("cpu"@, json::JsonView::Text(container.resources.limits.cpu@)),
                (
                    "ephemeralStorage"@,
                    json::JsonView::Text(container.resources.limits.ephemeral_storage@),
                ),
                ("memory"@, json::JsonView::Text(container.resources.limits.memory@)),
            ],
        ),
        fingerprint::port_value(port) == json::JsonView::Object(
            seq![
                ("container"@, json::JsonView::Text(port.container@)),
                ("name"@, json::JsonView::Text(port.name@)),
                ("port"@, json::JsonView::Number(json::NumberView::Integer(port.port as int))),
            ],
        ),
{
    assert(json::text_views(text::texts(container.args@)) =~= container.args@.map_values(
        |word: String| json::JsonView::Text(word@),
    ));
    assert(json::text_views(text::texts(container.command@)) =~= container.command@.map_values(
        |word: String| json::JsonView::Text(word@),
    ));
}

} // verus!
