//! What the small decisions and wordings of the custom resources come to.

use crate::crd::profile::{self, ClusterConfig};
use crate::crd::sandbox::{
    PoolFault, SandboxIsolation, SandboxLeasePhase, SandboxObjectReference,
    SandboxPoolValidationError,
};
use crate::crd::teardown::{
    self, CleanupMode, CreationManifestInvalid, CreationManifestResource,
    KubernetesResourceIdentity, TeardownReceipt, TeardownSubject, VerifiedDestroyIneligible,
};
use crate::digest;
use crate::number;
use vstd::prelude::*;

verus! {

/// Evidence is needed under verified destruction and under no other mode.
pub proof fn law_only_verified_destruction_needs_evidence(mode: CleanupMode)
    ensures
        mode.needs_receipt() <==> mode == CleanupMode::VerifiedDestroy,
        !mode.needs_receipt() <==> mode == CleanupMode::Standard,
{
}

/// Only the two clean ends free a lease's capacity: while it waits, is provisioned, is
/// ready, is being released or is quarantined, it counts.
pub proof fn law_only_a_clean_end_frees_capacity(phase: SandboxLeasePhase)
    ensures
        phase.holds_capacity() <==> phase == SandboxLeasePhase::Pending || phase
            == SandboxLeasePhase::Provisioning || phase == SandboxLeasePhase::Ready || phase
            == SandboxLeasePhase::Releasing || phase == SandboxLeasePhase::Quarantined,
        !phase.holds_capacity() <==> phase == SandboxLeasePhase::Released || phase
            == SandboxLeasePhase::Expired,
{
}

/// The trusted tier is the one without a runtime class; each hardened tier has the one
/// that it names.
pub proof fn law_hardened_tiers_have_a_runtime_class(isolation: SandboxIsolation)
    ensures
        isolation.trusted() <==> isolation.runtime_class_text() is None,
        isolation matches SandboxIsolation::TrustedRunc {  } ==> isolation.trusted(),
        isolation matches SandboxIsolation::Gvisor { runtime_class_name }
            ==> isolation.runtime_class_text() == Some(runtime_class_name@),
        isolation matches SandboxIsolation::Kata { runtime_class_name }
            ==> isolation.runtime_class_text() == Some(runtime_class_name@),
{
}

/// A side of the requirements is carried exactly where something is constrained, and
/// then with every pair in its place.
pub proof fn law_only_given_constraints_are_carried(
    pairs: Seq<(String, String)>,
    carried: Option<Vec<(String, String)>>,
)
    requires
        profile::constrained(pairs, carried),
    ensures
        carried is None <==> pairs.len() == 0,
        carried matches Some(carried) ==> {
            &&& carried@.len() == pairs.len()
            &&& forall|i: int|
                #![trigger pairs[i]]
                #![trigger carried@[i]]
                0 <= i < pairs.len() ==> carried@[i].0@ == pairs[i].0@ && carried@[i].1@
                    == pairs[i].1@
        },
{
    if let Some(carried) = carried {
        assert forall|i: int|
            #![trigger pairs[i]]
            #![trigger carried@[i]]
            0 <= i < pairs.len() implies carried@[i].0@ == pairs[i].0@ && carried@[i].1@
            == pairs[i].1@ by {
            assert(crate::text::pair_texts(carried@).len() == carried@.len());
            assert(crate::text::pair_texts(carried@)[i] == (carried@[i].0@, carried@[i].1@));
            assert(crate::text::pair_texts(pairs)[i] == (pairs[i].0@, pairs[i].1@));
        }
        assert(crate::text::pair_texts(carried@).len() == carried@.len());
        assert(crate::text::pair_texts(pairs).len() == pairs.len());
    }
}

/// Which controllers and which syncers are on by default: these and no others.
pub proof fn law_default_controllers_and_syncers(name: Seq<char>)
    ensures
        profile::kcm_controllers().len() == 9,
        profile::kcm_controllers().contains(name) <==> name == "deployment"@ || name
            == "replicaset"@ || name == "statefulset"@ || name == "daemonset"@ || name == "job"@
            || name == "cronjob"@ || name == "namespace"@ || name == "serviceaccount"@ || name
            == "garbagecollector"@,
        profile::vkobe_syncers().len() == 6,
        profile::vkobe_syncers().contains(name) <==> name == "pods"@ || name == "services"@ || name
            == "configmaps"@ || name == "secrets"@ || name == "endpoints"@ || name
            == "ingresses"@,
{
    let controllers = profile::kcm_controllers();
    assert(controllers[0] == "deployment"@ && controllers[1] == "replicaset"@ && controllers[2]
        == "statefulset"@ && controllers[3] == "daemonset"@ && controllers[4] == "job"@
        && controllers[5] == "cronjob"@ && controllers[6] == "namespace"@ && controllers[7]
        == "serviceaccount"@ && controllers[8] == "garbagecollector"@);
    let syncers = profile::vkobe_syncers();
    assert(syncers[0] == "pods"@ && syncers[1] == "services"@ && syncers[2] == "configmaps"@
        && syncers[3] == "secrets"@ && syncers[4] == "endpoints"@ && syncers[5] == "ingresses"@);
}

/// A reference shows the object that it is to, field by field, and so does a recorded
/// identity.
pub proof fn law_references_show_their_fields(
    reference: SandboxObjectReference,
    identity: KubernetesResourceIdentity,
)
    ensures
        reference@.api_version == reference.api_version@,
        reference@.kind == reference.kind@,
        reference@.name == reference.name@,
        reference@.uid == reference.uid@,
        reference@.generation == reference.generation,
        reference@.namespace is None <==> reference.namespace is None,
        reference.namespace matches Some(namespace) ==> reference@.namespace == Some(namespace@),
        identity@.api_version == identity.api_version@,
        identity@.kind == identity.kind@,
        identity@.name == identity.name@,
        identity@.uid == identity.uid@,
        identity@.namespace is None <==> identity.namespace is None,
        identity.namespace matches Some(namespace) ==> identity@.namespace == Some(namespace@),
{
}

/// Which error stands for which fault of a pool, with the names in it.
pub proof fn law_errors_show_their_faults(
    error: SandboxPoolValidationError,
)
    ensures
        error matches SandboxPoolValidationError::EmptyDuration(field) ==> error@
            == PoolFault::EmptyDuration(field@),
        error is WarmCapacityTooLarge ==> error@ == PoolFault::WarmCapacityTooLarge,
        error is EmptyClusterPoolRef ==> error@ == PoolFault::EmptyClusterPoolRef,
        error is NoContainers ==> error@ == PoolFault::NoContainers,
        error is EmptyContainerName ==> error@ == PoolFault::EmptyContainerName,
        error matches SandboxPoolValidationError::DuplicateContainer(name) ==> error@
            == PoolFault::DuplicateContainer(name@),
        error matches SandboxPoolValidationError::EmptyContainerImage(name) ==> error@
            == PoolFault::EmptyContainerImage(name@),
        error matches SandboxPoolValidationError::EmptyResource { container, field } ==> error@
            == (PoolFault::EmptyResource { container: container@, field: field@ }),
        error matches SandboxPoolValidationError::UnknownDefaultContainer(name) ==> error@
            == PoolFault::UnknownDefaultContainer(name@),
        error is EmptyPortName ==> error@ == PoolFault::EmptyPortName,
        error matches SandboxPoolValidationError::DuplicatePortName(name) ==> error@
            == PoolFault::DuplicatePortName(name@),
        error matches SandboxPoolValidationError::ZeroPort(name) ==> error@ == PoolFault::ZeroPort(
            name@,
        ),
        error matches SandboxPoolValidationError::UnknownPortContainer { port, container }
            ==> error@ == (PoolFault::UnknownPortContainer { port: port@, container: container@ }),
        error matches SandboxPoolValidationError::DuplicateContainerPort { container, port }
            ==> error@ == (PoolFault::DuplicateContainerPort { container: container@, port }),
        error is EmptyRuntimeClass ==> error@ == PoolFault::EmptyRuntimeClass,
        error is EmptyCanaryArgv ==> error@ == PoolFault::EmptyCanaryArgv,
        error is EmptyCanaryTimeout ==> error@ == PoolFault::EmptyCanaryTimeout,
{
}

/// How the faults of a pool are worded, by the names in them.
pub proof fn law_pool_faults_are_worded(name: Seq<char>, other: Seq<char>, port: u16)
    ensures
        PoolFault::EmptyDuration(name).message_text() == name + " must not be empty"@,
        PoolFault::WarmCapacityTooLarge.message_text()
            == "warmCapacity exceeds upstream int32 replicas"@,
        PoolFault::EmptyClusterPoolRef.message_text()
            == "childCluster placement requires a non-empty clusterPoolRef"@,
        PoolFault::NoContainers.message_text() == "template must contain at least one container"@,
        PoolFault::EmptyContainerName.message_text() == "container name must not be empty"@,
        PoolFault::DuplicateContainer(name).message_text() == "duplicate container name "@ + name,
        PoolFault::EmptyContainerImage(name).message_text() == "container "@ + name
            + " has an empty image"@,
        (PoolFault::EmptyResource { container: name, field: other }).message_text()
            == "container "@ + name + " has an empty "@ + other + " resource quantity"@,
        PoolFault::UnknownDefaultContainer(name).message_text() == "default container "@ + name
            + " is not declared"@,
        PoolFault::EmptyPortName.message_text() == "port name must not be empty"@,
        PoolFault::DuplicatePortName(name).message_text() == "duplicate port name "@ + name,
        PoolFault::ZeroPort(name).message_text() == "port "@ + name
            + " must be in the range 1-65535"@,
        (PoolFault::UnknownPortContainer { port: name, container: other }).message_text()
            == "port "@ + name + " references undeclared container "@ + other,
        (PoolFault::DuplicateContainerPort { container: name, port }).message_text()
            == "container "@ + name + " exposes port "@ + number::decimal(port as nat)
            + " more than once"@,
        PoolFault::EmptyRuntimeClass.message_text()
            == "hardened isolation requires a non-empty runtimeClassName"@,
        PoolFault::EmptyCanaryArgv.message_text()
            == "readiness canary argv must contain non-empty arguments"@,
        PoolFault::EmptyCanaryTimeout.message_text()
            == "readiness canary timeout must not be empty"@,
{
}

/// How a refused manifest and an ineligible cluster are worded.
pub proof fn law_refusals_are_worded(
    invalid: CreationManifestInvalid,
    ineligible: VerifiedDestroyIneligible,
)
    ensures
        invalid is UnsupportedSchema ==> invalid.message_text()
            == "unsupported creation manifest schema"@,
        invalid is IncompleteIdentity ==> invalid.message_text()
            == "creation manifest identity or timestamp is incomplete"@,
        invalid is DuplicateResource ==> invalid.message_text()
            == "creation manifest contains a duplicate concrete resource"@,
        invalid is MultiplicityMismatch ==> invalid.message_text()
            == "creation manifest does not match its declared multiplicity"@,
        invalid is StorageUnverifiable ==> invalid.message_text()
            == "dynamic storage provenance is incomplete or not reclaimable"@,
        invalid is DatastoreUnverifiable ==> invalid.message_text()
            == "external datastore provenance is incomplete"@,
        ineligible is UnsupportedBackend ==> ineligible.code_text() == "unsupported_backend"@
            && ineligible.message_text() == "backend does not implement verified teardown"@,
        ineligible is KubeletSharedMount ==> ineligible.code_text() == "kubelet_shared_mount"@
            && ineligible.message_text()
            == "kubeletSharedMount leaves host state this receipt cannot account for"@,
        ineligible is DiagnosticsEnabled ==> ineligible.code_text() == "diagnostics_enabled"@
            && ineligible.message_text()
            == "diagnostics capture writes objects whose deletion is not receipt-verifiable"@,
        ineligible is UnverifiableStorage ==> ineligible.code_text() == "unverifiable_storage"@
            && ineligible.message_text()
            == "storage is neither ephemeral nor dynamically provisioned with an observable volume"@,
        ineligible is DatastoreProvenanceMissing ==> ineligible.code_text()
            == "datastore_provenance_missing"@ && ineligible.message_text()
            == "external datastore identity was not recorded, so its absence cannot be proven"@,
{
}

/// A text has a token's form exactly where it is the algorithm's name, a colon and 64
/// hexadecimal digits in lower case.
pub proof fn law_tokens_are_digests(token: Seq<char>)
    ensures
        TeardownReceipt::has_token_form(token) <==> token.len() == 71 && token.subrange(0, 7)
            == "sha256:"@ && forall|i: int|
            7 <= i < 71 ==> '0' <= #[trigger] token[i] <= '9' || 'a' <= token[i] <= 'f',
{
    if token.len() == 71 {
        assert(token.take(7) =~= token.subrange(0, 7));
        assert forall|i: int| 7 <= i < 71 implies digest::is_hex_digit(#[trigger] token[i]) == (
        digest::is_hex_digit(token.skip(7)[i - 7])) by {
            assert(token.skip(7)[i - 7] == token[i]);
        }
        if forall|i: int|
            7 <= i < 71 ==> '0' <= #[trigger] token[i] <= '9' || 'a' <= token[i] <= 'f' {
            assert forall|i: int| 0 <= i < token.skip(7).len() implies digest::is_hex_digit(
                #[trigger] token.skip(7)[i],
            ) by {
                assert(token.skip(7)[i] == token[i + 7]);
            }
        }
        if digest::all_hex_digits(token.skip(7)) {
            assert forall|i: int| 7 <= i < 71 implies '0' <= #[trigger] token[i] <= '9' || 'a'
                <= token[i] <= 'f' by {
                assert(digest::is_hex_digit(token.skip(7)[i - 7]));
            }
        }
    }
}

/// What every cluster leaves stands first in its plan, in this order, and what an
/// external datastore adds stands last.
pub proof fn law_plans_share_their_order(cluster: ClusterConfig)
    ensures
        teardown::k3s_plan(cluster, false).len() >= 8,
        teardown::k3s_plan(cluster, false).take(8) == seq![
            TeardownSubject::ServerStatefulSet,
            TeardownSubject::ServerPods,
            TeardownSubject::Service,
            TeardownSubject::PublisherConfigMap,
            TeardownSubject::TokenSecret,
            TeardownSubject::KubeconfigSecret,
            TeardownSubject::CidrClaim,
            TeardownSubject::ConnectTokenSecret,
        ],
        teardown::k3s_plan(cluster, true) == teardown::k3s_plan(cluster, false) + seq![
            TeardownSubject::DatastoreCredentialSecret,
            TeardownSubject::Database,
            TeardownSubject::DatabaseRole,
        ],
{
    assert(teardown::k3s_plan(cluster, true) =~= teardown::k3s_plan(cluster, false) + seq![
        TeardownSubject::DatastoreCredentialSecret,
        TeardownSubject::Database,
        TeardownSubject::DatabaseRole,
    ]);
}

/// The subjects of a manifest with one more resource: those that it had, and behind them
/// that resource's, if it is a new one.
pub proof fn law_subjects_come_in_the_order_of_the_resources(
    resources: Seq<CreationManifestResource>,
    added: CreationManifestResource,
)
    ensures
        teardown::first_subjects(Seq::<CreationManifestResource>::empty()).len() == 0,
        teardown::first_subjects(resources.push(added)) == (if teardown::first_subjects(
            resources,
        ).contains(added.subject) {
            teardown::first_subjects(resources)
        } else {
            teardown::first_subjects(resources).push(added.subject)
        }),
{
    assert(resources.push(added).drop_last() =~= resources);
}

} // verus!
