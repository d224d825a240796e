//! What verified teardown promises as a whole.

use crate::crd::profile::{BackendType, ClusterConfig, DiagnosticsConfig};
use crate::crd::teardown::{
    self, CreationManifestResource, TeardownCheck, TeardownCreationManifest, TeardownReceipt,
    TeardownScope, TeardownSubject,
};
use crate::text;
use vstd::prelude::*;

verus! {

/// One unknown subject quarantines the whole attempt, whatever else was verified.
pub proof fn law_one_unknown_quarantines(checks: Seq<TeardownCheck>, at: int)
    requires
        0 <= at < checks.len(),
        checks[at].result is Unknown,
    ensures
        teardown::aggregate(checks) is Quarantined,
{
}

/// A receipt with an unknown subject releases nothing, and neither does one
/// whose recorded outcome is not what its evidence amounts to.
pub proof fn law_release_needs_agreeing_evidence(
    receipt: TeardownReceipt,
    expected: TeardownScope<'_>,
    completed_after_start: bool,
)
    requires
        receipt.releases(expected, completed_after_start),
    ensures
        receipt.outcome == teardown::aggregate(receipt.checks@),
        completed_after_start,
{
}

/// A receipt that releases capacity holds verified checks alone: none is
/// unknown and none excuses a subject as never built.
pub proof fn law_release_has_verified_checks_only(
    receipt: TeardownReceipt,
    expected: TeardownScope<'_>,
    completed_after_start: bool,
)
    requires
        receipt.releases(expected, completed_after_start),
    ensures
        forall|i: int|
            0 <= i < receipt.checks@.len() ==> (#[trigger] receipt.checks@[i]).result is Verified,
{
    assert forall|i: int| 0 <= i < receipt.checks@.len() implies (
    #[trigger] receipt.checks@[i]).result is Verified by {
        lemma_check_is_sole(receipt, expected, completed_after_start, i);
    }
}

proof fn lemma_check_is_sole(
    receipt: TeardownReceipt,
    expected: TeardownScope<'_>,
    completed_after_start: bool,
    i: int,
)
    requires
        receipt.releases(expected, completed_after_start),
        0 <= i < receipt.checks@.len(),
    ensures
        receipt.sole_verified_check(expected, i),
{
    let subject = receipt.checks@[i].subject;
    assert(expected.required_subjects@.contains(subject));
    let at = choose|at: int|
        0 <= at < expected.required_subjects@.len() && expected.required_subjects@[at] == subject;
    assert(receipt.covers(expected, expected.required_subjects@[at]));
    let j = choose|j: int|
        #[trigger] receipt.sole_verified_check(expected, j) && receipt.checks@[j].subject
            == subject;
    if j != i {
        assert(receipt.checks@[i].subject != receipt.checks@[j].subject);
    }
}

/// A receipt that releases capacity covers exactly the required subjects: each
/// has one check, no subject is checked twice and no other subject is checked.
pub proof fn law_release_covers_exactly_the_required_subjects(
    receipt: TeardownReceipt,
    expected: TeardownScope<'_>,
    completed_after_start: bool,
)
    requires
        receipt.releases(expected, completed_after_start),
    ensures
        forall|i: int, j: int|
            0 <= i < j < receipt.checks@.len() ==> (#[trigger] receipt.checks@[i]).subject != (
            #[trigger] receipt.checks@[j]).subject,
        forall|subject: TeardownSubject|
            #[trigger] expected.required_subjects@.contains(subject) <==> exists|i: int|
                0 <= i < receipt.checks@.len() && (#[trigger] receipt.checks@[i]).subject
                    == subject,
{
    assert forall|i: int, j: int| 0 <= i < j < receipt.checks@.len() implies (
    #[trigger] receipt.checks@[i]).subject != (#[trigger] receipt.checks@[j]).subject by {
        lemma_check_is_sole(receipt, expected, completed_after_start, j);
    }
    assert forall|subject: TeardownSubject|
        #[trigger] expected.required_subjects@.contains(subject) implies exists|i: int|
        0 <= i < receipt.checks@.len() && (#[trigger] receipt.checks@[i]).subject == subject by {
        let at = choose|at: int|
            0 <= at < expected.required_subjects@.len() && expected.required_subjects@[at]
                == subject;
        assert(receipt.covers(expected, expected.required_subjects@[at]));
        let j = choose|j: int|
            #[trigger] receipt.sole_verified_check(expected, j) && receipt.checks@[j].subject
                == subject;
        assert(receipt.checks@[j].subject == subject);
    }
}

/// A receipt belongs to one footprint: two scopes that it releases agree on the
/// attempt, the lease, the instance, the pool, their UIDs and their provenance.
pub proof fn law_receipt_cannot_be_replayed(
    receipt: TeardownReceipt,
    expected: TeardownScope<'_>,
    other: TeardownScope<'_>,
    completed_after_start: bool,
)
    requires
        receipt.releases(expected, completed_after_start),
        receipt.releases(other, completed_after_start),
    ensures
        expected.attempt_id@ == other.attempt_id@,
        expected.lease@ == other.lease@,
        expected.instance@ == other.instance@,
        expected.pool@ == other.pool@,
        expected.backend_type@ == other.backend_type@,
        expected.config_digest@ == other.config_digest@,
        expected.instance_spec_digest@ == other.instance_spec_digest@,
        expected.creation_manifest_digest@ == other.creation_manifest_digest@,
        expected.cleanup_mode == other.cleanup_mode,
        expected.lease@.1 is Some && !text::is_blank(expected.lease@.1->0),
        expected.instance@.1 is Some && !text::is_blank(expected.instance@.1->0),
        expected.pool@.1 is Some && !text::is_blank(expected.pool@.1->0),
{
}

/// An empty plan releases nothing.
pub proof fn law_empty_plan_never_releases(
    receipt: TeardownReceipt,
    expected: TeardownScope<'_>,
    completed_after_start: bool,
)
    requires
        expected.required_subjects@.len() == 0,
    ensures
        !receipt.releases(expected, completed_after_start),
{
}

/// A receipt of a standard cleanup never releases capacity that was leased
/// under verified destruction.
pub proof fn law_standard_receipt_never_releases_verified_capacity(
    receipt: TeardownReceipt,
    expected: TeardownScope<'_>,
    completed_after_start: bool,
)
    requires
        receipt.cleanup_mode is Standard,
        expected.cleanup_mode is VerifiedDestroy,
    ensures
        !receipt.releases(expected, completed_after_start),
{
}

proof fn lemma_first_subjects(resources: Seq<CreationManifestResource>)
    ensures
        teardown::first_subjects(resources).no_duplicates(),
        forall|subject: TeardownSubject|
            #[trigger] teardown::first_subjects(resources).contains(subject) <==> exists|i: int|
                0 <= i < resources.len() && (#[trigger] resources[i]).subject == subject,
    decreases resources.len(),
{
    let all = teardown::first_subjects(resources);
    if resources.len() > 0 {
        let less = resources.drop_last();
        let rest = teardown::first_subjects(less);
        lemma_first_subjects(less);
        assert forall|subject: TeardownSubject| #[trigger] all.contains(subject) implies exists|
            i: int,
        | 0 <= i < resources.len() && (#[trigger] resources[i]).subject == subject by {
            if rest.contains(subject) {
                let i = choose|i: int| 0 <= i < less.len() && (#[trigger] less[i]).subject == subject;
                assert(resources[i].subject == subject);
            } else {
                assert(resources[resources.len() - 1].subject == subject);
            }
        }
        assert forall|subject: TeardownSubject|
            (exists|i: int| 0 <= i < resources.len() && (#[trigger] resources[i]).subject == subject)
            implies #[trigger] all.contains(subject) by {
            let i = choose|i: int|
                0 <= i < resources.len() && (#[trigger] resources[i]).subject == subject;
            if i < less.len() {
                assert(less[i].subject == subject);
                assert(rest.contains(subject));
                let k = choose|k: int| 0 <= k < rest.len() && rest[k] == subject;
                assert(all[k] == subject);
            } else if !rest.contains(subject) {
                assert(all[all.len() - 1] == subject);
            } else {
                let k = choose|k: int| 0 <= k < rest.len() && rest[k] == subject;
                assert(all[k] == subject);
            }
        }
    }
}

proof fn lemma_ids_of(resources: Seq<CreationManifestResource>, subject: TeardownSubject)
    ensures
        forall|id: Seq<char>|
            #[trigger] teardown::ids_of(resources, subject).contains(id) <==> exists|i: int|
                0 <= i < resources.len() && (#[trigger] resources[i]).subject == subject
                    && resources[i].resource@.canonical_id() == id,
        teardown::ids_of(resources, subject).len() == teardown::count_of(resources, subject),
    decreases resources.len(),
{
    let all = teardown::ids_of(resources, subject);
    if resources.len() > 0 {
        let less = resources.drop_last();
        let rest = teardown::ids_of(less, subject);
        lemma_ids_of(less, subject);
        assert forall|id: Seq<char>| #[trigger] all.contains(id) implies exists|i: int|
            0 <= i < resources.len() && (#[trigger] resources[i]).subject == subject
                && resources[i].resource@.canonical_id() == id by {
            if rest.contains(id) {
                let i = choose|i: int|
                    0 <= i < less.len() && (#[trigger] less[i]).subject == subject
                        && less[i].resource@.canonical_id() == id;
                assert(resources[i].subject == subject);
            } else {
                let k = choose|k: int| 0 <= k < all.len() && all[k] == id;
                assert(k == all.len() - 1) by {
                    if k < rest.len() {
                        assert(rest[k] == id);
                    }
                }
                assert(resources[resources.len() - 1].subject == subject);
            }
        }
        assert forall|id: Seq<char>|
            (exists|i: int|
                0 <= i < resources.len() && (#[trigger] resources[i]).subject == subject
                    && resources[i].resource@.canonical_id() == id) implies #[trigger] all.contains(
            id,
        ) by {
            let i = choose|i: int|
                0 <= i < resources.len() && (#[trigger] resources[i]).subject == subject
                    && resources[i].resource@.canonical_id() == id;
            if i < less.len() {
                assert(less[i].subject == subject);
                assert(rest.contains(id));
                let k = choose|k: int| 0 <= k < rest.len() && rest[k] == id;
                assert(all[k] == id);
            } else {
                assert(all[all.len() - 1] == id);
            }
        }
    }
}

/// A valid manifest never asks for a subject twice.
pub proof fn law_required_subjects_are_unique(
    manifest: TeardownCreationManifest,
    sealed: Option<(i64, u32)>,
)
    requires
        manifest.verdict(sealed) is Ok,
    ensures
        manifest.subjects().no_duplicates(),
{
    lemma_first_subjects(manifest.resources@);
    let recorded = teardown::first_subjects(manifest.resources@);
    assert(!recorded.contains(TeardownSubject::Database)
        && !recorded.contains(TeardownSubject::DatabaseRole)) by {
        if recorded.contains(TeardownSubject::Database) {
            let i = choose|i: int|
                0 <= i < manifest.resources@.len() && (#[trigger] manifest.resources@[i]).subject
                    == TeardownSubject::Database;
            assert(manifest.entry_valid(manifest.resources@[i]));
        }
        if recorded.contains(TeardownSubject::DatabaseRole) {
            let i = choose|i: int|
                0 <= i < manifest.resources@.len() && (#[trigger] manifest.resources@[i]).subject
                    == TeardownSubject::DatabaseRole;
            assert(manifest.entry_valid(manifest.resources@[i]));
        }
    }
    let subjects = manifest.subjects();
    assert forall|i: int, j: int| 0 <= i < j < subjects.len() implies subjects[i]
        != subjects[j] by {
        if j < recorded.len() {
            assert(recorded[i] != recorded[j]);
        } else if i < recorded.len() {
            assert(recorded.contains(recorded[i]));
        }
    }
}

/// Every identity that a manifest records belongs to a subject that it
/// requires, and every identity of a required subject is recorded.
pub proof fn law_recorded_identities_are_those_of_the_subjects(
    manifest: TeardownCreationManifest,
)
    ensures
        forall|id: Seq<char>|
            #[trigger] manifest.identities().contains(id) <==> exists|subject: TeardownSubject|
                manifest.subjects().contains(subject) && #[trigger] manifest.subject_identities(
                    subject,
                ).contains(id),
{
    let resources = manifest.resources@;
    let recorded = resources.map_values(
        |entry: CreationManifestResource| entry.resource@.canonical_id(),
    );
    let firsts = teardown::first_subjects(resources);
    let identities = manifest.identities();
    let subjects = manifest.subjects();
    lemma_first_subjects(resources);
    assert forall|id: Seq<char>| #[trigger] identities.contains(id) implies exists|
        subject: TeardownSubject,
    |
        subjects.contains(subject) && #[trigger] manifest.subject_identities(subject).contains(
            id,
        ) by {
        let k = choose|k: int| 0 <= k < identities.len() && identities[k] == id;
        if k < recorded.len() {
            let subject = resources[k].subject;
            lemma_ids_of(resources, subject);
            let ids = teardown::ids_of(resources, subject);
            assert(ids.contains(id));
            let at = choose|at: int| 0 <= at < ids.len() && ids[at] == id;
            assert(manifest.subject_identities(subject)[at] == id);
            assert(firsts.contains(subject));
            let f = choose|f: int| 0 <= f < firsts.len() && firsts[f] == subject;
            assert(subjects[f] == subject);
            assert(manifest.subject_identities(subject).contains(id));
        } else if k == recorded.len() {
            let subject = TeardownSubject::Database;
            let own = manifest.subject_identities(subject);
            assert(own[own.len() - 1] == id);
            assert(subjects[firsts.len() as int] == subject);
            assert(own.contains(id));
        } else {
            let subject = TeardownSubject::DatabaseRole;
            let own = manifest.subject_identities(subject);
            assert(own[own.len() - 1] == id);
            assert(subjects[firsts.len() as int + 1] == subject);
            assert(own.contains(id));
        }
    }
    assert forall|id: Seq<char>|
        (exists|subject: TeardownSubject|
            subjects.contains(subject) && #[trigger] manifest.subject_identities(subject).contains(
                id,
            )) implies #[trigger] identities.contains(id) by {
        let subject = choose|subject: TeardownSubject|
            subjects.contains(subject) && #[trigger] manifest.subject_identities(subject).contains(
                id,
            );
        let own = manifest.subject_identities(subject);
        let ids = teardown::ids_of(resources, subject);
        lemma_ids_of(resources, subject);
        let at = choose|at: int| 0 <= at < own.len() && own[at] == id;
        if at < ids.len() {
            assert(ids.contains(id));
            let i = choose|i: int|
                0 <= i < resources.len() && (#[trigger] resources[i]).subject == subject
                    && resources[i].resource@.canonical_id() == id;
            assert(recorded[i] == id);
            assert(identities[i] == id);
        } else if subject is Database {
            assert(identities[recorded.len() as int] == id);
        } else {
            assert(identities[recorded.len() as int + 1] == id);
        }
    }
}

/// Whatever a manifest recorded is proven absent before its capacity is
/// released: where the scope holds the manifest and requires its subjects,
/// every identity of the manifest stands in a verified check.
pub proof fn law_release_proves_the_whole_manifest(
    receipt: TeardownReceipt,
    expected: TeardownScope<'_>,
    manifest: TeardownCreationManifest,
    completed_after_start: bool,
    identity: Seq<char>,
)
    requires
        receipt.releases(expected, completed_after_start),
        expected.creation_manifest == Some(&manifest),
        !manifest.subjects().contains(TeardownSubject::ConnectTokenSecret),
        forall|i: int|
            0 <= i < manifest.subjects().len() ==> expected.required_subjects@.contains(
                #[trigger] manifest.subjects()[i],
            ),
        manifest.identities().contains(identity),
    ensures
        receipt.proves(identity),
{
    law_recorded_identities_are_those_of_the_subjects(manifest);
    let subject = choose|subject: TeardownSubject|
        manifest.subjects().contains(subject) && #[trigger] manifest.subject_identities(
            subject,
        ).contains(identity);
    let s = choose|s: int| 0 <= s < manifest.subjects().len() && manifest.subjects()[s] == subject;
    assert(expected.required_subjects@.contains(manifest.subjects()[s]));
    let at = choose|at: int|
        0 <= at < expected.required_subjects@.len() && expected.required_subjects@[at] == subject;
    assert(receipt.covers(expected, expected.required_subjects@[at]));
    let j = choose|j: int|
        #[trigger] receipt.sole_verified_check(expected, j) && receipt.checks@[j].subject
            == subject;
    let check = receipt.checks@[j];
    let own = manifest.subject_identities(subject);
    assert(expected.manifest_identities(manifest, check.subject) == own);
    let k = choose|k: int| 0 <= k < own.len() && own[k] == identity;
    assert(text::texts(check.verified@).contains(own[k]));
    assert(check.result is Verified);
}

/// A valid manifest records no lease-scoped connect token.
pub proof fn law_manifest_never_holds_a_connect_token(
    manifest: TeardownCreationManifest,
    sealed: Option<(i64, u32)>,
)
    requires
        manifest.verdict(sealed) is Ok,
    ensures
        !manifest.subjects().contains(TeardownSubject::ConnectTokenSecret),
{
    lemma_first_subjects(manifest.resources@);
    let recorded = teardown::first_subjects(manifest.resources@);
    let subjects = manifest.subjects();
    if subjects.contains(TeardownSubject::ConnectTokenSecret) {
        let k = choose|k: int|
            0 <= k < subjects.len() && subjects[k] == TeardownSubject::ConnectTokenSecret;
        assert(recorded[k] == TeardownSubject::ConnectTokenSecret);
        assert(recorded.contains(TeardownSubject::ConnectTokenSecret));
        let i = choose|i: int|
            0 <= i < manifest.resources@.len() && (#[trigger] manifest.resources@[i]).subject
                == TeardownSubject::ConnectTokenSecret;
        assert(manifest.entry_valid(manifest.resources@[i]));
    }
}

/// The UID is part of an identity: of two objects at one address, the canonical
/// identities agree exactly where the UIDs do.
pub proof fn law_uid_fences_an_address(a: teardown::IdentityView, b: teardown::IdentityView)
    requires
        a.object_key() == b.object_key(),
    ensures
        a.canonical_id() == b.canonical_id() <==> a.uid == b.uid,
{
    if a.canonical_id() == b.canonical_id() {
        let head = a.object_key() + ":"@;
        assert(a.canonical_id().skip(head.len() as int) =~= a.uid);
        assert(b.canonical_id().skip(head.len() as int) =~= b.uid);
    }
}

/// What the always-built part of a plan holds.
pub open spec fn always_built(subject: TeardownSubject) -> bool {
    subject is ServerStatefulSet || subject is ServerPods || subject is Service
        || subject is PublisherConfigMap || subject is TokenSecret || subject is KubeconfigSecret
        || subject is CidrClaim || subject is ConnectTokenSecret
}

/// A plan holds exactly what the config creates: the servers' own resources
/// always, and each optional footprint exactly where the config asks for it. A
/// claim is never planned without its volume, nor a database without its role
/// and credentials.
pub proof fn law_plan_holds_exactly_what_is_built(
    cluster: ClusterConfig,
    has_external_datastore: bool,
    subject: TeardownSubject,
)
    ensures
        teardown::k3s_plan(cluster, has_external_datastore).contains(subject) <==> {
            ||| always_built(subject)
            ||| subject is AgentDeployment && teardown::has_agents(cluster)
            ||| subject is PodDisruptionBudget && cluster.servers > 1
            ||| subject is RegistriesConfigMap && teardown::has_mirrors(cluster)
            ||| (subject is ServerDataPvcs || subject is ServerDataVolumes)
                && teardown::has_volumes(cluster)
            ||| (subject is DatastoreCredentialSecret || subject is Database
                || subject is DatabaseRole) && has_external_datastore
        },
{
    let fixed = seq![
        TeardownSubject::ServerStatefulSet,
        TeardownSubject::ServerPods,
        TeardownSubject::Service,
        TeardownSubject::PublisherConfigMap,
        TeardownSubject::TokenSecret,
        TeardownSubject::KubeconfigSecret,
        TeardownSubject::CidrClaim,
        TeardownSubject::ConnectTokenSecret,
    ];
    let agents = teardown::built(
        teardown::has_agents(cluster),
        seq![TeardownSubject::AgentDeployment],
    );
    let budget = teardown::built(cluster.servers > 1, seq![TeardownSubject::PodDisruptionBudget]);
    let mirrors = teardown::built(
        teardown::has_mirrors(cluster),
        seq![TeardownSubject::RegistriesConfigMap],
    );
    let volumes = teardown::built(
        teardown::has_volumes(cluster),
        seq![TeardownSubject::ServerDataPvcs, TeardownSubject::ServerDataVolumes],
    );
    let datastore = teardown::built(
        has_external_datastore,
        seq![
            TeardownSubject::DatastoreCredentialSecret,
            TeardownSubject::Database,
            TeardownSubject::DatabaseRole,
        ],
    );
    let p1 = fixed + agents;
    let p2 = p1 + budget;
    let p3 = p2 + mirrors;
    let p4 = p3 + volumes;
    let plan = p4 + datastore;
    lemma_contains_concat(p4, datastore, subject);
    lemma_contains_concat(p3, volumes, subject);
    lemma_contains_concat(p2, mirrors, subject);
    lemma_contains_concat(p1, budget, subject);
    lemma_contains_concat(fixed, agents, subject);
    assert(fixed.contains(subject) <==> always_built(subject)) by {
        if always_built(subject) {
            assert(fixed[0] == TeardownSubject::ServerStatefulSet);
            assert(fixed[1] == TeardownSubject::ServerPods);
            assert(fixed[2] == TeardownSubject::Service);
            assert(fixed[3] == TeardownSubject::PublisherConfigMap);
            assert(fixed[4] == TeardownSubject::TokenSecret);
            assert(fixed[5] == TeardownSubject::KubeconfigSecret);
            assert(fixed[6] == TeardownSubject::CidrClaim);
            assert(fixed[7] == TeardownSubject::ConnectTokenSecret);
        }
    }
    if teardown::has_agents(cluster) {
        assert(agents[0] == TeardownSubject::AgentDeployment);
    }
    if cluster.servers > 1 {
        assert(budget[0] == TeardownSubject::PodDisruptionBudget);
    }
    if teardown::has_mirrors(cluster) {
        assert(mirrors[0] == TeardownSubject::RegistriesConfigMap);
    }
    if teardown::has_volumes(cluster) {
        assert(volumes[0] == TeardownSubject::ServerDataPvcs);
        assert(volumes[1] == TeardownSubject::ServerDataVolumes);
    }
    if has_external_datastore {
        assert(datastore[0] == TeardownSubject::DatastoreCredentialSecret);
        assert(datastore[1] == TeardownSubject::Database);
        assert(datastore[2] == TeardownSubject::DatabaseRole);
    }
}

proof fn lemma_contains_concat(
    a: Seq<TeardownSubject>,
    b: Seq<TeardownSubject>,
    subject: TeardownSubject,
)
    ensures
        (a + b).contains(subject) <==> a.contains(subject) || b.contains(subject),
{
    if a.contains(subject) {
        let k = choose|k: int| 0 <= k < a.len() && a[k] == subject;
        assert((a + b)[k] == subject);
    }
    if b.contains(subject) {
        let k = choose|k: int| 0 <= k < b.len() && b[k] == subject;
        assert((a + b)[a.len() + k] == subject);
    }
}

/// A plan never holds a subject twice.
pub proof fn law_plan_is_free_of_duplicates(cluster: ClusterConfig, has_external_datastore: bool)
    ensures
        teardown::k3s_plan(cluster, has_external_datastore).no_duplicates(),
{
    let plan = teardown::k3s_plan(cluster, has_external_datastore);
    let a = if teardown::has_agents(cluster) {
        1int
    } else {
        0
    };
    let b = a + if cluster.servers > 1 {
        1int
    } else {
        0
    };
    let c = b + if teardown::has_mirrors(cluster) {
        1int
    } else {
        0
    };
    let d = c + if teardown::has_volumes(cluster) {
        2int
    } else {
        0
    };
    assert forall|i: int, j: int| 0 <= i < j < plan.len() implies plan[i] != plan[j] by {
        assert(i < 8 ==> always_built(plan[i]));
        assert(j < 8 ==> always_built(plan[j]));
        assert(8 <= j < 8 + a ==> plan[j] is AgentDeployment);
        assert(8 + a <= j < 8 + b ==> plan[j] is PodDisruptionBudget);
        assert(8 + b <= j < 8 + c ==> plan[j] is RegistriesConfigMap);
        assert(8 + c <= j < 8 + d ==> plan[j] is ServerDataPvcs || plan[j] is ServerDataVolumes);
        assert(8 + d <= j ==> plan[j] is DatastoreCredentialSecret || plan[j] is Database
            || plan[j] is DatabaseRole);
    }
}

/// Only k3s can promise verified destruction, and only where nothing is left
/// behind that a receipt could not account for: no shared host state, no active
/// diagnostics, and storage that is ephemeral or can be observed.
pub proof fn law_eligible_footprints_are_observable(
    backend: BackendType,
    cluster: ClusterConfig,
    diagnostics: Option<&DiagnosticsConfig>,
    external_datastore_identity_recorded: bool,
)
    ensures
        teardown::eligibility(
            backend,
            cluster,
            diagnostics,
            external_datastore_identity_recorded,
        ) is Ok <==> {
            &&& backend is K3s
            &&& cluster.kubelet_shared_mount is None
            &&& diagnostics matches Some(diagnostics) ==> !diagnostics.enabled
            &&& cluster.persistence matches Some(persistence) ==> teardown::ephemeral_storage(
                persistence,
            ) || teardown::dynamic_storage(persistence)
            &&& external_datastore_identity_recorded
        },
{
}

/// The identities of one subject after the other.
pub open spec fn identities_of_subjects(
    manifest: TeardownCreationManifest,
    subjects: Seq<TeardownSubject>,
) -> Seq<Seq<char>>
    decreases subjects.len(),
{
    if subjects.len() == 0 {
        Seq::empty()
    } else {
        identities_of_subjects(manifest, subjects.drop_last()) + manifest.subject_identities(
            subjects.last(),
        )
    }
}

/// The recorded identities of one subject after the other.
spec fn ids_of_subjects(
    resources: Seq<CreationManifestResource>,
    subjects: Seq<TeardownSubject>,
) -> Seq<Seq<char>>
    decreases subjects.len(),
{
    if subjects.len() == 0 {
        Seq::empty()
    } else {
        ids_of_subjects(resources, subjects.drop_last()) + teardown::ids_of(
            resources,
            subjects.last(),
        )
    }
}

/// The recorded identities in the order in which they are recorded.
spec fn all_ids(resources: Seq<CreationManifestResource>) -> Seq<Seq<char>> {
    resources.map_values(|entry: CreationManifestResource| entry.resource@.canonical_id())
}

proof fn lemma_ids_without_resources(subjects: Seq<TeardownSubject>)
    ensures
        ids_of_subjects(Seq::empty(), subjects) == Seq::<Seq<char>>::empty(),
    decreases subjects.len(),
{
    if subjects.len() > 0 {
        lemma_ids_without_resources(subjects.drop_last());
        assert(ids_of_subjects(Seq::empty(), subjects) =~= Seq::<Seq<char>>::empty());
    }
}

/// One more resource adds its identity to the subjects' once where its subject is
/// among them, and not at all where it is not.
proof fn lemma_one_more_resource(
    resources: Seq<CreationManifestResource>,
    subjects: Seq<TeardownSubject>,
)
    requires
        resources.len() > 0,
        subjects.no_duplicates(),
    ensures
        ids_of_subjects(resources, subjects).to_multiset() == (if subjects.contains(
            resources.last().subject,
        ) {
            ids_of_subjects(resources.drop_last(), subjects).to_multiset().insert(
                resources.last().resource@.canonical_id(),
            )
        } else {
            ids_of_subjects(resources.drop_last(), subjects).to_multiset()
        }),
    decreases subjects.len(),
{
    broadcast use vstd::seq_lib::group_to_multiset_ensures;

    let less = resources.drop_last();
    let added = resources.last();
    let id = added.resource@.canonical_id();
    if subjects.len() > 0 {
        let head = subjects.drop_last();
        let subject = subjects.last();
        assert(subjects =~= head.push(subject));
        lemma_one_more_resource(resources, head);
        vstd::seq_lib::lemma_multiset_commutative(
            ids_of_subjects(resources, head),
            teardown::ids_of(resources, subject),
        );
        vstd::seq_lib::lemma_multiset_commutative(
            ids_of_subjects(less, head),
            teardown::ids_of(less, subject),
        );
        if subject == added.subject {
            assert(!head.contains(subject)) by {
                if head.contains(subject) {
                    let k = choose|k: int| 0 <= k < head.len() && head[k] == subject;
                    assert(subjects[k] == subjects[subjects.len() - 1]);
                }
            }
            assert(subjects.contains(added.subject)) by {
                assert(subjects[subjects.len() - 1] == subject);
            }
            assert(ids_of_subjects(resources, subjects).to_multiset() =~= ids_of_subjects(
                less,
                subjects,
            ).to_multiset().insert(id));
        } else {
            assert(subjects.contains(added.subject) <==> head.contains(added.subject)) by {
                if head.contains(added.subject) {
                    let k = choose|k: int| 0 <= k < head.len() && head[k] == added.subject;
                    assert(subjects[k] == added.subject);
                }
            }
            if head.contains(added.subject) {
                assert(ids_of_subjects(resources, subjects).to_multiset() =~= ids_of_subjects(
                    less,
                    subjects,
                ).to_multiset().insert(id));
            } else {
                assert(ids_of_subjects(resources, subjects).to_multiset() =~= ids_of_subjects(
                    less,
                    subjects,
                ).to_multiset());
            }
        }
    }
}

proof fn lemma_ids_of_all_subjects(
    resources: Seq<CreationManifestResource>,
    subjects: Seq<TeardownSubject>,
)
    requires
        subjects.no_duplicates(),
        forall|i: int| 0 <= i < resources.len() ==> subjects.contains(
            (#[trigger] resources[i]).subject,
        ),
    ensures
        ids_of_subjects(resources, subjects).to_multiset() == all_ids(resources).to_multiset(),
    decreases resources.len(),
{
    broadcast use vstd::seq_lib::group_to_multiset_ensures;

    if resources.len() == 0 {
        assert(resources =~= Seq::empty());
        lemma_ids_without_resources(subjects);
        assert(all_ids(resources) =~= Seq::empty());
    } else {
        let less = resources.drop_last();
        assert forall|i: int| 0 <= i < less.len() implies subjects.contains(
            (#[trigger] less[i]).subject,
        ) by {
            assert(less[i] == resources[i]);
        }
        lemma_ids_of_all_subjects(less, subjects);
        assert(subjects.contains(resources[resources.len() - 1].subject));
        lemma_one_more_resource(resources, subjects);
        assert(all_ids(resources) =~= all_ids(less).push(
            resources.last().resource@.canonical_id(),
        ));
    }
}

proof fn lemma_kubernetes_subjects(
    manifest: TeardownCreationManifest,
    subjects: Seq<TeardownSubject>,
)
    requires
        !subjects.contains(TeardownSubject::Database),
        !subjects.contains(TeardownSubject::DatabaseRole),
    ensures
        identities_of_subjects(manifest, subjects) == ids_of_subjects(
            manifest.resources@,
            subjects,
        ),
    decreases subjects.len(),
{
    if subjects.len() > 0 {
        let head = subjects.drop_last();
        assert forall|subject: TeardownSubject| #[trigger] head.contains(
            subject,
        ) implies subjects.contains(subject) by {
            let k = choose|k: int| 0 <= k < head.len() && head[k] == subject;
            assert(subjects[k] == subject);
        }
        lemma_kubernetes_subjects(manifest, head);
        assert(subjects.contains(subjects[subjects.len() - 1]));
    }
}

/// No resource of a valid manifest is recorded under a subject of the external
/// datastore.
proof fn lemma_no_database_resources(
    manifest: TeardownCreationManifest,
    sealed: Option<(i64, u32)>,
)
    requires
        manifest.verdict(sealed) is Ok,
    ensures
        !teardown::first_subjects(manifest.resources@).contains(TeardownSubject::Database),
        !teardown::first_subjects(manifest.resources@).contains(TeardownSubject::DatabaseRole),
        teardown::ids_of(manifest.resources@, TeardownSubject::Database).len() == 0,
        teardown::ids_of(manifest.resources@, TeardownSubject::DatabaseRole).len() == 0,
{
    let resources = manifest.resources@;
    assert forall|i: int| 0 <= i < resources.len() implies !(
    (#[trigger] resources[i]).subject is Database) && !(
    resources[i].subject is DatabaseRole) by {
        assert(manifest.entry_valid(resources[i]));
    }
    lemma_first_subjects(resources);
    lemma_ids_of(resources, TeardownSubject::Database);
    lemma_ids_of(resources, TeardownSubject::DatabaseRole);
    let database = teardown::ids_of(resources, TeardownSubject::Database);
    let role = teardown::ids_of(resources, TeardownSubject::DatabaseRole);
    if database.len() > 0 {
        assert(database.contains(database[0]));
    }
    if role.len() > 0 {
        assert(role.contains(role[0]));
    }
}

/// The identities of an external database and of its role differ, and neither is
/// one of a Kubernetes object.
proof fn lemma_datastore_identities_differ(manifest: TeardownCreationManifest)
    requires
        manifest.external_datastore(),
    ensures
        manifest.datastore.database_identity() != manifest.datastore.role_identity(),
        forall|i: int|
            0 <= i < manifest.resources@.len() ==> {
                &&& (#[trigger] manifest.resources@[i]).resource@.canonical_id()
                    != manifest.datastore.database_identity()
                &&& manifest.resources@[i].resource@.canonical_id()
                    != manifest.datastore.role_identity()
            },
{
    reveal_strlit("postgres:");
    reveal_strlit(":");
    reveal_strlit(":database:");
    reveal_strlit(":role:");
    reveal_strlit("k8s:");
    let database = manifest.datastore.database_identity();
    let role = manifest.datastore.role_identity();
    assert(":database:"@.len() == 10 && ":role:"@.len() == 6);
    match manifest.datastore {
        teardown::DatastoreProvenance::ExternalPostgres {
            endpoint_digest,
            system_identifier,
            ..
        } => {
            let at = 9 + system_identifier@.len() as int + 1 + endpoint_digest@.len() as int + 1;
            assert("postgres:"@.len() == 9 && ":"@.len() == 1);
            assert(database[at] == 'd');
            assert(role[at] == 'r');
        },
        _ => {},
    }
    assert(database[0] == 'p' && role[0] == 'p');
    assert forall|i: int| 0 <= i < manifest.resources@.len() implies (
    #[trigger] manifest.resources@[i]).resource@.canonical_id()[0] == 'k' by {
        let id = manifest.resources@[i].resource@.canonical_id();
        assert(id[0] == "k8s:"@[0]);
    }
}

/// What a valid manifest asks a receipt to account for is every recorded object
/// exactly once: the identities of its subjects, one subject after the other,
/// are a permutation of the recorded identities, no identity is there twice,
/// and there is one for each resource and two for an external datastore.
pub proof fn law_each_recorded_object_is_accounted_for_once(
    manifest: TeardownCreationManifest,
    sealed: Option<(i64, u32)>,
)
    requires
        manifest.verdict(sealed) is Ok,
    ensures
        identities_of_subjects(manifest, manifest.subjects()).to_multiset()
            == manifest.identities().to_multiset(),
        manifest.identities().no_duplicates(),
        manifest.identities().len() == manifest.resources@.len() + (
        if manifest.datastore is ExternalPostgres {
            2int
        } else {
            0int
        }),
{
    broadcast use vstd::seq_lib::group_to_multiset_ensures;

    let resources = manifest.resources@;
    let firsts = teardown::first_subjects(resources);
    let recorded = all_ids(resources);
    let identities = manifest.identities();
    lemma_first_subjects(resources);
    lemma_no_database_resources(manifest, sealed);
    assert forall|i: int| 0 <= i < resources.len() implies firsts.contains(
        (#[trigger] resources[i]).subject,
    ) by {}
    lemma_ids_of_all_subjects(resources, firsts);
    lemma_kubernetes_subjects(manifest, firsts);
    assert forall|i: int, j: int| 0 <= i < j < recorded.len() implies recorded[i]
        != recorded[j] by {
        assert(resources[i].resource@.canonical_id() != resources[j].resource@.canonical_id());
    }
    if manifest.external_datastore() {
        let database = manifest.datastore.database_identity();
        let role = manifest.datastore.role_identity();
        lemma_datastore_identities_differ(manifest);
        assert(identities =~= recorded.push(database).push(role));
        let one = firsts.push(TeardownSubject::Database);
        let subjects = manifest.subjects();
        assert(subjects.drop_last() =~= one);
        assert(one.drop_last() =~= firsts);
        assert(manifest.subject_identities(TeardownSubject::Database) =~= seq![database]);
        assert(manifest.subject_identities(TeardownSubject::DatabaseRole) =~= seq![role]);
        let gathered = identities_of_subjects(manifest, firsts);
        assert(identities_of_subjects(manifest, one) =~= gathered.push(database));
        assert(identities_of_subjects(manifest, subjects) =~= gathered.push(database).push(role));
        assert forall|i: int, j: int| 0 <= i < j < identities.len() implies identities[i]
            != identities[j] by {
            if j < recorded.len() {
                assert(recorded[i] != recorded[j]);
            } else if i < recorded.len() {
                assert(identities[i] == resources[i].resource@.canonical_id());
            }
        }
    } else {
        assert(identities =~= recorded);
    }
}

/// A resource that has the shape of its subject bears the name that the subject
/// expects, in the manifest's namespace.
pub proof fn law_shape_fixes_the_name(
    manifest: TeardownCreationManifest,
    entry: CreationManifestResource,
)
    requires
        manifest.shape_matches(entry),
    ensures
        manifest.bears_its_name(entry),
{
}

/// Every entry of a valid manifest has the shape of its subject, and so the name
/// that a check of the subject is held to.
pub proof fn law_valid_entries_bear_their_names(
    manifest: TeardownCreationManifest,
    sealed: Option<(i64, u32)>,
    at: int,
)
    requires
        manifest.verdict(sealed) is Ok,
        0 <= at < manifest.resources@.len(),
    ensures
        manifest.shape_matches(manifest.resources@[at]),
        manifest.bears_its_name(manifest.resources@[at]),
{
    assert(manifest.entry_valid(manifest.resources@[at]));
    law_shape_fixes_the_name(manifest, manifest.resources@[at]);
}

} // verus!
