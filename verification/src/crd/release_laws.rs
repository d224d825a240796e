//! Which receipts release capacity, and which footprints can have one, said of what
//! they hold.

use crate::crd::datastore::{KobeStoreCondition, KobeStoreStatus};
use crate::crd::instance::ResourceRef;
use crate::crd::profile::{BackendType, ClusterConfig, DiagnosticsConfig, PersistenceConfig};
use crate::crd::receipt::{self, TeardownAcknowledgedProof, TeardownAcknowledgedProofKind};
use crate::crd::teardown::{
    self, CheckResult, CleanupMode, TeardownCheck, TeardownCreationManifest, TeardownOutcome,
    TeardownReceipt, TeardownScope, TeardownSubject, VerifiedDestroyIneligible,
};
use crate::digest;
use crate::text;
use crate::time;
use vstd::prelude::*;
use vstd::utf8::*;

verus! {

/// Whether a reference has a UID that is not blank.
pub open spec fn has_uid(reference: ResourceRef) -> bool {
    reference.uid matches Some(uid) && !text::is_blank(uid@)
}

/// Whether two references have the same name and the same UID, or both none.
pub open spec fn same_reference(a: ResourceRef, b: ResourceRef) -> bool {
    a.name@ == b.name@ && match (a.uid, b.uid) {
        (Some(left), Some(right)) => left@ == right@,
        (None, None) => true,
        _ => false,
    }
}

/// Whether a check names this identity among what it verified.
pub open spec fn names(check: TeardownCheck, identity: Seq<char>) -> bool {
    exists|i: int| 0 <= i < check.verified@.len() && (#[trigger] check.verified@[i])@ == identity
}

/// Whether the receipt is of this schema and about the scope's attempt, lease, instance,
/// pool and provenance, each of them with a UID.
pub open spec fn is_about(receipt: TeardownReceipt, expected: TeardownScope<'_>) -> bool {
    &&& receipt.schema_version == 1
    &&& !text::is_blank(receipt.attempt_id@)
    &&& receipt.attempt_id@ == expected.attempt_id@
    &&& has_uid(receipt.lease)
    &&& has_uid(receipt.instance)
    &&& has_uid(receipt.pool)
    &&& same_reference(receipt.lease, *expected.lease)
    &&& same_reference(receipt.instance, *expected.instance)
    &&& same_reference(receipt.pool, *expected.pool)
    &&& receipt.backend_type@ == expected.backend_type@
    &&& receipt.config_digest@ == expected.config_digest@
    &&& receipt.instance_spec_digest@ == expected.instance_spec_digest@
    &&& receipt.creation_manifest_digest@ == expected.creation_manifest_digest@
    &&& receipt.cleanup_mode == expected.cleanup_mode
}

/// A receipt that releases capacity is about exactly this scope, was completed after it
/// started, says that everything was verified, and holds exactly one check for each
/// required subject and no other, each of them verified and naming what belongs to its
/// subject; and every identity that the scope records is named by one of them.
pub proof fn law_release_is_proven_in_full(
    receipt: TeardownReceipt,
    expected: TeardownScope<'_>,
    completed_after_start: bool,
)
    requires
        receipt.releases(expected, completed_after_start),
    ensures
        completed_after_start,
        is_about(receipt, expected),
        receipt.outcome == TeardownOutcome::Verified,
        expected.required_subjects@.len() > 0,
        receipt.checks@.len() == expected.required_subjects@.len(),
        forall|i: int|
            0 <= i < receipt.checks@.len() ==> {
                let check = #[trigger] receipt.checks@[i];
                &&& check.result == CheckResult::Verified
                &&& expected.required_subjects@.contains(check.subject)
                &&& expected.names_subject(check)
            },
        forall|i: int, j: int|
            0 <= i < j < receipt.checks@.len() ==> (#[trigger] receipt.checks@[i]).subject != (
            #[trigger] receipt.checks@[j]).subject,
        forall|k: int|
            0 <= k < expected.required_subjects@.len() ==> has_check(
                receipt,
                #[trigger] expected.required_subjects@[k],
            ),
        forall|k: int|
            0 <= k < expected.recorded_identities@.len() ==> is_named(
                receipt,
                (#[trigger] expected.recorded_identities@[k])@,
            ),
{
    assert forall|i: int| 0 <= i < receipt.checks@.len() implies {
        let check = #[trigger] receipt.checks@[i];
        &&& check.result == CheckResult::Verified
        &&& expected.required_subjects@.contains(check.subject)
        &&& expected.names_subject(check)
    } by {
        lemma_sole(receipt, expected, completed_after_start, i);
    }
    assert forall|i: int, j: int| 0 <= i < j < receipt.checks@.len() implies (
    #[trigger] receipt.checks@[i]).subject != (#[trigger] receipt.checks@[j]).subject by {
        lemma_sole(receipt, expected, completed_after_start, j);
    }
    assert forall|k: int| 0 <= k < expected.required_subjects@.len() implies has_check(
        receipt,
        #[trigger] expected.required_subjects@[k],
    ) by {
        assert(receipt.covers(expected, expected.required_subjects@[k]));
        let i = choose|i: int| #[trigger]
            receipt.sole_verified_check(expected, i) && receipt.checks@[i].subject
                == expected.required_subjects@[k];
        assert(receipt.checks@[i].subject == expected.required_subjects@[k]);
    }
    assert forall|k: int| 0 <= k < expected.recorded_identities@.len() implies is_named(
        receipt,
        (#[trigger] expected.recorded_identities@[k])@,
    ) by {
        let identity = expected.recorded_identities@[k]@;
        assert(receipt.proves(identity));
        let i = choose|i: int|
            0 <= i < receipt.checks@.len() && (#[trigger] receipt.checks@[i]).result is Verified
                && text::texts(receipt.checks@[i].verified@).contains(identity);
        lemma_names(receipt.checks@[i], identity);
        assert(names(receipt.checks@[i], identity));
    }
}

proof fn lemma_names(check: TeardownCheck, identity: Seq<char>)
    ensures
        text::texts(check.verified@).contains(identity) <==> names(check, identity),
{
    let verified = text::texts(check.verified@);
    if verified.contains(identity) {
        let k = choose|k: int| 0 <= k < verified.len() && verified[k] == identity;
        assert(check.verified@[k]@ == identity);
    }
    if names(check, identity) {
        let k = choose|k: int|
            0 <= k < check.verified@.len() && (#[trigger] check.verified@[k])@ == identity;
        assert(verified[k] == identity);
    }
}

proof fn lemma_sole(
    receipt: TeardownReceipt,
    expected: TeardownScope<'_>,
    completed_after_start: bool,
    i: int,
)
    requires
        receipt.releases(expected, completed_after_start),
        0 <= i < receipt.checks@.len(),
    ensures
        receipt.sole_verified_check(expected, i),
        expected.required_subjects@.contains(receipt.checks@[i].subject),
{
    let subject = receipt.checks@[i].subject;
    assert(expected.required_subjects@.contains(subject));
    let at = choose|at: int|
        0 <= at < expected.required_subjects@.len() && expected.required_subjects@[at] == subject;
    assert(receipt.covers(expected, expected.required_subjects@[at]));
    let j = choose|j: int| #[trigger]
        receipt.sole_verified_check(expected, j) && receipt.checks@[j].subject == subject;
    if j != i {
        assert(receipt.checks@[i].subject != receipt.checks@[j].subject);
    }
}

/// A receipt that is about this scope and proves it in full releases its capacity.
pub proof fn law_full_proof_releases(
    receipt: TeardownReceipt,
    expected: TeardownScope<'_>,
    completed_after_start: bool,
)
    requires
        completed_after_start,
        is_about(receipt, expected),
        receipt.outcome == TeardownOutcome::Verified,
        expected.required_subjects@.len() > 0,
        receipt.checks@.len() == expected.required_subjects@.len(),
        forall|i: int|
            0 <= i < receipt.checks@.len() ==> {
                let check = #[trigger] receipt.checks@[i];
                &&& check.result == CheckResult::Verified
                &&& expected.required_subjects@.contains(check.subject)
                &&& expected.names_subject(check)
            },
        forall|i: int, j: int|
            0 <= i < j < receipt.checks@.len() ==> (#[trigger] receipt.checks@[i]).subject != (
            #[trigger] receipt.checks@[j]).subject,
        forall|k: int|
            0 <= k < expected.required_subjects@.len() ==> has_check(
                receipt,
                #[trigger] expected.required_subjects@[k],
            ),
        forall|k: int|
            0 <= k < expected.recorded_identities@.len() ==> is_named(
                receipt,
                (#[trigger] expected.recorded_identities@[k])@,
            ),
    ensures
        receipt.releases(expected, completed_after_start),
{
    assert(!teardown::any_unknown(receipt.checks@));
    assert(receipt.identifies(expected));
    assert forall|k: int| 0 <= k < expected.required_subjects@.len() implies receipt.covers(
        expected,
        #[trigger] expected.required_subjects@[k],
    ) by {
        let subject = expected.required_subjects@[k];
        assert(has_check(receipt, subject));
        let i = choose|i: int|
            0 <= i < receipt.checks@.len() && (#[trigger] receipt.checks@[i]).subject == subject;
        assert forall|j: int| 0 <= j < receipt.checks@.len() && j != i implies (
        #[trigger] receipt.checks@[j]).subject != receipt.checks@[i].subject by {
            if i < j {
                assert(receipt.checks@[i].subject != receipt.checks@[j].subject);
            } else {
                assert(receipt.checks@[j].subject != receipt.checks@[i].subject);
            }
        }
        assert(receipt.sole_verified_check(expected, i));
    }
    assert forall|k: int| 0 <= k < expected.recorded_identities@.len() implies receipt.proves(
        (#[trigger] expected.recorded_identities@[k])@,
    ) by {
        let identity = expected.recorded_identities@[k]@;
        assert(is_named(receipt, identity));
        let i = choose|i: int|
            0 <= i < receipt.checks@.len() && names(#[trigger] receipt.checks@[i], identity);
        lemma_names(receipt.checks@[i], identity);
        assert(receipt.checks@[i].result is Verified);
    }
}

/// Whether a receipt has a check of this subject.
pub open spec fn has_check(receipt: TeardownReceipt, subject: TeardownSubject) -> bool {
    exists|i: int|
        0 <= i < receipt.checks@.len() && (#[trigger] receipt.checks@[i]).subject == subject
}

/// Whether one of a receipt's checks names this identity.
pub open spec fn is_named(receipt: TeardownReceipt, identity: Seq<char>) -> bool {
    exists|i: int| 0 <= i < receipt.checks@.len() && names(#[trigger] receipt.checks@[i], identity)
}

/// Which identities a check must name: with a manifest in the scope, exactly as many as
/// belong to its subject and each of those, and for the connect token the one that the
/// scope gives; without a manifest and without recorded identities, the name that the
/// subject's resource is expected to have, where there is one; otherwise nothing in
/// particular.
pub proof fn law_check_names_its_subject(scope: TeardownScope<'_>, check: TeardownCheck)
    ensures
        scope.creation_manifest matches Some(manifest) ==> {
            &&& check.subject != TeardownSubject::ConnectTokenSecret ==> (scope.names_subject(check)
                <==> check.verified@.len() == manifest.subject_identities(check.subject).len()
                && forall|i: int|
                0 <= i < manifest.subject_identities(check.subject).len() ==> names(
                    check,
                    #[trigger] manifest.subject_identities(check.subject)[i],
                ))
            &&& check.subject == TeardownSubject::ConnectTokenSecret ==> (scope.names_subject(check)
                <==> match scope.connect_token_identity {
                Some(identity) => check.verified@.len() == 1 && check.verified@[0]@
                    == identity@.canonical_id(),
                None => check.verified@.len() == 0,
            })
        },
        scope.creation_manifest is None && scope.recorded_identities@.len() > 0
            ==> scope.names_subject(check),
        scope.creation_manifest is None && scope.recorded_identities@.len() == 0 ==> (
        scope.names_subject(check) <==> match teardown::expected_name(
            check.subject,
            scope.instance_name@,
        ) {
            Some(name) => names(check, name),
            None => true,
        }),
{
    let verified = text::texts(check.verified@);
    assert(verified.len() == check.verified@.len());
    assert forall|identity: Seq<char>| #[trigger] verified.contains(identity) == names(
        check,
        identity,
    ) by {
        lemma_names(check, identity);
    }
    if let Some(manifest) = scope.creation_manifest {
        let identities = scope.manifest_identities(*manifest, check.subject);
        if check.subject == TeardownSubject::ConnectTokenSecret {
            if let Some(identity) = scope.connect_token_identity {
                let id = identity@.canonical_id();
                assert(identities =~= seq![id]);
                if scope.names_subject(check) {
                    assert(verified.contains(identities[0]));
                    let k = choose|k: int| 0 <= k < verified.len() && verified[k] == id;
                    assert(check.verified@[0]@ == id);
                }
                if check.verified@.len() == 1 && check.verified@[0]@ == id {
                    assert(verified[0] == id);
                    assert forall|i: int| 0 <= i < identities.len() implies verified.contains(
                        #[trigger] identities[i],
                    ) by {}
                }
            }
        } else {
            assert(identities == manifest.subject_identities(check.subject));
            if scope.names_subject(check) {
                assert forall|i: int|
                    0 <= i < manifest.subject_identities(check.subject).len() implies names(
                    check,
                    #[trigger] manifest.subject_identities(check.subject)[i],
                ) by {
                    assert(verified.contains(identities[i]));
                }
            }
            if check.verified@.len() == manifest.subject_identities(check.subject).len() && forall|
                i: int,
            |
                0 <= i < manifest.subject_identities(check.subject).len() ==> names(
                    check,
                    #[trigger] manifest.subject_identities(check.subject)[i],
                ) {
                assert forall|i: int| 0 <= i < identities.len() implies verified.contains(
                    #[trigger] identities[i],
                ) by {
                    assert(names(check, manifest.subject_identities(check.subject)[i]));
                }
            }
        }
    }
}

/// The identities of a subject are the canonical ones of the resources that are recorded
/// under it, and for an external datastore's database and role the ones that it has.
pub proof fn law_identities_of_a_subject(
    manifest: TeardownCreationManifest,
    subject: TeardownSubject,
    id: Seq<char>,
)
    ensures
        manifest.subject_identities(subject).contains(id) <==> {
            ||| exists|k: int|
                0 <= k < manifest.resources@.len() && (#[trigger] manifest.resources@[k]).subject
                    == subject && manifest.resources@[k].resource@.canonical_id() == id
            ||| manifest.datastore is ExternalPostgres && subject == TeardownSubject::Database && id
                == manifest.datastore.database_identity()
            ||| manifest.datastore is ExternalPostgres && subject == TeardownSubject::DatabaseRole
                && id == manifest.datastore.role_identity()
        },
{
    let recorded = teardown::ids_of(manifest.resources@, subject);
    let all = manifest.subject_identities(subject);
    lemma_recorded(manifest.resources@, subject, id);
    if all.len() > recorded.len() {
        let last = all[all.len() - 1];
        if all.contains(id) {
            let k = choose|k: int| 0 <= k < all.len() && all[k] == id;
            if k < recorded.len() {
                assert(recorded[k] == id);
            }
        }
        if recorded.contains(id) {
            let k = choose|k: int| 0 <= k < recorded.len() && recorded[k] == id;
            assert(all[k] == id);
        }
        if id == last {
            assert(all.contains(id));
        }
    }
}

proof fn lemma_recorded(
    resources: Seq<teardown::CreationManifestResource>,
    subject: TeardownSubject,
    id: Seq<char>,
)
    ensures
        teardown::ids_of(resources, subject).contains(id) <==> exists|k: int|
            0 <= k < resources.len() && (#[trigger] resources[k]).subject == subject
                && resources[k].resource@.canonical_id() == id,
    decreases resources.len(),
{
    let ids = teardown::ids_of(resources, subject);
    if resources.len() > 0 {
        let less = resources.drop_last();
        let rest = teardown::ids_of(less, subject);
        lemma_recorded(less, subject, id);
        if ids.contains(id) {
            let at = choose|at: int| 0 <= at < ids.len() && ids[at] == id;
            if at < rest.len() {
                assert(rest[at] == id);
                let k = choose|k: int|
                    0 <= k < less.len() && (#[trigger] less[k]).subject == subject
                        && less[k].resource@.canonical_id() == id;
                assert(resources[k].subject == subject);
            } else {
                assert(resources[resources.len() - 1].subject == subject);
            }
        }
        if exists|k: int|
            0 <= k < resources.len() && (#[trigger] resources[k]).subject == subject
                && resources[k].resource@.canonical_id() == id {
            let k = choose|k: int|
                0 <= k < resources.len() && (#[trigger] resources[k]).subject == subject
                    && resources[k].resource@.canonical_id() == id;
            if k < less.len() {
                assert(less[k].subject == subject);
                let at = choose|at: int| 0 <= at < rest.len() && rest[at] == id;
                assert(ids[at] == id);
            } else {
                assert(ids[rest.len() as int] == id);
            }
        }
    }
}

/// The subjects that a receipt must cover are those that something is recorded under,
/// and the database and role of an external datastore.
pub proof fn law_required_subjects_are_the_recorded_ones(
    manifest: TeardownCreationManifest,
    subject: TeardownSubject,
)
    ensures
        manifest.subjects().contains(subject) <==> {
            ||| exists|k: int|
                0 <= k < manifest.resources@.len() && (#[trigger] manifest.resources@[k]).subject
                    == subject
            ||| manifest.datastore is ExternalPostgres && (subject == TeardownSubject::Database
                || subject == TeardownSubject::DatabaseRole)
        },
{
    let firsts = teardown::first_subjects(manifest.resources@);
    let all = manifest.subjects();
    lemma_first(manifest.resources@, subject);
    if all.contains(subject) {
        let k = choose|k: int| 0 <= k < all.len() && all[k] == subject;
        if k < firsts.len() {
            assert(firsts[k] == subject);
        }
    }
    if firsts.contains(subject) {
        let k = choose|k: int| 0 <= k < firsts.len() && firsts[k] == subject;
        assert(all[k] == subject);
    }
    if manifest.datastore is ExternalPostgres {
        assert(all[firsts.len() as int] == TeardownSubject::Database);
        assert(all[firsts.len() as int + 1] == TeardownSubject::DatabaseRole);
    }
}

proof fn lemma_first(resources: Seq<teardown::CreationManifestResource>, subject: TeardownSubject)
    ensures
        teardown::first_subjects(resources).contains(subject) <==> exists|k: int|
            0 <= k < resources.len() && (#[trigger] resources[k]).subject == subject,
    decreases resources.len(),
{
    let firsts = teardown::first_subjects(resources);
    if resources.len() > 0 {
        let less = resources.drop_last();
        let rest = teardown::first_subjects(less);
        lemma_first(less, subject);
        lemma_first(less, resources.last().subject);
        if firsts.contains(subject) {
            let at = choose|at: int| 0 <= at < firsts.len() && firsts[at] == subject;
            if at < rest.len() {
                assert(rest[at] == subject);
                let k = choose|k: int|
                    0 <= k < less.len() && (#[trigger] less[k]).subject == subject;
                assert(resources[k].subject == subject);
            } else {
                assert(resources[resources.len() - 1].subject == subject);
            }
        }
        if exists|k: int| 0 <= k < resources.len() && (#[trigger] resources[k]).subject == subject {
            let k = choose|k: int|
                0 <= k < resources.len() && (#[trigger] resources[k]).subject == subject;
            if k < less.len() {
                assert(less[k].subject == subject);
                let at = choose|at: int| 0 <= at < rest.len() && rest[at] == subject;
                assert(firsts[at] == subject);
            } else if rest.contains(subject) {
                let at = choose|at: int| 0 <= at < rest.len() && rest[at] == subject;
                assert(firsts[at] == subject);
            } else {
                assert(firsts[rest.len() as int] == subject);
            }
        }
    }
}

/// A receipt is completed after it started exactly where both of its times are RFC 3339
/// texts and the completion is the later instant.
pub proof fn law_completion_follows_the_start(receipt: TeardownReceipt, after: bool)
    requires
        after == time::strictly_after(receipt.completed(), receipt.started()),
    ensures
        receipt.completed_at is None ==> !after,
        receipt.completed_at matches Some(completed) ==> match (
            time::rfc3339_instant(completed@),
            time::rfc3339_instant(receipt.started_at@),
        ) {
            (Some(end), Some(start)) => after <==> end.0 > start.0 || (end.0 == start.0 && end.1
                > start.1),
            _ => !after,
        },
{
}

/// Evidence amounts to a quarantine exactly where a check is unknown, and to a verified
/// teardown otherwise; it never leaves a teardown in progress.
pub proof fn law_evidence_amounts_to_an_outcome(checks: Seq<TeardownCheck>)
    ensures
        teardown::aggregate(checks) == TeardownOutcome::Quarantined <==> exists|i: int|
            0 <= i < checks.len() && (#[trigger] checks[i]).result == CheckResult::Unknown,
        teardown::aggregate(checks) == TeardownOutcome::Verified <==> forall|i: int|
            0 <= i < checks.len() ==> (#[trigger] checks[i]).result != CheckResult::Unknown,
        teardown::aggregate(checks) != TeardownOutcome::InProgress,
{
}

/// A receipt can be acknowledged exactly where it is of this schema, says that everything
/// was verified, has checks, none of them unknown, was completed after it started, names
/// its attempt and its manifest's digest, is of a verified destruction, and its lease,
/// instance and pool have UIDs.
pub proof fn law_receipt_is_acknowledged_exactly(
    receipt: TeardownReceipt,
    completed_after_start: bool,
)
    ensures
        receipt.acknowledgeable(completed_after_start) <==> {
            &&& receipt.schema_version == 1
            &&& receipt.outcome == TeardownOutcome::Verified
            &&& receipt.checks@.len() > 0
            &&& forall|i: int|
                0 <= i < receipt.checks@.len() ==> (#[trigger] receipt.checks@[i]).result
                    != CheckResult::Unknown
            &&& completed_after_start
            &&& !text::is_blank(receipt.attempt_id@)
            &&& !text::is_blank(receipt.creation_manifest_digest@)
            &&& receipt.cleanup_mode == CleanupMode::VerifiedDestroy
            &&& has_uid(receipt.lease)
            &&& has_uid(receipt.instance)
            &&& has_uid(receipt.pool)
        },
        receipt.token() == "sha256:"@ + digest::sha256_hex(encode_utf8(receipt.json())),
{
}

/// The names that the resources of an instance are expected to have, subject by subject.
pub proof fn law_expected_names(instance: Seq<char>)
    ensures
        teardown::expected_name(TeardownSubject::AgentDeployment, instance) == Some(
            instance + "-agent"@,
        ),
        teardown::expected_name(TeardownSubject::ServerStatefulSet, instance) == Some(
            instance + "-server"@,
        ),
        teardown::expected_name(TeardownSubject::Service, instance) == Some(instance + "-server"@),
        teardown::expected_name(TeardownSubject::PodDisruptionBudget, instance) == Some(
            instance + "-server"@,
        ),
        teardown::expected_name(TeardownSubject::PublisherConfigMap, instance) == Some(
            instance + "-kubeconfig-publisher"@,
        ),
        teardown::expected_name(TeardownSubject::RegistriesConfigMap, instance) == Some(
            instance + "-registries"@,
        ),
        teardown::expected_name(TeardownSubject::TokenSecret, instance) == Some(
            instance + "-token"@,
        ),
        teardown::expected_name(TeardownSubject::KubeconfigSecret, instance) == Some(
            instance + "-kubeconfig"@,
        ),
        teardown::expected_name(TeardownSubject::ConnectTokenSecret, instance) == Some(
            instance + "-connect-token"@,
        ),
        teardown::expected_name(TeardownSubject::DatastoreCredentialSecret, instance) == Some(
            instance + "-datastore"@,
        ),
        teardown::expected_name(TeardownSubject::CidrClaim, instance) == Some(instance),
        teardown::expected_name(TeardownSubject::Database, instance) == Some(
            "database:k3s_"@ + instance,
        ),
        teardown::expected_name(TeardownSubject::DatabaseRole, instance) == Some(
            "role:k3s_"@ + instance,
        ),
        teardown::expected_name(TeardownSubject::ServerPods, instance) is None,
        teardown::expected_name(TeardownSubject::ServerDataPvcs, instance) is None,
        teardown::expected_name(TeardownSubject::ServerDataVolumes, instance) is None,
{
}

/// Storage is ephemeral where it names no type or `emptyDir`, and dynamic where it names
/// `dynamic`, in whichever case; it is never both.
pub proof fn law_storage_types(persistence: PersistenceConfig)
    ensures
        persistence.storage_type is None ==> teardown::ephemeral_storage(persistence)
            && !teardown::dynamic_storage(persistence),
        persistence.storage_type matches Some(kind) ==> {
            &&& teardown::ephemeral_storage(persistence) <==> text::same_ignoring_ascii_case(
                kind@,
                "emptyDir"@,
            )
            &&& teardown::dynamic_storage(persistence) <==> text::same_ignoring_ascii_case(
                kind@,
                "dynamic"@,
            )
        },
        !(teardown::ephemeral_storage(persistence) && teardown::dynamic_storage(persistence)),
{
    reveal_strlit("emptyDir");
    reveal_strlit("emptydir");
    reveal_strlit("dynamic");
    assert("emptyDir"@.len() == 8);
    assert("emptydir"@.len() == 8);
    assert("dynamic"@.len() == 7);
    let mixed = "emptyDir"@.map_values(|c: char| text::ascii_lower(c));
    let lower = "emptydir"@.map_values(|c: char| text::ascii_lower(c));
    assert(mixed =~= lower);
    let fast = "dynamic"@.map_values(|c: char| text::ascii_lower(c));
    assert(lower.len() == 8 && fast.len() == 7);
}

/// Why a footprint cannot have a verified destruction: first another backend than k3s,
/// then a mount that is shared with the host, then diagnostics that are enabled, then
/// storage that is neither ephemeral nor dynamic, then a datastore whose identity was not
/// recorded. Without any of these it can.
pub proof fn law_ineligibility_has_a_reason(
    backend: BackendType,
    cluster: ClusterConfig,
    diagnostics: Option<&DiagnosticsConfig>,
    recorded: bool,
    result: Result<(), VerifiedDestroyIneligible>,
)
    requires
        result == teardown::eligibility(backend, cluster, diagnostics, recorded),
    ensures
        result == Err::<(), VerifiedDestroyIneligible>(
            VerifiedDestroyIneligible::UnsupportedBackend,
        ) <==> backend != BackendType::K3s,
        result == Err::<(), VerifiedDestroyIneligible>(
            VerifiedDestroyIneligible::KubeletSharedMount,
        ) <==> backend == BackendType::K3s && cluster.kubelet_shared_mount is Some,
        result == Err::<(), VerifiedDestroyIneligible>(
            VerifiedDestroyIneligible::DiagnosticsEnabled,
        ) <==> backend == BackendType::K3s && cluster.kubelet_shared_mount is None && (
        diagnostics matches Some(config) && config.enabled),
        result == Err::<(), VerifiedDestroyIneligible>(
            VerifiedDestroyIneligible::UnverifiableStorage,
        ) <==> backend == BackendType::K3s && cluster.kubelet_shared_mount is None && !(
        diagnostics matches Some(config) && config.enabled) && (cluster.persistence matches Some(
            persistence,
        ) && (persistence.storage_type matches Some(kind) && !text::same_ignoring_ascii_case(
            kind@,
            "emptyDir"@,
        ) && !text::same_ignoring_ascii_case(kind@, "dynamic"@))),
        result == Err::<(), VerifiedDestroyIneligible>(
            VerifiedDestroyIneligible::DatastoreProvenanceMissing,
        ) ==> !recorded,
        result is Ok ==> recorded,
        backend == BackendType::K3s && cluster.kubelet_shared_mount is None && !(
        diagnostics matches Some(config) && config.enabled) && cluster.persistence is None
            && recorded ==> result is Ok,
{
    if let Some(persistence) = cluster.persistence {
        law_storage_types(persistence);
    }
}

/// The footprints that a cluster has beside the ones that it always has: an agent
/// Deployment where it has agents, a disruption budget where it has more than one server,
/// a registry configuration where it has mirrors, volumes where its storage is not
/// ephemeral, and a datastore's own where that is an external one.
pub proof fn law_optional_footprints(cluster: ClusterConfig)
    ensures
        teardown::has_agents(cluster) <==> (cluster.agents matches Some(agents) && agents >= 1),
        teardown::has_mirrors(cluster) <==> (cluster.registry_mirrors matches Some(mirrors)
            && mirrors@.len() >= 1),
        teardown::has_volumes(cluster) <==> (cluster.persistence matches Some(persistence)
            && persistence.storage_type matches Some(kind) && !text::same_ignoring_ascii_case(
            kind@,
            "emptyDir"@,
        )),
{
    if let Some(persistence) = cluster.persistence {
        law_storage_types(persistence);
    }
}

/// An acknowledged proof is coherent exactly where it holds a token and evidence and no
/// time for a receipt, and a time and neither of the others for a release that never
/// bound.
pub proof fn law_acknowledged_proof_is_coherent_exactly(proven: TeardownAcknowledgedProof)
    ensures
        proven.payload_matches_kind() <==> {
            ||| proven.kind == TeardownAcknowledgedProofKind::Receipt
                && proven.receipt_token is Some && proven.evidence is Some
                && proven.unbound_release_verified_at is None
            ||| proven.kind == TeardownAcknowledgedProofKind::NeverBound
                && proven.receipt_token is None && proven.evidence is None
                && proven.unbound_release_verified_at is Some
        },
{
}

/// The name and the labels of an attempt's evidence are taken from digests of the lease
/// and the attempt, of which the first forty digits are kept.
pub proof fn law_evidence_is_named_by_digests(lease_uid: Seq<char>, attempt_id: Seq<char>)
    ensures
        receipt::evidence_name(lease_uid, attempt_id) == "vte-"@ + digest::sha256_hex(
            encode_utf8(lease_uid + "\0"@ + attempt_id),
        ).take(40),
        receipt::evidence_labels(lease_uid, attempt_id).len() == 3,
        text::pair_value(
            receipt::evidence_labels(lease_uid, attempt_id),
            "kobe.kunobi.ninja/teardown-attempt-digest"@,
        ) == Some(digest::sha256_hex(encode_utf8("attempt"@ + "\0"@ + attempt_id)).take(40)),
        text::pair_value(
            receipt::evidence_labels(lease_uid, attempt_id),
            "kobe.kunobi.ninja/teardown-evidence-producer"@,
        ) == Some("teardown-authority"@),
        text::pair_value(
            receipt::evidence_labels(lease_uid, attempt_id),
            "kobe.kunobi.ninja/teardown-lease-digest"@,
        ) == Some(digest::sha256_hex(encode_utf8("lease"@ + "\0"@ + lease_uid)).take(40)),
{
    let labels = receipt::evidence_labels(lease_uid, attempt_id);
    reveal_strlit("kobe.kunobi.ninja/teardown-attempt-digest");
    reveal_strlit("kobe.kunobi.ninja/teardown-evidence-producer");
    reveal_strlit("kobe.kunobi.ninja/teardown-lease-digest");
    assert("kobe.kunobi.ninja/teardown-attempt-digest"@.len() == 41);
    assert("kobe.kunobi.ninja/teardown-evidence-producer"@.len() == 44);
    assert("kobe.kunobi.ninja/teardown-lease-digest"@.len() == 39);
    reveal_with_fuel(text::pair_value, 4);
    assert(labels.skip(1)[0] == labels[1]);
    assert(labels.skip(1).skip(1)[0] == labels[2]);
}

/// A store has a say on its health exactly where one of its conditions is of type
/// `Healthy`. Of several the most recent one counts, where a condition whose time is not
/// known is older than any other, and the first among equally recent ones; there is
/// exactly one such condition.
pub proof fn law_the_latest_health_counts(status: KobeStoreStatus, i: int, j: int)
    requires
        status.is_healthy_condition(i),
        status.is_healthy_condition(j),
    ensures
        i == j,
        status.has_healthy_condition(),
        status.the_healthy_condition() == status.conditions@[i],
        0 <= i < status.conditions@.len(),
        status.conditions@[i].condition_type@ == "Healthy"@,
        forall|k: int|
            0 <= k < status.conditions@.len() && (
            #[trigger] status.conditions@[k]).condition_type@ == "Healthy"@ && k != i ==> {
                let own = changed_at(status.conditions@[i]);
                let other = changed_at(status.conditions@[k]);
                match (own, other) {
                    (Some(a), Some(b)) => a.0 > b.0 || (a.0 == b.0 && a.1 > b.1) || (a == b && i
                        < k),
                    (Some(_), None) => true,
                    (None, None) => i < k,
                    (None, Some(_)) => false,
                }
            },
{
    assert(status.is_of_health(i) && status.is_of_health(j));
    let chosen = choose|k: int| status.is_healthy_condition(k);
    assert(status.is_healthy_condition(chosen));
    assert(status.is_of_health(chosen));
    assert forall|k: int|
        0 <= k < status.conditions@.len() && (
        #[trigger] status.conditions@[k]).condition_type@ == "Healthy"@ && k != i implies {
        let own = changed_at(status.conditions@[i]);
        let other = changed_at(status.conditions@[k]);
        match (own, other) {
            (Some(a), Some(b)) => a.0 > b.0 || (a.0 == b.0 && a.1 > b.1) || (a == b && i < k),
            (Some(_), None) => true,
            (None, None) => i < k,
            (None, Some(_)) => false,
        }
    } by {
        assert(status.is_of_health(k));
    }
}

/// Whether condition `i` of a store is of type `Healthy` and comes before condition `k`,
/// by its time or, at the same time or at none, by its place.
pub open spec fn comes_before(status: KobeStoreStatus, i: int, k: int) -> bool {
    match (changed_at(status.conditions@[i]), changed_at(status.conditions@[k])) {
        (Some(a), Some(b)) => a.0 > b.0 || (a.0 == b.0 && a.1 > b.1) || (a == b && i < k),
        (Some(_), None) => true,
        (None, None) => i < k,
        (None, Some(_)) => false,
    }
}

/// Where condition `i` is of type `Healthy` and comes before every other one of that
/// type, it is the one that counts. Creates are held back exactly where it is `False`,
/// with its reason and its message; where no condition is of that type, they are not.
pub proof fn law_creates_are_held_back_by_the_latest_health(status: KobeStoreStatus, i: int)
    requires
        0 <= i < status.conditions@.len(),
        status.conditions@[i].condition_type@ == "Healthy"@,
        forall|k: int|
            0 <= k < status.conditions@.len() && (
            #[trigger] status.conditions@[k]).condition_type@ == "Healthy"@ && k != i
                ==> comes_before(status, i, k),
    ensures
        status.is_healthy_condition(i),
        status.held_back() is Some <==> status.conditions@[i].status@ == "False"@,
        status.held_back() matches Some(words) ==> words == status.conditions@[i].reason@ + ": "@
            + status.conditions@[i].message@,
{
    assert(status.is_of_health(i));
    assert forall|k: int| #[trigger] status.is_of_health(k) implies {
        &&& !crate::crd::datastore::more_recent(status.transition(k), status.transition(i))
        &&& k < i ==> crate::crd::datastore::more_recent(
            status.transition(i),
            status.transition(k),
        )
    } by {
        assert(status.conditions@[k].condition_type@ == "Healthy"@);
        assert(k != i ==> comes_before(status, i, k));
    }
    assert(status.is_healthy_condition(i));
    law_the_latest_health_counts(status, i, i);
}

/// A store none of whose conditions is of type `Healthy` is not held back.
pub proof fn law_a_store_without_health_is_not_held_back(status: KobeStoreStatus)
    requires
        forall|k: int|
            0 <= k < status.conditions@.len() ==> (
            #[trigger] status.conditions@[k]).condition_type@ != "Healthy"@,
    ensures
        status.held_back() is None,
{
}

/// When a condition last changed, where that is known.
pub open spec fn changed_at(condition: KobeStoreCondition) -> Option<(i64, u32)> {
    match condition.last_transition_time {
        Some(words) => time::rfc3339_instant(words@),
        None => None,
    }
}

} // verus!
