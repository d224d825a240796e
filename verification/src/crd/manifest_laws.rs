//! Which creation manifests are valid, said of what they record.

use crate::crd::teardown::{
    self, CreationManifestInvalid, CreationManifestResource, DatastoreProvenance, IdentityView,
    StorageVolumeProvenance, TeardownCreationManifest, TeardownSubject,
};
use crate::number;
use crate::text;
use vstd::prelude::*;

verus! {

/// The resources that are recorded under a subject.
pub open spec fn recorded(
    manifest: TeardownCreationManifest,
    subject: TeardownSubject,
) -> Seq<CreationManifestResource> {
    manifest.resources@.filter(|entry: CreationManifestResource| entry.subject == subject)
}

proof fn lemma_count_is_recorded(
    resources: Seq<CreationManifestResource>,
    subject: TeardownSubject,
)
    ensures
        teardown::count_of(resources, subject) == resources.filter(
            |entry: CreationManifestResource| entry.subject == subject,
        ).len(),
    decreases resources.len(),
{
    reveal(Seq::filter);
    if resources.len() > 0 {
        lemma_count_is_recorded(resources.drop_last(), subject);
    }
}

proof fn lemma_counts(manifest: TeardownCreationManifest)
    ensures
        forall|subject: TeardownSubject| #[trigger]
            manifest.count(subject) == recorded(manifest, subject).len(),
{
    assert forall|subject: TeardownSubject| #[trigger]
        manifest.count(subject) == recorded(manifest, subject).len() by {
        lemma_count_is_recorded(manifest.resources@, subject);
    }
}

/// A valid manifest records each subject as often as the cluster has it: one
/// StatefulSet, Service, publisher, token, kubeconfig and address claim; one Pod for
/// each server; one agent Deployment exactly where there are agents, and one
/// disruption budget exactly where there is more than one server; at most one
/// registry configuration; no connect token; for each recorded volume one claim and
/// one volume, either none at all or one pair for each server; and one credential
/// exactly where the datastore is an external one.
pub proof fn law_valid_manifest_records_each_subject_as_built(
    manifest: TeardownCreationManifest,
    sealed: Option<(i64, u32)>,
)
    requires
        manifest.verdict(sealed) is Ok,
    ensures
        recorded(manifest, TeardownSubject::ServerStatefulSet).len() == 1,
        recorded(manifest, TeardownSubject::Service).len() == 1,
        recorded(manifest, TeardownSubject::PublisherConfigMap).len() == 1,
        recorded(manifest, TeardownSubject::TokenSecret).len() == 1,
        recorded(manifest, TeardownSubject::KubeconfigSecret).len() == 1,
        recorded(manifest, TeardownSubject::CidrClaim).len() == 1,
        recorded(manifest, TeardownSubject::ServerPods).len() == manifest.server_replicas,
        manifest.agent_replicas > 0 ==> recorded(manifest, TeardownSubject::AgentDeployment).len()
            == 1,
        manifest.agent_replicas == 0 ==> recorded(manifest, TeardownSubject::AgentDeployment).len()
            == 0,
        manifest.server_replicas > 1 ==> recorded(
            manifest,
            TeardownSubject::PodDisruptionBudget,
        ).len() == 1,
        manifest.server_replicas <= 1 ==> recorded(
            manifest,
            TeardownSubject::PodDisruptionBudget,
        ).len() == 0,
        recorded(manifest, TeardownSubject::RegistriesConfigMap).len() <= 1,
        recorded(manifest, TeardownSubject::ConnectTokenSecret).len() == 0,
        recorded(manifest, TeardownSubject::ServerDataPvcs).len() == manifest.storage@.len(),
        recorded(manifest, TeardownSubject::ServerDataVolumes).len() == manifest.storage@.len(),
        manifest.storage@.len() == 0 || manifest.storage@.len() == manifest.server_replicas,
        manifest.datastore is EmbeddedSqlite ==> recorded(
            manifest,
            TeardownSubject::DatastoreCredentialSecret,
        ).len() == 0,
        manifest.datastore is ExternalPostgres ==> recorded(
            manifest,
            TeardownSubject::DatastoreCredentialSecret,
        ).len() == 1,
{
    lemma_counts(manifest);
}

/// An identity with every part of it filled in.
pub open spec fn filled_in(identity: IdentityView) -> bool {
    &&& !text::is_blank(identity.api_version)
    &&& !text::is_blank(identity.kind)
    &&& !text::is_blank(identity.name)
    &&& !text::is_blank(identity.uid)
    &&& identity.namespace matches Some(namespace) ==> !text::is_blank(namespace)
}

/// A name made of a prefix and the number of one of the servers.
pub open spec fn of_a_server(name: Seq<char>, prefix: Seq<char>, servers: u32) -> bool {
    exists|rest: Seq<char>|
        name == prefix + rest && (#[trigger] number::unsigned_value(
            rest,
            0xffff_ffff,
        ) matches Some(ordinal) && ordinal < servers)
}

/// The API, the kind, the scope and the name that a recorded resource must have.
pub open spec fn stands_as_built(
    manifest: TeardownCreationManifest,
    entry: CreationManifestResource,
) -> bool {
    let found = entry.resource@;
    let name = manifest.instance.name@;
    let here = Some(manifest.namespace@);
    match entry.subject {
        TeardownSubject::AgentDeployment => found.api_version == "apps/v1"@ && found.kind
            == "Deployment"@ && found.namespace == here && found.name == name + "-agent"@,
        TeardownSubject::ServerStatefulSet => found.api_version == "apps/v1"@ && found.kind
            == "StatefulSet"@ && found.namespace == here && found.name == name + "-server"@,
        TeardownSubject::ServerPods => found.api_version == "v1"@ && found.kind == "Pod"@
            && found.namespace == here && of_a_server(
            found.name,
            name + "-server-"@,
            manifest.server_replicas,
        ),
        TeardownSubject::Service => found.api_version == "v1"@ && found.kind == "Service"@
            && found.namespace == here && found.name == name + "-server"@,
        TeardownSubject::PodDisruptionBudget => found.api_version == "policy/v1"@ && found.kind
            == "PodDisruptionBudget"@ && found.namespace == here && found.name == name
            + "-server"@,
        TeardownSubject::PublisherConfigMap => found.api_version == "v1"@ && found.kind
            == "ConfigMap"@ && found.namespace == here && found.name == name
            + "-kubeconfig-publisher"@,
        TeardownSubject::RegistriesConfigMap => found.api_version == "v1"@ && found.kind
            == "ConfigMap"@ && found.namespace == here && found.name == name + "-registries"@,
        TeardownSubject::TokenSecret => found.api_version == "v1"@ && found.kind == "Secret"@
            && found.namespace == here && found.name == name + "-token"@,
        TeardownSubject::KubeconfigSecret => found.api_version == "v1"@ && found.kind == "Secret"@
            && found.namespace == here && found.name == name + "-kubeconfig"@,
        TeardownSubject::ConnectTokenSecret => false,
        TeardownSubject::DatastoreCredentialSecret => found.api_version == "v1"@ && found.kind
            == "Secret"@ && found.namespace == here && found.name == name + "-datastore"@,
        TeardownSubject::CidrClaim => found.api_version == "kobe.kunobi.ninja/v1alpha1"@
            && found.kind == "CIDRClaim"@ && found.namespace == here && found.name == name,
        TeardownSubject::ServerDataPvcs => found.api_version == "v1"@ && found.kind
            == "PersistentVolumeClaim"@ && found.namespace == here && of_a_server(
            found.name,
            "data-"@ + name + "-server-"@,
            manifest.server_replicas,
        ),
        TeardownSubject::ServerDataVolumes => found.api_version == "v1"@ && found.kind
            == "PersistentVolume"@ && found.namespace is None,
        TeardownSubject::Database => false,
        TeardownSubject::DatabaseRole => false,
    }
}

/// The identity of the manifest's own instance.
pub open spec fn is_the_instance(
    manifest: TeardownCreationManifest,
    identity: IdentityView,
) -> bool {
    &&& identity.api_version == "kobe.kunobi.ninja/v1alpha1"@
    &&& identity.kind == "ClusterInstance"@
    &&& identity.namespace == Some(manifest.namespace@)
    &&& identity.name == manifest.instance.name@
    &&& manifest.instance.uid matches Some(uid) && identity.uid == uid@
}

/// What must have created a recorded resource, and how the two are tied: a Pod to
/// the StatefulSet that is recorded first, a volume to its claim, and everything else
/// to the instance, a claim by the label with its UID.
pub open spec fn tied_as_built(
    manifest: TeardownCreationManifest,
    entry: CreationManifestResource,
) -> bool {
    match entry.subject {
        TeardownSubject::ServerPods => entry.control_relation is ControllerOwner && exists|i: int|
            0 <= i < manifest.resources@.len() && (
            #[trigger] manifest.resources@[i]).subject is ServerStatefulSet && entry.controller@
                == manifest.resources@[i].resource@ && forall|k: int|
                0 <= k < i ==> !((
                #[trigger] manifest.resources@[k]).subject is ServerStatefulSet),
        TeardownSubject::ServerDataVolumes => entry.control_relation is ClaimRef && exists|i: int|
            0 <= i < manifest.storage@.len() && (#[trigger] manifest.storage@[i]).pv@
                == entry.resource@ && manifest.storage@[i].pvc@ == entry.controller@,
        TeardownSubject::ServerDataPvcs => entry.control_relation is InstanceUidLabel
            && is_the_instance(manifest, entry.controller@),
        _ => entry.control_relation is ControllerOwner && is_the_instance(
            manifest,
            entry.controller@,
        ),
    }
}

/// A volume whose data are gone with its claim.
pub open spec fn gone_with_its_claim(
    manifest: TeardownCreationManifest,
    volume: StorageVolumeProvenance,
) -> bool {
    &&& filled_in(volume.pvc@)
    &&& filled_in(volume.pv@)
    &&& filled_in(volume.storage_class@)
    &&& volume.pvc@.api_version == "v1"@
    &&& volume.pvc@.kind == "PersistentVolumeClaim"@
    &&& volume.pvc@.namespace == Some(manifest.namespace@)
    &&& volume.pv@.api_version == "v1"@
    &&& volume.pv@.kind == "PersistentVolume"@
    &&& volume.pv@.namespace is None
    &&& volume.storage_class@.api_version == "storage.k8s.io/v1"@
    &&& volume.storage_class@.kind == "StorageClass"@
    &&& volume.storage_class@.namespace is None
    &&& volume.reclaim_policy@ == "Delete"@
    &&& volume.pv_reclaim_policy@ == "Delete"@
}

/// A numeral for a number from one to `max`.
pub open spec fn counts_from_one(value: Seq<char>, max: nat) -> bool {
    number::unsigned_value(value, max) matches Some(found) && found > 0
}

proof fn lemma_of_a_server(name: Seq<char>, prefix: Seq<char>, servers: u32)
    ensures
        teardown::is_ordinal_name(name, prefix, servers) <==> of_a_server(name, prefix, servers),
{
    if teardown::is_ordinal_name(name, prefix, servers) {
        let rest = name.skip(prefix.len() as int);
        assert(name =~= prefix + rest);
        assert(number::unsigned_value(rest, 0xffff_ffff) is Some);
    }
    if of_a_server(name, prefix, servers) {
        let rest = choose|rest: Seq<char>|
            name == prefix + rest && (#[trigger] number::unsigned_value(
                rest,
                0xffff_ffff,
            ) matches Some(ordinal) && ordinal < servers);
        assert(name.take(prefix.len() as int) =~= prefix);
        assert(name.skip(prefix.len() as int) =~= rest);
    }
}

proof fn lemma_entry(manifest: TeardownCreationManifest, entry: CreationManifestResource)
    requires
        manifest.instance.uid is Some,
    ensures
        manifest.entry_valid(entry) <==> filled_in(entry.resource@) && filled_in(entry.controller@)
            && stands_as_built(manifest, entry) && tied_as_built(manifest, entry),
{
    let name = manifest.instance.name@;
    lemma_of_a_server(entry.resource@.name, name + "-server-"@, manifest.server_replicas);
    lemma_of_a_server(
        entry.resource@.name,
        "data-"@ + name + "-server-"@,
        manifest.server_replicas,
    );
    assert((entry.controller@ == manifest.instance_view()) == is_the_instance(
        manifest,
        entry.controller@,
    ));
    if entry.subject is ServerPods {
        if manifest.control_matches(entry) {
            let i = choose|i: int| #[trigger]
                manifest.is_statefulset(i) && entry.controller@ == manifest.resources@[i].resource@;
            assert(manifest.resources@[i].subject is ServerStatefulSet);
            assert(tied_as_built(manifest, entry));
        }
        if tied_as_built(manifest, entry) {
            let i = choose|i: int|
                0 <= i < manifest.resources@.len() && (
                #[trigger] manifest.resources@[i]).subject is ServerStatefulSet
                    && entry.controller@ == manifest.resources@[i].resource@ && forall|k: int|
                    0 <= k < i ==> !((
                    #[trigger] manifest.resources@[k]).subject is ServerStatefulSet);
            assert(manifest.is_statefulset(i));
            assert(manifest.control_matches(entry));
        }
    }
}

/// A valid manifest is of the one schema and backend there is, states the instance
/// with its UID, its place, its addresses, the digest of its config and an instant of
/// sealing, and has at least one server; every recorded resource and its controller
/// are filled in, stand as the backend builds them and are tied as it ties them; no
/// address is recorded twice; every volume is gone with its claim, and the recorded
/// claims and volumes are those of the storage; and an external datastore is stated by
/// its digest, identifier and object numbers.
pub proof fn law_valid_manifest_is_stated_in_full(
    manifest: TeardownCreationManifest,
    sealed: Option<(i64, u32)>,
)
    requires
        manifest.verdict(sealed) is Ok,
    ensures
        manifest.schema_version == 1,
        manifest.backend_type is K3s,
        manifest.instance.uid matches Some(uid) && !text::is_blank(uid@),
        !text::is_blank(manifest.instance.name@),
        !text::is_blank(manifest.namespace@),
        text::is_digest_text(manifest.config_digest@),
        !text::is_blank(manifest.service_cidr@),
        !text::is_blank(manifest.cluster_cidr@),
        manifest.server_replicas > 0,
        sealed is Some,
        forall|i: int|
            0 <= i < manifest.resources@.len() ==> {
                let entry = #[trigger] manifest.resources@[i];
                &&& filled_in(entry.resource@)
                &&& filled_in(entry.controller@)
                &&& stands_as_built(manifest, entry)
                &&& tied_as_built(manifest, entry)
            },
        forall|i: int, j: int|
            0 <= i < j < manifest.resources@.len() ==> {
                let first = (#[trigger] manifest.resources@[i]).resource@;
                let second = (#[trigger] manifest.resources@[j]).resource@;
                first.object_key() != second.object_key() && first.canonical_id()
                    != second.canonical_id()
            },
        forall|i: int|
            0 <= i < manifest.storage@.len() ==> gone_with_its_claim(
                manifest,
                #[trigger] manifest.storage@[i],
            ),
        forall|i: int, j: int|
            0 <= i < j < manifest.storage@.len() ==> {
                let first = #[trigger] manifest.storage@[i];
                let second = #[trigger] manifest.storage@[j];
                first.pvc@.canonical_id() != second.pvc@.canonical_id() && first.pv@.canonical_id()
                    != second.pv@.canonical_id()
            },
        manifest.datastore matches DatastoreProvenance::ExternalPostgres {
            endpoint_digest,
            system_identifier,
            database,
            database_oid,
            role,
            role_oid,
        } ==> {
            &&& text::is_digest_text(endpoint_digest@)
            &&& counts_from_one(system_identifier@, 0xffff_ffff_ffff_ffff)
            &&& !text::is_blank(database@)
            &&& counts_from_one(database_oid@, 0xffff_ffff)
            &&& !text::is_blank(role@)
            &&& counts_from_one(role_oid@, 0xffff_ffff)
        },
{
    assert forall|i: int| 0 <= i < manifest.resources@.len() implies {
        let entry = #[trigger] manifest.resources@[i];
        &&& filled_in(entry.resource@)
        &&& filled_in(entry.controller@)
        &&& stands_as_built(manifest, entry)
        &&& tied_as_built(manifest, entry)
    } by {
        assert(manifest.entry_valid(manifest.resources@[i]));
        lemma_entry(manifest, manifest.resources@[i]);
    }
    assert forall|i: int| 0 <= i < manifest.storage@.len() implies gone_with_its_claim(
        manifest,
        #[trigger] manifest.storage@[i],
    ) by {
        assert(manifest.volume_reclaimable(manifest.storage@[i]));
    }
    assert forall|i: int, j: int| 0 <= i < j < manifest.storage@.len() implies {
        let first = #[trigger] manifest.storage@[i];
        let second = #[trigger] manifest.storage@[j];
        first.pvc@.canonical_id() != second.pvc@.canonical_id() && first.pv@.canonical_id()
            != second.pv@.canonical_id()
    } by {
        let claims = manifest.storage_claims();
        let volumes = manifest.storage_volumes();
        assert(claims.no_duplicates() && volumes.no_duplicates());
        assert(claims[i] != claims[j]);
        assert(volumes[i] != volumes[j]);
    }
}

/// In a valid manifest the recorded claims are exactly the claims of the storage, and
/// the recorded volumes exactly its volumes.
pub proof fn law_valid_manifest_records_its_storage(
    manifest: TeardownCreationManifest,
    sealed: Option<(i64, u32)>,
)
    requires
        manifest.verdict(sealed) is Ok,
    ensures
        forall|i: int|
            0 <= i < manifest.storage@.len() ==> holds_identity(
                manifest,
                TeardownSubject::ServerDataPvcs,
                (#[trigger] manifest.storage@[i]).pvc@.canonical_id(),
            ) && holds_identity(
                manifest,
                TeardownSubject::ServerDataVolumes,
                manifest.storage@[i].pv@.canonical_id(),
            ),
        forall|i: int|
            0 <= i < manifest.resources@.len() && (
            #[trigger] manifest.resources@[i]).subject is ServerDataPvcs ==> exists|k: int|
                0 <= k < manifest.storage@.len() && (
                #[trigger] manifest.storage@[k]).pvc@.canonical_id()
                    == manifest.resources@[i].resource@.canonical_id(),
        forall|i: int|
            0 <= i < manifest.resources@.len() && (
            #[trigger] manifest.resources@[i]).subject is ServerDataVolumes ==> exists|k: int|
                0 <= k < manifest.storage@.len() && (
                #[trigger] manifest.storage@[k]).pv@.canonical_id()
                    == manifest.resources@[i].resource@.canonical_id(),
{
    let claims = manifest.storage_claims();
    let volumes = manifest.storage_volumes();
    let claim_ids = teardown::ids_of(manifest.resources@, TeardownSubject::ServerDataPvcs);
    let volume_ids = teardown::ids_of(manifest.resources@, TeardownSubject::ServerDataVolumes);
    lemma_ids(manifest.resources@, TeardownSubject::ServerDataPvcs);
    lemma_ids(manifest.resources@, TeardownSubject::ServerDataVolumes);
    lemma_counts(manifest);
    assert forall|i: int| 0 <= i < manifest.storage@.len() implies holds_identity(
        manifest,
        TeardownSubject::ServerDataPvcs,
        (#[trigger] manifest.storage@[i]).pvc@.canonical_id(),
    ) && holds_identity(
        manifest,
        TeardownSubject::ServerDataVolumes,
        manifest.storage@[i].pv@.canonical_id(),
    ) by {
        assert(claims[i] == manifest.storage@[i].pvc@.canonical_id());
        assert(volumes[i] == manifest.storage@[i].pv@.canonical_id());
        assert(claim_ids.contains(claims[i]));
        assert(volume_ids.contains(volumes[i]));
    }
    assert forall|i: int|
        0 <= i < manifest.resources@.len() && (
        #[trigger] manifest.resources@[i]).subject is ServerDataPvcs implies exists|k: int|
        0 <= k < manifest.storage@.len() && (#[trigger] manifest.storage@[k]).pvc@.canonical_id()
            == manifest.resources@[i].resource@.canonical_id() by {
        let id = manifest.resources@[i].resource@.canonical_id();
        assert(claim_ids.contains(id));
        lemma_ids_len(manifest.resources@, TeardownSubject::ServerDataPvcs);
        let at = choose|at: int| 0 <= at < claim_ids.len() && claim_ids[at] == id;
        assert(claims.contains(claim_ids[at]));
        let k = choose|k: int| 0 <= k < claims.len() && claims[k] == id;
        assert(manifest.storage@[k].pvc@.canonical_id() == id);
    }
    assert forall|i: int|
        0 <= i < manifest.resources@.len() && (
        #[trigger] manifest.resources@[i]).subject is ServerDataVolumes implies exists|k: int|
        0 <= k < manifest.storage@.len() && (#[trigger] manifest.storage@[k]).pv@.canonical_id()
            == manifest.resources@[i].resource@.canonical_id() by {
        let id = manifest.resources@[i].resource@.canonical_id();
        assert(volume_ids.contains(id));
        lemma_ids_len(manifest.resources@, TeardownSubject::ServerDataVolumes);
        let at = choose|at: int| 0 <= at < volume_ids.len() && volume_ids[at] == id;
        assert(volumes.contains(volume_ids[at]));
        let k = choose|k: int| 0 <= k < volumes.len() && volumes[k] == id;
        assert(manifest.storage@[k].pv@.canonical_id() == id);
    }
}

/// Whether a resource of this subject has this canonical identity.
pub open spec fn holds_identity(
    manifest: TeardownCreationManifest,
    subject: TeardownSubject,
    id: Seq<char>,
) -> bool {
    exists|k: int|
        0 <= k < manifest.resources@.len() && (#[trigger] manifest.resources@[k]).subject == subject
            && manifest.resources@[k].resource@.canonical_id() == id
}

proof fn lemma_ids_len(resources: Seq<CreationManifestResource>, subject: TeardownSubject)
    ensures
        teardown::ids_of(resources, subject).len() == teardown::count_of(resources, subject),
    decreases resources.len(),
{
    if resources.len() > 0 {
        lemma_ids_len(resources.drop_last(), subject);
    }
}

proof fn lemma_ids(resources: Seq<CreationManifestResource>, subject: TeardownSubject)
    ensures
        forall|id: Seq<char>|
            #[trigger] teardown::ids_of(resources, subject).contains(id) <==> exists|k: int|
                0 <= k < resources.len() && (#[trigger] resources[k]).subject == subject
                    && resources[k].resource@.canonical_id() == id,
    decreases resources.len(),
{
    let ids = teardown::ids_of(resources, subject);
    if resources.len() > 0 {
        let less = resources.drop_last();
        let rest = teardown::ids_of(less, subject);
        lemma_ids(less, subject);
        assert forall|id: Seq<char>| #[trigger] ids.contains(id) implies exists|k: int|
            0 <= k < resources.len() && (#[trigger] resources[k]).subject == subject
                && resources[k].resource@.canonical_id() == id by {
            let at = choose|at: int| 0 <= at < ids.len() && ids[at] == id;
            if at < rest.len() {
                assert(rest[at] == id);
                assert(rest.contains(id));
                let k = choose|k: int|
                    0 <= k < less.len() && (#[trigger] less[k]).subject == subject
                        && less[k].resource@.canonical_id() == id;
                assert(resources[k].subject == subject);
            } else {
                assert(resources[resources.len() - 1].subject == subject);
            }
        }
        assert forall|id: Seq<char>|
            (exists|k: int|
                0 <= k < resources.len() && (#[trigger] resources[k]).subject == subject
                    && resources[k].resource@.canonical_id()
                    == id) implies #[trigger] ids.contains(id) by {
            let k = choose|k: int|
                0 <= k < resources.len() && (#[trigger] resources[k]).subject == subject
                    && resources[k].resource@.canonical_id() == id;
            if k < less.len() {
                assert(less[k].subject == subject);
                assert(rest.contains(id));
                let at = choose|at: int| 0 <= at < rest.len() && rest[at] == id;
                assert(ids[at] == id);
            } else {
                assert(ids[rest.len() as int] == id);
            }
        }
    } else {
        assert forall|id: Seq<char>| !#[trigger] ids.contains(id) by {}
    }
}

/// A manifest that is stated in full and records each subject as built is valid: with
/// agents or without, with one server or more, with storage or without, and with
/// either datastore.
pub proof fn law_manifest_as_built_is_valid(
    manifest: TeardownCreationManifest,
    sealed: Option<(i64, u32)>,
)
    requires
        manifest.schema_version == 1,
        manifest.backend_type is K3s,
        manifest.instance.uid matches Some(uid) && !text::is_blank(uid@),
        !text::is_blank(manifest.instance.name@),
        !text::is_blank(manifest.namespace@),
        text::is_digest_text(manifest.config_digest@),
        !text::is_blank(manifest.service_cidr@),
        !text::is_blank(manifest.cluster_cidr@),
        manifest.server_replicas > 0,
        sealed is Some,
        forall|i: int|
            0 <= i < manifest.resources@.len() ==> {
                let entry = #[trigger] manifest.resources@[i];
                &&& filled_in(entry.resource@)
                &&& filled_in(entry.controller@)
                &&& stands_as_built(manifest, entry)
                &&& tied_as_built(manifest, entry)
            },
        forall|i: int, j: int|
            0 <= i < j < manifest.resources@.len() ==> {
                let first = (#[trigger] manifest.resources@[i]).resource@;
                let second = (#[trigger] manifest.resources@[j]).resource@;
                first.object_key() != second.object_key() && first.canonical_id()
                    != second.canonical_id()
            },
        recorded(manifest, TeardownSubject::ServerStatefulSet).len() == 1,
        recorded(manifest, TeardownSubject::Service).len() == 1,
        recorded(manifest, TeardownSubject::PublisherConfigMap).len() == 1,
        recorded(manifest, TeardownSubject::TokenSecret).len() == 1,
        recorded(manifest, TeardownSubject::KubeconfigSecret).len() == 1,
        recorded(manifest, TeardownSubject::CidrClaim).len() == 1,
        recorded(manifest, TeardownSubject::ServerPods).len() == manifest.server_replicas,
        manifest.agent_replicas > 0 ==> recorded(manifest, TeardownSubject::AgentDeployment).len()
            == 1,
        manifest.agent_replicas == 0 ==> recorded(manifest, TeardownSubject::AgentDeployment).len()
            == 0,
        manifest.server_replicas > 1 ==> recorded(
            manifest,
            TeardownSubject::PodDisruptionBudget,
        ).len() == 1,
        manifest.server_replicas == 1 ==> recorded(
            manifest,
            TeardownSubject::PodDisruptionBudget,
        ).len() == 0,
        recorded(manifest, TeardownSubject::RegistriesConfigMap).len() <= 1,
        recorded(manifest, TeardownSubject::ConnectTokenSecret).len() == 0,
        recorded(manifest, TeardownSubject::ServerDataPvcs).len() == manifest.storage@.len(),
        recorded(manifest, TeardownSubject::ServerDataVolumes).len() == manifest.storage@.len(),
        manifest.storage@.len() == 0 || manifest.storage@.len() == manifest.server_replicas,
        forall|i: int|
            0 <= i < manifest.storage@.len() ==> gone_with_its_claim(
                manifest,
                #[trigger] manifest.storage@[i],
            ) && holds_identity(
                manifest,
                TeardownSubject::ServerDataPvcs,
                manifest.storage@[i].pvc@.canonical_id(),
            ) && holds_identity(
                manifest,
                TeardownSubject::ServerDataVolumes,
                manifest.storage@[i].pv@.canonical_id(),
            ),
        forall|i: int, j: int|
            0 <= i < j < manifest.storage@.len() ==> {
                let first = #[trigger] manifest.storage@[i];
                let second = #[trigger] manifest.storage@[j];
                first.pvc@.canonical_id() != second.pvc@.canonical_id() && first.pv@.canonical_id()
                    != second.pv@.canonical_id()
            },
        forall|i: int|
            0 <= i < manifest.resources@.len() && (
            #[trigger] manifest.resources@[i]).subject is ServerDataPvcs ==> exists|k: int|
                0 <= k < manifest.storage@.len() && (
                #[trigger] manifest.storage@[k]).pvc@.canonical_id()
                    == manifest.resources@[i].resource@.canonical_id(),
        forall|i: int|
            0 <= i < manifest.resources@.len() && (
            #[trigger] manifest.resources@[i]).subject is ServerDataVolumes ==> exists|k: int|
                0 <= k < manifest.storage@.len() && (
                #[trigger] manifest.storage@[k]).pv@.canonical_id()
                    == manifest.resources@[i].resource@.canonical_id(),
        match manifest.datastore {
            DatastoreProvenance::EmbeddedSqlite => recorded(
                manifest,
                TeardownSubject::DatastoreCredentialSecret,
            ).len() == 0,
            DatastoreProvenance::ExternalPostgres {
                endpoint_digest,
                system_identifier,
                database,
                database_oid,
                role,
                role_oid,
            } => {
                &&& recorded(manifest, TeardownSubject::DatastoreCredentialSecret).len() == 1
                &&& text::is_digest_text(endpoint_digest@)
                &&& counts_from_one(system_identifier@, 0xffff_ffff_ffff_ffff)
                &&& !text::is_blank(database@)
                &&& counts_from_one(database_oid@, 0xffff_ffff)
                &&& !text::is_blank(role@)
                &&& counts_from_one(role_oid@, 0xffff_ffff)
            },
        },
    ensures
        manifest.verdict(sealed) is Ok,
{
    lemma_counts(manifest);
    assert(manifest.identities_complete(sealed)) by {
        assert forall|i: int| 0 <= i < manifest.resources@.len() implies manifest.entry_valid(
            #[trigger] manifest.resources@[i],
        ) by {
            lemma_entry(manifest, manifest.resources@[i]);
        }
    }
    assert(manifest.resources_distinct());
    assert(manifest.multiplicity_matches());
    lemma_storage(manifest);
    assert(manifest.datastore_verifiable());
}

proof fn lemma_storage(manifest: TeardownCreationManifest)
    requires
        manifest.server_replicas > 0,
        recorded(manifest, TeardownSubject::ServerDataPvcs).len() == manifest.storage@.len(),
        recorded(manifest, TeardownSubject::ServerDataVolumes).len() == manifest.storage@.len(),
        manifest.storage@.len() == 0 || manifest.storage@.len() == manifest.server_replicas,
        forall|i: int|
            0 <= i < manifest.storage@.len() ==> gone_with_its_claim(
                manifest,
                #[trigger] manifest.storage@[i],
            ) && holds_identity(
                manifest,
                TeardownSubject::ServerDataPvcs,
                manifest.storage@[i].pvc@.canonical_id(),
            ) && holds_identity(
                manifest,
                TeardownSubject::ServerDataVolumes,
                manifest.storage@[i].pv@.canonical_id(),
            ),
        forall|i: int, j: int|
            0 <= i < j < manifest.storage@.len() ==> {
                let first = #[trigger] manifest.storage@[i];
                let second = #[trigger] manifest.storage@[j];
                first.pvc@.canonical_id() != second.pvc@.canonical_id() && first.pv@.canonical_id()
                    != second.pv@.canonical_id()
            },
        forall|i: int|
            0 <= i < manifest.resources@.len() && (
            #[trigger] manifest.resources@[i]).subject is ServerDataPvcs ==> exists|k: int|
                0 <= k < manifest.storage@.len() && (
                #[trigger] manifest.storage@[k]).pvc@.canonical_id()
                    == manifest.resources@[i].resource@.canonical_id(),
        forall|i: int|
            0 <= i < manifest.resources@.len() && (
            #[trigger] manifest.resources@[i]).subject is ServerDataVolumes ==> exists|k: int|
                0 <= k < manifest.storage@.len() && (
                #[trigger] manifest.storage@[k]).pv@.canonical_id()
                    == manifest.resources@[i].resource@.canonical_id(),
    ensures
        manifest.storage_verifiable(),
{
    lemma_counts(manifest);
    let resources = manifest.resources@;
    let claims = manifest.storage_claims();
    let volumes = manifest.storage_volumes();
    let claim_ids = teardown::ids_of(resources, TeardownSubject::ServerDataPvcs);
    let volume_ids = teardown::ids_of(resources, TeardownSubject::ServerDataVolumes);
    lemma_ids(resources, TeardownSubject::ServerDataPvcs);
    lemma_ids(resources, TeardownSubject::ServerDataVolumes);
    assert forall|i: int, j: int| 0 <= i < claims.len() && 0 <= j < claims.len() && i
        != j implies claims[i] != claims[j] by {
        if i < j {
            assert(manifest.storage@[i].pvc@.canonical_id() != manifest.storage@[j].pvc@.canonical_id());
        } else {
            assert(manifest.storage@[j].pvc@.canonical_id() != manifest.storage@[i].pvc@.canonical_id());
        }
    }
    assert forall|i: int, j: int| 0 <= i < volumes.len() && 0 <= j < volumes.len() && i
        != j implies volumes[i] != volumes[j] by {
        if i < j {
            assert(manifest.storage@[i].pv@.canonical_id() != manifest.storage@[j].pv@.canonical_id());
        } else {
            assert(manifest.storage@[j].pv@.canonical_id() != manifest.storage@[i].pv@.canonical_id());
        }
    }
    assert(teardown::same_members(claim_ids, claims)) by {
        assert forall|i: int| 0 <= i < claim_ids.len() implies claims.contains(
            #[trigger] claim_ids[i],
        ) by {
            assert(claim_ids.contains(claim_ids[i]));
            let k = choose|k: int|
                0 <= k < resources.len() && (#[trigger] resources[k]).subject
                    == TeardownSubject::ServerDataPvcs && resources[k].resource@.canonical_id()
                    == claim_ids[i];
            let s = choose|s: int|
                0 <= s < manifest.storage@.len() && (
                #[trigger] manifest.storage@[s]).pvc@.canonical_id()
                    == resources[k].resource@.canonical_id();
            assert(claims[s] == claim_ids[i]);
        }
        assert forall|i: int| 0 <= i < claims.len() implies claim_ids.contains(
            #[trigger] claims[i],
        ) by {
            assert(claims[i] == manifest.storage@[i].pvc@.canonical_id());
            assert(holds_identity(manifest, TeardownSubject::ServerDataPvcs, claims[i]));
        }
    }
    assert(teardown::same_members(volume_ids, volumes)) by {
        assert forall|i: int| 0 <= i < volume_ids.len() implies volumes.contains(
            #[trigger] volume_ids[i],
        ) by {
            assert(volume_ids.contains(volume_ids[i]));
            let k = choose|k: int|
                0 <= k < resources.len() && (#[trigger] resources[k]).subject
                    == TeardownSubject::ServerDataVolumes && resources[k].resource@.canonical_id()
                    == volume_ids[i];
            let s = choose|s: int|
                0 <= s < manifest.storage@.len() && (
                #[trigger] manifest.storage@[s]).pv@.canonical_id()
                    == resources[k].resource@.canonical_id();
            assert(volumes[s] == volume_ids[i]);
        }
        assert forall|i: int| 0 <= i < volumes.len() implies volume_ids.contains(
            #[trigger] volumes[i],
        ) by {
            assert(volumes[i] == manifest.storage@[i].pv@.canonical_id());
            assert(holds_identity(manifest, TeardownSubject::ServerDataVolumes, volumes[i]));
        }
    }
    assert forall|i: int| 0 <= i < manifest.storage@.len() implies manifest.volume_reclaimable(
        #[trigger] manifest.storage@[i],
    ) by {
        assert(gone_with_its_claim(manifest, manifest.storage@[i]));
    }
}

/// What is wrong with a manifest is reported in one order: a foreign schema before
/// anything else; then anything that is not stated or not as built; then an address
/// that is recorded twice; then a subject that is not recorded as often as built; then
/// the storage, and the datastore last.
pub proof fn law_manifest_faults_have_an_order(
    manifest: TeardownCreationManifest,
    sealed: Option<(i64, u32)>,
)
    ensures
        manifest.verdict(sealed) == Err::<(), CreationManifestInvalid>(
            CreationManifestInvalid::UnsupportedSchema,
        ) <==> manifest.schema_version != 1,
        manifest.schema_version == 1 && (manifest.server_replicas == 0 || sealed is None
            || !(manifest.backend_type is K3s) || text::is_blank(manifest.namespace@)
            || text::is_blank(manifest.instance.name@) || !text::is_digest_text(
            manifest.config_digest@,
        ) || text::is_blank(manifest.service_cidr@) || text::is_blank(manifest.cluster_cidr@)
            || manifest.instance.uid is None) ==> manifest.verdict(sealed) == Err::<
            (),
            CreationManifestInvalid,
        >(CreationManifestInvalid::IncompleteIdentity),
        manifest.verdict(sealed) == Err::<(), CreationManifestInvalid>(
            CreationManifestInvalid::DuplicateResource,
        ) ==> exists|i: int, j: int|
            0 <= i < j < manifest.resources@.len() && {
                let first = (#[trigger] manifest.resources@[i]).resource@;
                let second = (#[trigger] manifest.resources@[j]).resource@;
                first.object_key() == second.object_key() || first.canonical_id()
                    == second.canonical_id()
            },
        manifest.verdict(sealed) == Err::<(), CreationManifestInvalid>(
            CreationManifestInvalid::MultiplicityMismatch,
        ) ==> {
            ||| recorded(manifest, TeardownSubject::ServerStatefulSet).len() != 1
            ||| recorded(manifest, TeardownSubject::Service).len() != 1
            ||| recorded(manifest, TeardownSubject::PublisherConfigMap).len() != 1
            ||| recorded(manifest, TeardownSubject::TokenSecret).len() != 1
            ||| recorded(manifest, TeardownSubject::KubeconfigSecret).len() != 1
            ||| recorded(manifest, TeardownSubject::CidrClaim).len() != 1
            ||| recorded(manifest, TeardownSubject::ServerPods).len() != manifest.server_replicas
            ||| manifest.agent_replicas > 0 && recorded(
                manifest,
                TeardownSubject::AgentDeployment,
            ).len() != 1
            ||| manifest.agent_replicas == 0 && recorded(
                manifest,
                TeardownSubject::AgentDeployment,
            ).len() != 0
            ||| manifest.server_replicas > 1 && recorded(
                manifest,
                TeardownSubject::PodDisruptionBudget,
            ).len() != 1
            ||| manifest.server_replicas <= 1 && recorded(
                manifest,
                TeardownSubject::PodDisruptionBudget,
            ).len() != 0
            ||| recorded(manifest, TeardownSubject::RegistriesConfigMap).len() > 1
            ||| recorded(manifest, TeardownSubject::ConnectTokenSecret).len() != 0
        },
        manifest.storage@.len() == 0 && recorded(manifest, TeardownSubject::ServerDataPvcs).len()
            == 0 && recorded(manifest, TeardownSubject::ServerDataVolumes).len() == 0
            ==> manifest.verdict(sealed) != Err::<(), CreationManifestInvalid>(
            CreationManifestInvalid::StorageUnverifiable,
        ),
        manifest.datastore is EmbeddedSqlite && recorded(
            manifest,
            TeardownSubject::DatastoreCredentialSecret,
        ).len() == 0 ==> manifest.verdict(sealed) != Err::<(), CreationManifestInvalid>(
            CreationManifestInvalid::DatastoreUnverifiable,
        ),
{
    lemma_counts(manifest);
}

/// The address and the canonical identity of an object in words: the address names
/// the API, the kind, the namespace or the cluster, and the name; the identity adds
/// the UID.
pub proof fn law_identity_texts(identity: IdentityView)
    ensures
        identity.namespace matches Some(namespace) ==> identity.object_key() == "k8s:"@
            + identity.api_version + ":"@ + identity.kind + ":"@ + namespace + ":"@
            + identity.name,
        identity.namespace is None ==> identity.object_key() == "k8s:"@ + identity.api_version
            + ":"@ + identity.kind + ":_cluster:"@ + identity.name,
        identity.canonical_id() == identity.object_key() + ":"@ + identity.uid,
{
    reveal_strlit(":_cluster:");
    reveal_strlit("_cluster");
    reveal_strlit(":");
    assert(":_cluster:"@ =~= ":"@ + "_cluster"@ + ":"@);
    if identity.namespace is None {
        assert(identity.object_key() =~= "k8s:"@ + identity.api_version + ":"@ + identity.kind
            + ":_cluster:"@ + identity.name);
    }
}

} // verus!
