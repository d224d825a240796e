//! What is hashed of a creation manifest or of a receipt determines it.

use crate::crd::profile::BackendType;
use crate::crd::teardown::{
    self, CheckResult, CleanupMode, CreationControlRelation, CreationManifestResource,
    DatastoreProvenance, StorageVolumeProvenance, TeardownCheck, TeardownCreationManifest,
    TeardownOutcome, TeardownReceipt, TeardownSubject,
};
use crate::json;
use crate::json_laws;
use crate::text;
use vstd::prelude::*;
use vstd::utf8::*;

verus! {

proof fn lemma_subject_names(a: TeardownSubject, b: TeardownSubject)
    requires
        a.wire_text() == b.wire_text(),
    ensures
        a == b,
{
    reveal_strlit("agentDeployment");
    reveal_strlit("serverStatefulSet");
    reveal_strlit("serverPods");
    reveal_strlit("service");
    reveal_strlit("podDisruptionBudget");
    reveal_strlit("publisherConfigMap");
    reveal_strlit("registriesConfigMap");
    reveal_strlit("tokenSecret");
    reveal_strlit("kubeconfigSecret");
    reveal_strlit("connectTokenSecret");
    reveal_strlit("datastoreCredentialSecret");
    reveal_strlit("cidrClaim");
    reveal_strlit("serverDataPvcs");
    reveal_strlit("serverDataVolumes");
    reveal_strlit("database");
    reveal_strlit("databaseRole");
    let x = a.wire_text();
    let y = b.wire_text();
    assert(x.len() == y.len() && x[0] == y[0] && x[6] == y[6]);
}

proof fn lemma_relation_names(a: CreationControlRelation, b: CreationControlRelation)
    requires
        a.wire_text() == b.wire_text(),
    ensures
        a == b,
{
    reveal_strlit("controllerOwner");
    reveal_strlit("instanceUidLabel");
    reveal_strlit("claimRef");
    assert("controllerOwner"@.len() == 15 && "instanceUidLabel"@.len() == 16 && "claimRef"@.len() == 8);
    assert(a.wire_text().len() == b.wire_text().len());
}

proof fn lemma_backend_names(a: BackendType, b: BackendType)
    requires
        a.wire_text() == b.wire_text(),
    ensures
        a == b,
{
    reveal_strlit("k3s");
    reveal_strlit("k0s");
    reveal_strlit("capi");
    reveal_strlit("vkobe");
    reveal_strlit("vcluster");
    assert("k3s"@.len() == 3 && "k0s"@.len() == 3 && "capi"@.len() == 4 && "vkobe"@.len() == 5 && "vcluster"@.len() == 8 && "k3s"@[1] == '3' && "k0s"@[1] == '0');
    assert(a.wire_text().len() == b.wire_text().len() && a.wire_text()[1] == b.wire_text()[1]);
}

proof fn lemma_mode_names(a: CleanupMode, b: CleanupMode)
    requires
        a.wire_text() == b.wire_text(),
    ensures
        a == b,
{
    reveal_strlit("Standard");
    reveal_strlit("VerifiedDestroy");
    assert("Standard"@.len() == 8 && "VerifiedDestroy"@.len() == 15);
    assert(a.wire_text().len() == b.wire_text().len());
}

proof fn lemma_result_names(a: CheckResult, b: CheckResult)
    requires
        a.wire_text() == b.wire_text(),
    ensures
        a == b,
{
    reveal_strlit("verified");
    reveal_strlit("notApplicable");
    reveal_strlit("unknown");
    assert("verified"@.len() == 8 && "notApplicable"@.len() == 13 && "unknown"@.len() == 7);
    assert(a.wire_text().len() == b.wire_text().len());
}

proof fn lemma_outcome_names(a: TeardownOutcome, b: TeardownOutcome)
    requires
        a.wire_text() == b.wire_text(),
    ensures
        a == b,
{
    reveal_strlit("inProgress");
    reveal_strlit("verified");
    reveal_strlit("quarantined");
    assert("inProgress"@.len() == 10 && "verified"@.len() == 8 && "quarantined"@.len() == 11);
    assert(a.wire_text().len() == b.wire_text().len());
}

proof fn lemma_identity(a: teardown::IdentityView, b: teardown::IdentityView)
    ensures
        json_laws::integral(a.value()),
        a.value() == b.value() ==> a == b,
{
    let p = a.value()->Object_0;
    let q = b.value()->Object_0;
    assert forall|i: int| 0 <= i < p.len() implies json_laws::integral((#[trigger] p[i]).1) by {
        assert(p[i].1 is Text);
    }
    if a.value() == b.value() {
        assert(p.len() == q.len());
        assert(p[0].1->Text_0 == a.api_version && q[0].1->Text_0 == b.api_version);
        assert(p[1].1->Text_0 == a.kind && q[1].1->Text_0 == b.kind);
        if a.namespace is Some {
            assert(p[2].1->Text_0 == a.namespace->0 && q[2].1->Text_0 == b.namespace->0);
            assert(p[3].1->Text_0 == a.name && q[3].1->Text_0 == b.name);
            assert(p[4].1->Text_0 == a.uid && q[4].1->Text_0 == b.uid);
        } else {
            assert(p[2].1->Text_0 == a.name && q[2].1->Text_0 == b.name);
            assert(p[3].1->Text_0 == a.uid && q[3].1->Text_0 == b.uid);
        }
        assert(a =~= b);
    }
}

proof fn lemma_reference(
    a: (Seq<char>, Option<Seq<char>>),
    b: (Seq<char>, Option<Seq<char>>),
)
    ensures
        json_laws::integral(teardown::reference_value(a)),
        teardown::reference_value(a) == teardown::reference_value(b) ==> a == b,
{
    let p = teardown::reference_value(a)->Object_0;
    let q = teardown::reference_value(b)->Object_0;
    assert forall|i: int| 0 <= i < p.len() implies json_laws::integral((#[trigger] p[i]).1) by {
        assert(p[i].1 is Text);
    }
    if teardown::reference_value(a) == teardown::reference_value(b) {
        assert(p.len() == q.len());
        assert(p[0].1->Text_0 == a.0 && q[0].1->Text_0 == b.0);
        if a.1 is Some {
            assert(p[1].1->Text_0 == a.1->0 && q[1].1->Text_0 == b.1->0);
        }
    }
}

/// Whether two entries record the same resource.
pub open spec fn same_resource(a: CreationManifestResource, b: CreationManifestResource) -> bool {
    &&& a.subject == b.subject
    &&& a.resource@ == b.resource@
    &&& a.controller@ == b.controller@
    &&& a.control_relation == b.control_relation
}

/// Whether two entries record the same volume.
pub open spec fn same_volume(a: StorageVolumeProvenance, b: StorageVolumeProvenance) -> bool {
    &&& a.pvc@ == b.pvc@
    &&& a.pv@ == b.pv@
    &&& a.storage_class@ == b.storage_class@
    &&& a.reclaim_policy@ == b.reclaim_policy@
    &&& a.pv_reclaim_policy@ == b.pv_reclaim_policy@
}

/// Whether two entries record the same datastore.
pub open spec fn same_datastore(a: DatastoreProvenance, b: DatastoreProvenance) -> bool {
    match (a, b) {
        (DatastoreProvenance::EmbeddedSqlite, DatastoreProvenance::EmbeddedSqlite) => true,
        (
            DatastoreProvenance::ExternalPostgres {
                endpoint_digest: endpoint_a,
                system_identifier: system_a,
                database: database_a,
                database_oid: database_oid_a,
                role: role_a,
                role_oid: role_oid_a,
            },
            DatastoreProvenance::ExternalPostgres {
                endpoint_digest: endpoint_b,
                system_identifier: system_b,
                database: database_b,
                database_oid: database_oid_b,
                role: role_b,
                role_oid: role_oid_b,
            },
        ) => {
            &&& endpoint_a@ == endpoint_b@
            &&& system_a@ == system_b@
            &&& database_a@ == database_b@
            &&& database_oid_a@ == database_oid_b@
            &&& role_a@ == role_b@
            &&& role_oid_a@ == role_oid_b@
        },
        _ => false,
    }
}

/// Whether two checks are the same evidence.
pub open spec fn same_check(a: TeardownCheck, b: TeardownCheck) -> bool {
    &&& a.subject == b.subject
    &&& a.result == b.result
    &&& text::opt_text(a.reason) == text::opt_text(b.reason)
    &&& text::texts(a.verified@) == text::texts(b.verified@)
}

/// Whether two manifests record the same.
pub open spec fn same_manifest(a: TeardownCreationManifest, b: TeardownCreationManifest) -> bool {
    &&& a.schema_version == b.schema_version
    &&& a.instance@ == b.instance@
    &&& a.namespace@ == b.namespace@
    &&& a.backend_type == b.backend_type
    &&& a.config_digest@ == b.config_digest@
    &&& a.service_cidr@ == b.service_cidr@
    &&& a.cluster_cidr@ == b.cluster_cidr@
    &&& a.server_replicas == b.server_replicas
    &&& a.agent_replicas == b.agent_replicas
    &&& a.resources@.len() == b.resources@.len()
    &&& forall|i: int|
        0 <= i < a.resources@.len() ==> same_resource(#[trigger] a.resources@[i], b.resources@[i])
    &&& a.storage@.len() == b.storage@.len()
    &&& forall|i: int|
        0 <= i < a.storage@.len() ==> same_volume(#[trigger] a.storage@[i], b.storage@[i])
    &&& same_datastore(a.datastore, b.datastore)
    &&& a.sealed_at@ == b.sealed_at@
}

/// Whether two receipts say the same.
pub open spec fn same_receipt(a: TeardownReceipt, b: TeardownReceipt) -> bool {
    &&& a.schema_version == b.schema_version
    &&& a.attempt_id@ == b.attempt_id@
    &&& a.lease@ == b.lease@
    &&& a.instance@ == b.instance@
    &&& a.pool@ == b.pool@
    &&& a.backend_type@ == b.backend_type@
    &&& a.config_digest@ == b.config_digest@
    &&& a.instance_spec_digest@ == b.instance_spec_digest@
    &&& a.creation_manifest_digest@ == b.creation_manifest_digest@
    &&& a.cleanup_mode == b.cleanup_mode
    &&& a.started_at@ == b.started_at@
    &&& text::opt_text(a.completed_at) == text::opt_text(b.completed_at)
    &&& a.checks@.len() == b.checks@.len()
    &&& forall|i: int|
        0 <= i < a.checks@.len() ==> same_check(#[trigger] a.checks@[i], b.checks@[i])
    &&& a.retry_count == b.retry_count
    &&& a.outcome == b.outcome
}

proof fn lemma_resource(a: CreationManifestResource, b: CreationManifestResource)
    ensures
        json_laws::integral(a.value()),
        a.value() == b.value() ==> same_resource(a, b),
{
    let p = a.value()->Object_0;
    let q = b.value()->Object_0;
    lemma_identity(a.resource@, b.resource@);
    lemma_identity(a.controller@, b.controller@);
    assert forall|i: int| 0 <= i < p.len() implies json_laws::integral((#[trigger] p[i]).1) by {
        assert(i == 0 || i == 3 ==> p[i].1 is Text);
    }
    if a.value() == b.value() {
        assert(p[0].1->Text_0 == q[0].1->Text_0);
        assert(p[1].1 == q[1].1 && p[2].1 == q[2].1);
        assert(p[3].1->Text_0 == q[3].1->Text_0);
        lemma_subject_names(a.subject, b.subject);
        lemma_relation_names(a.control_relation, b.control_relation);
    }
}

proof fn lemma_volume(a: StorageVolumeProvenance, b: StorageVolumeProvenance)
    ensures
        json_laws::integral(a.value()),
        a.value() == b.value() ==> same_volume(a, b),
{
    let p = a.value()->Object_0;
    let q = b.value()->Object_0;
    lemma_identity(a.pvc@, b.pvc@);
    lemma_identity(a.pv@, b.pv@);
    lemma_identity(a.storage_class@, b.storage_class@);
    assert forall|i: int| 0 <= i < p.len() implies json_laws::integral((#[trigger] p[i]).1) by {
        assert(i >= 3 ==> p[i].1 is Text);
    }
    if a.value() == b.value() {
        assert(p[0].1 == q[0].1 && p[1].1 == q[1].1 && p[2].1 == q[2].1);
        assert(p[3].1->Text_0 == q[3].1->Text_0);
        assert(p[4].1->Text_0 == q[4].1->Text_0);
    }
}

proof fn lemma_datastore(a: DatastoreProvenance, b: DatastoreProvenance)
    ensures
        json_laws::integral(a.value()),
        a.value() == b.value() ==> same_datastore(a, b),
{
    let p = a.value()->Object_0;
    let q = b.value()->Object_0;
    assert forall|i: int| 0 <= i < p.len() implies json_laws::integral((#[trigger] p[i]).1) by {
        assert(p[i].1 is Text);
    }
    if a.value() == b.value() {
        assert(p.len() == q.len());
        if p.len() == 7 {
            assert(p[1].1->Text_0 == q[1].1->Text_0);
            assert(p[2].1->Text_0 == q[2].1->Text_0);
            assert(p[3].1->Text_0 == q[3].1->Text_0);
            assert(p[4].1->Text_0 == q[4].1->Text_0);
            assert(p[5].1->Text_0 == q[5].1->Text_0);
            assert(p[6].1->Text_0 == q[6].1->Text_0);
        }
    }
}

proof fn lemma_texts(a: Seq<Seq<char>>, b: Seq<Seq<char>>)
    ensures
        json_laws::integral(json::JsonView::Array(json::text_views(a))),
        json::text_views(a) == json::text_views(b) ==> a == b,
{
    let views = json::text_views(a);
    assert forall|i: int| 0 <= i < views.len() implies json_laws::integral(#[trigger] views[i]) by {
        assert(views[i] is Text);
    }
    if json::text_views(a) == json::text_views(b) {
        assert(json::text_views(a).len() == json::text_views(b).len());
        assert forall|i: int| 0 <= i < a.len() implies a[i] == b[i] by {
            assert(json::text_views(a)[i]->Text_0 == json::text_views(b)[i]->Text_0);
        }
        assert(a =~= b);
    }
}

proof fn lemma_check(a: TeardownCheck, b: TeardownCheck)
    ensures
        json_laws::integral(a.value()),
        a.value() == b.value() ==> same_check(a, b),
{
    let p = a.value()->Object_0;
    let q = b.value()->Object_0;
    let verified_a = text::texts(a.verified@);
    let verified_b = text::texts(b.verified@);
    lemma_texts(verified_a, verified_b);
    assert forall|i: int| 0 <= i < p.len() implies json_laws::integral((#[trigger] p[i]).1) by {
        assert(i < 2 ==> p[i].1 is Text);
        assert(i == 2 && a.reason is Some ==> p[i].1 is Text);
        assert(i > 2 || (i == 2 && a.reason is None) ==> p[i].1 == json::JsonView::Array(
            json::text_views(verified_a),
        ));
    }
    if a.value() == b.value() {
        reveal_strlit("reason");
        reveal_strlit("verified");
        assert(p.len() == q.len());
        assert(p[0].1->Text_0 == q[0].1->Text_0);
        assert(p[1].1->Text_0 == q[1].1->Text_0);
        lemma_subject_names(a.subject, b.subject);
        lemma_result_names(a.result, b.result);
        if p.len() > 2 {
            assert(p[2].0.len() == q[2].0.len());
        }
        assert(a.reason is Some <==> b.reason is Some);
        if a.reason is Some {
            assert(p[2].1->Text_0 == q[2].1->Text_0);
            if p.len() == 4 {
                assert(p[3].1->Array_0 == q[3].1->Array_0);
            }
        } else if p.len() == 3 {
            assert(p[2].1->Array_0 == q[2].1->Array_0);
        }
        if verified_a.len() == 0 {
            assert(verified_b.len() == 0);
            assert(verified_a =~= verified_b);
        }
    }
}

proof fn lemma_resources(a: Seq<CreationManifestResource>, b: Seq<CreationManifestResource>)
    ensures
        json_laws::integral(json::JsonView::Array(teardown::resource_values(a))),
        teardown::resource_values(a) == teardown::resource_values(b) ==> a.len() == b.len()
            && forall|i: int| 0 <= i < a.len() ==> same_resource(#[trigger] a[i], b[i]),
{
    let p = teardown::resource_values(a);
    let q = teardown::resource_values(b);
    assert forall|i: int| 0 <= i < p.len() implies json_laws::integral(#[trigger] p[i]) by {
        lemma_resource(a[i], a[i]);
    }
    if p == q {
        assert(p.len() == q.len());
        assert forall|i: int| 0 <= i < a.len() implies same_resource(#[trigger] a[i], b[i]) by {
            assert(p[i] == q[i]);
            lemma_resource(a[i], b[i]);
        }
    }
}

proof fn lemma_volumes(a: Seq<StorageVolumeProvenance>, b: Seq<StorageVolumeProvenance>)
    ensures
        json_laws::integral(json::JsonView::Array(teardown::volume_values(a))),
        teardown::volume_values(a) == teardown::volume_values(b) ==> a.len() == b.len() && forall|
            i: int,
        | 0 <= i < a.len() ==> same_volume(#[trigger] a[i], b[i]),
{
    let p = teardown::volume_values(a);
    let q = teardown::volume_values(b);
    assert forall|i: int| 0 <= i < p.len() implies json_laws::integral(#[trigger] p[i]) by {
        lemma_volume(a[i], a[i]);
    }
    if p == q {
        assert(p.len() == q.len());
        assert forall|i: int| 0 <= i < a.len() implies same_volume(#[trigger] a[i], b[i]) by {
            assert(p[i] == q[i]);
            lemma_volume(a[i], b[i]);
        }
    }
}

proof fn lemma_checks(a: Seq<TeardownCheck>, b: Seq<TeardownCheck>)
    ensures
        json_laws::integral(json::JsonView::Array(teardown::check_values(a))),
        teardown::check_values(a) == teardown::check_values(b) ==> a.len() == b.len() && forall|
            i: int,
        | 0 <= i < a.len() ==> same_check(#[trigger] a[i], b[i]),
{
    let p = teardown::check_values(a);
    let q = teardown::check_values(b);
    assert forall|i: int| 0 <= i < p.len() implies json_laws::integral(#[trigger] p[i]) by {
        lemma_check(a[i], a[i]);
    }
    if p == q {
        assert(p.len() == q.len());
        assert forall|i: int| 0 <= i < a.len() implies same_check(#[trigger] a[i], b[i]) by {
            assert(p[i] == q[i]);
            lemma_check(a[i], b[i]);
        }
    }
}

proof fn lemma_manifest_is_integral(manifest: TeardownCreationManifest)
    ensures
        json_laws::integral(manifest.value()),
{
    let p = manifest.value()->Object_0;
    lemma_reference(manifest.instance@, manifest.instance@);
    lemma_resources(manifest.resources@, manifest.resources@);
    lemma_volumes(manifest.storage@, manifest.storage@);
    lemma_datastore(manifest.datastore, manifest.datastore);
    assert forall|i: int| 0 <= i < p.len() implies json_laws::integral((#[trigger] p[i]).1) by {
        assert(2 <= i <= 6 ==> p[i].1 is Text);
        assert(i == 0 || i == 7 || i == 8 ==> p[i].1->Number_0 is Integer);
        assert(i == p.len() - 1 ==> p[i].1 is Text);
        assert(i == p.len() - 2 ==> p[i].1 == manifest.datastore.value());
        assert(i == 10 && p.len() == 13 ==> p[i].1 == json::JsonView::Array(
            teardown::volume_values(manifest.storage@),
        ));
    }
}

/// A manifest's digest is taken of a text that determines the manifest: two
/// manifests that are not the same are never hashed as the same bytes.
pub proof fn law_manifest_text_is_unambiguous(
    a: TeardownCreationManifest,
    b: TeardownCreationManifest,
)
    requires
        encode_utf8(a.json()) == encode_utf8(b.json()),
    ensures
        same_manifest(a, b),
{
    encode_utf8_decode_utf8(a.json());
    encode_utf8_decode_utf8(b.json());
    lemma_manifest_is_integral(a);
    lemma_manifest_is_integral(b);
    json_laws::law_json_text_is_unambiguous(a.value(), b.value());
    let p = a.value()->Object_0;
    let q = b.value()->Object_0;
    assert(p.len() == q.len());
    assert(p[0].1 == q[0].1 && p[7].1 == q[7].1 && p[8].1 == q[8].1);
    assert(p[1].1 == q[1].1);
    lemma_reference(a.instance@, b.instance@);
    assert(p[2].1->Text_0 == q[2].1->Text_0);
    assert(p[3].1->Text_0 == q[3].1->Text_0);
    lemma_backend_names(a.backend_type, b.backend_type);
    assert(p[4].1->Text_0 == q[4].1->Text_0);
    assert(p[5].1->Text_0 == q[5].1->Text_0);
    assert(p[6].1->Text_0 == q[6].1->Text_0);
    assert(p[9].1->Array_0 == q[9].1->Array_0);
    lemma_resources(a.resources@, b.resources@);
    if p.len() == 13 {
        assert(p[10].1->Array_0 == q[10].1->Array_0);
        lemma_volumes(a.storage@, b.storage@);
    }
    let last = p.len() - 1;
    assert(p[last - 1].1 == a.datastore.value() && q[last - 1].1 == b.datastore.value());
    lemma_datastore(a.datastore, b.datastore);
    assert(p[last].1->Text_0 == a.sealed_at@ && q[last].1->Text_0 == b.sealed_at@);
}

proof fn lemma_receipt_is_integral(receipt: TeardownReceipt)
    ensures
        json_laws::integral(receipt.value()),
{
    let p = receipt.value()->Object_0;
    lemma_reference(receipt.lease@, receipt.lease@);
    lemma_reference(receipt.instance@, receipt.instance@);
    lemma_reference(receipt.pool@, receipt.pool@);
    lemma_checks(receipt.checks@, receipt.checks@);
    assert forall|i: int| 0 <= i < p.len() implies json_laws::integral((#[trigger] p[i]).1) by {
        assert(i == 0 || i == p.len() - 2 ==> p[i].1->Number_0 is Integer);
        assert(i == 1 || 5 <= i <= 10 ==> p[i].1 is Text);
        assert(i == 11 && p.len() == 15 ==> p[i].1 is Text);
        assert(i == p.len() - 1 ==> p[i].1 is Text);
        assert(i == p.len() - 3 ==> p[i].1 == json::JsonView::Array(
            teardown::check_values(receipt.checks@),
        ));
    }
}

/// An acknowledgement token is taken of a text that determines the receipt: two
/// receipts that do not say the same are never hashed as the same bytes.
pub proof fn law_receipt_text_is_unambiguous(a: TeardownReceipt, b: TeardownReceipt)
    requires
        encode_utf8(a.json()) == encode_utf8(b.json()),
    ensures
        same_receipt(a, b),
{
    encode_utf8_decode_utf8(a.json());
    encode_utf8_decode_utf8(b.json());
    lemma_receipt_is_integral(a);
    lemma_receipt_is_integral(b);
    json_laws::law_json_text_is_unambiguous(a.value(), b.value());
    let p = a.value()->Object_0;
    let q = b.value()->Object_0;
    assert(p.len() == q.len());
    assert(p[0].1 == q[0].1);
    assert(p[1].1->Text_0 == q[1].1->Text_0);
    assert(p[2].1 == q[2].1 && p[3].1 == q[3].1 && p[4].1 == q[4].1);
    lemma_reference(a.lease@, b.lease@);
    lemma_reference(a.instance@, b.instance@);
    lemma_reference(a.pool@, b.pool@);
    assert(p[5].1->Text_0 == q[5].1->Text_0);
    assert(p[6].1->Text_0 == q[6].1->Text_0);
    assert(p[7].1->Text_0 == q[7].1->Text_0);
    assert(p[8].1->Text_0 == q[8].1->Text_0);
    assert(p[9].1->Text_0 == q[9].1->Text_0);
    lemma_mode_names(a.cleanup_mode, b.cleanup_mode);
    assert(p[10].1->Text_0 == q[10].1->Text_0);
    if p.len() == 15 {
        assert(p[11].1->Text_0 == q[11].1->Text_0);
    }
    let last = p.len() - 1;
    assert(p[last - 2].1->Array_0 == teardown::check_values(a.checks@));
    assert(q[last - 2].1->Array_0 == teardown::check_values(b.checks@));
    lemma_checks(a.checks@, b.checks@);
    assert(p[last - 1].1 == q[last - 1].1);
    assert(p[last - 1].1 == json::integer(a.retry_count as int));
    assert(q[last - 1].1 == json::integer(b.retry_count as int));
    assert(p[last].1->Text_0 == a.outcome.wire_text() && q[last].1->Text_0
        == b.outcome.wire_text());
    lemma_outcome_names(a.outcome, b.outcome);
}

} // verus!
