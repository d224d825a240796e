//! The forms in which texts, bytes and records leave the library, part by part.

use crate::certification::fingerprint;
use crate::certification::names::{self, SandboxPool};
use crate::crd::claim::ClaimPhase;
use crate::crd::execution::{self, ExecutionState};
use crate::crd::lease::LeasePhase;
use crate::crd::profile::{BackendType, NodeTaint, TaintEffect};
use crate::crd::sandbox::{SandboxIsolation, SandboxLeasePhase};
use crate::crd::teardown::{
    self, CheckResult, CleanupMode, CreationControlRelation, CreationManifestResource,
    DatastoreProvenance, IdentityView, StorageVolumeProvenance, TeardownCheck,
    TeardownCreationManifest, TeardownOutcome, TeardownReceipt, TeardownSubject,
};
use crate::digest;
use crate::frame;
use crate::json;
use crate::k8s;
use crate::number;
use crate::text;
use vstd::prelude::*;
use vstd::utf8::*;

verus! {

/// Whether two texts agree up to a place at which the one ends or has the lower
/// character.
pub open spec fn differs_downwards_at(a: Seq<char>, b: Seq<char>, at: int) -> bool {
    &&& 0 <= at <= a.len()
    &&& at < b.len()
    &&& forall|i: int| 0 <= i < at ==> #[trigger] a[i] == b[i]
    &&& at < a.len() ==> a[at] < b[at]
}

/// A text comes before another exactly where they agree up to some place, at which the
/// first one ends or has the lower character.
pub proof fn law_texts_are_ordered_by_characters(a: Seq<char>, b: Seq<char>)
    ensures
        text::text_less(a, b) <==> exists|at: int| differs_downwards_at(a, b, at),
    decreases a.len(),
{
    if b.len() > 0 && a.len() > 0 && a[0] == b[0] {
        let left = a.skip(1);
        let right = b.skip(1);
        law_texts_are_ordered_by_characters(left, right);
        if text::text_less(left, right) {
            let at = choose|at: int| differs_downwards_at(left, right, at);
            assert forall|i: int| 0 <= i < at + 1 implies #[trigger] a[i] == b[i] by {
                if i > 0 {
                    assert(left[i - 1] == right[i - 1]);
                }
            }
            if at + 1 < a.len() {
                assert(left[at] == a[at + 1]);
            }
            assert(right[at] == b[at + 1]);
            assert(differs_downwards_at(a, b, at + 1));
        }
        if exists|at: int| differs_downwards_at(a, b, at) {
            let at = choose|at: int| differs_downwards_at(a, b, at);
            assert(at > 0);
            assert forall|i: int| 0 <= i < at - 1 implies #[trigger] left[i] == right[i] by {
                assert(a[i + 1] == b[i + 1]);
            }
            if at < a.len() {
                assert(left[at - 1] == a[at]);
            }
            assert(right[at - 1] == b[at]);
            assert(differs_downwards_at(left, right, at - 1));
        }
    } else if b.len() > 0 {
        if text::text_less(a, b) {
            assert(differs_downwards_at(a, b, 0));
        } else {
            assert forall|at: int| !differs_downwards_at(a, b, at) by {
                if at > 0 {
                    if differs_downwards_at(a, b, at) {
                        assert(a[0] == b[0]);
                    }
                }
            }
        }
    }
}

/// Sorted texts are the same texts, none before one that comes before it.
pub proof fn law_sorted_texts_are_the_same_in_order(values: Seq<Seq<char>>)
    ensures
        text::sorted(values).to_multiset() == values.to_multiset(),
        text::sorted(values).len() == values.len(),
        forall|i: int, j: int|
            0 <= i < j < text::sorted(values).len() ==> !text::text_less(
                #[trigger] text::sorted(values)[j],
                #[trigger] text::sorted(values)[i],
            ),
{
    broadcast use vstd::seq_lib::group_to_multiset_ensures;

    text::lemma_sorted(values);
    assert(text::sorted(values).to_multiset().len() == values.to_multiset().len());
}

/// The text of a JSON value: the three words, numerals, quoted strings, and lists and
/// objects in brackets with commas between their parts and a colon behind each key.
pub proof fn law_json_text_by_form(value: json::JsonView)
    ensures
        value is Null ==> json::value_text(value) == "null"@,
        value matches json::JsonView::Bool(flag) ==> json::value_text(value) == (if flag {
            "true"@
        } else {
            "false"@
        }),
        value matches json::JsonView::Number(json::NumberView::Integer(number))
            ==> json::value_text(value) == number::signed_decimal(number),
        value matches json::JsonView::Number(json::NumberView::Float(digits)) ==> json::value_text(
            value,
        ) == digits,
        value matches json::JsonView::Text(characters) ==> json::value_text(value)
            == json::quoted(characters),
        value matches json::JsonView::Array(items) ==> json::value_text(value) == "["@
            + json::joined(
            Seq::new(items.len(), |i: int| json::value_text(items[i])),
        ) + "]"@,
        value matches json::JsonView::Object(members) ==> json::value_text(value) == "{"@
            + json::joined(
            Seq::new(
                members.len(),
                |i: int| json::quoted(members[i].0) + ":"@ + json::value_text(members[i].1),
            ),
        ) + "}"@,
{
    match value {
        json::JsonView::Array(items) => {
            assert(json::items_texts(items) =~= Seq::new(
                items.len(),
                |i: int| json::value_text(items[i]),
            ));
        },
        json::JsonView::Object(members) => {
            assert(json::members_texts(members) =~= Seq::new(
                members.len(),
                |i: int| json::quoted(members[i].0) + ":"@ + json::value_text(members[i].1),
            ));
        },
        _ => {},
    }
}

/// Parts are joined by commas: none make nothing, one makes itself, and a further one
/// comes behind a comma.
pub proof fn law_parts_are_joined_by_commas(parts: Seq<Seq<char>>, part: Seq<char>)
    ensures
        json::joined(Seq::empty()) == Seq::<char>::empty(),
        json::joined(seq![part]) == part,
        parts.len() > 0 ==> json::joined(parts.push(part)) == json::joined(parts) + ","@ + part,
{
    assert(parts.push(part).drop_last() =~= parts);
}

/// A quoted text stands between double quotes, character by character: a quote and a
/// backslash behind a backslash, the control characters by their short or numeric
/// escapes, and every other character as it is.
pub proof fn law_characters_are_escaped(head: Seq<char>, c: char)
    ensures
        json::quoted(head) == seq!['"'] + json::escaped(head) + seq!['"'],
        json::escaped(Seq::empty()) == Seq::<char>::empty(),
        json::escaped(seq![c] + head) == json::escaped_char(c) + json::escaped(head),
        c == '"' ==> json::escaped_char(c) == seq!['\\', '"'],
        c == '\\' ==> json::escaped_char(c) == seq!['\\', '\\'],
        c as int == 8 ==> json::escaped_char(c) == seq!['\\', 'b'],
        c as int == 9 ==> json::escaped_char(c) == seq!['\\', 't'],
        c as int == 10 ==> json::escaped_char(c) == seq!['\\', 'n'],
        c as int == 12 ==> json::escaped_char(c) == seq!['\\', 'f'],
        c as int == 13 ==> json::escaped_char(c) == seq!['\\', 'r'],
        (c as int) < 32 && c as int != 8 && c as int != 9 && c as int != 10 && c as int != 12
            && c as int != 13 ==> json::escaped_char(c) == seq![
            '\\',
            'u',
            '0',
            '0',
            digest::hex_digit(c as int / 16),
            digest::hex_digit(c as int % 16),
        ],
        c as int >= 32 && c != '"' && c != '\\' ==> json::escaped_char(c) == seq![c],
{
    assert((seq![c] + head).skip(1) =~= head);
}

/// Hexadecimal text has two digits for each byte, the high half first: the ten decimal
/// digits and then the letters from `a` on.
pub proof fn law_hexadecimal_has_two_digits_a_byte(bytes: Seq<u8>, i: int)
    requires
        0 <= i < bytes.len(),
    ensures
        digest::hex_text(bytes).len() == 2 * bytes.len(),
        digest::hex_text(bytes)[2 * i] as int == ({
            let high = bytes[i] as int / 16;
            if high < 10 {
                48 + high
            } else {
                87 + high
            }
        }),
        digest::hex_text(bytes)[2 * i + 1] as int == ({
            let low = bytes[i] as int % 16;
            if low < 10 {
                48 + low
            } else {
                87 + low
            }
        }),
{
    assert((2 * i) % 2 == 0 && (2 * i) / 2 == i);
    assert((2 * i + 1) % 2 == 1 && (2 * i + 1) / 2 == i);
}

/// The digits of a number in base sixteen, of a fixed width: none for no width, and
/// otherwise those of a sixteenth of it and then the digit of the rest.
pub proof fn law_hexadecimal_digits_of_a_number(value: nat, width: nat)
    ensures
        number::hex_digits(value, 0).len() == 0,
        number::hex_digits(value, width + 1).drop_last() == number::hex_digits(value / 16, width),
        number::hex_digits(value, width + 1).last() == digest::hex_digit((value % 16) as int),
{
    assert(number::hex_digits(value, width + 1).drop_last() =~= number::hex_digits(
        value / 16,
        width,
    ));
}

/// A number is framed in eight bytes, the most significant first.
pub proof fn law_numbers_are_framed_in_eight_bytes(value: nat, width: nat)
    ensures
        frame::be64(value).len() == 8,
        frame::be64(value) == frame::be_bytes(value, 8),
        frame::be_bytes(value, 0).len() == 0,
        frame::be_bytes(value, width + 1).drop_last() == frame::be_bytes(value / 256, width),
        frame::be_bytes(value, width + 1).last() as int == value % 256,
{
    reveal_with_fuel(frame::be_bytes, 9);
    assert(frame::be_bytes(value, width + 1).drop_last() =~= frame::be_bytes(value / 256, width));
}

/// A text is framed by the number of its bytes and then those bytes.
pub proof fn law_texts_are_framed_by_their_length(value: Seq<char>)
    ensures
        frame::text_frame(value) == frame::be64(encode_utf8(value).len()) + encode_utf8(value),
{
}

/// A request is framed by the number of its arguments, each of them, the working
/// directory behind a one or a zero alone, the timeout, and one byte for the lifecycle,
/// where it is known.
pub proof fn law_request_frame_by_parts(
    argv: Seq<Seq<char>>,
    argument: Seq<char>,
    cwd: Option<Seq<char>>,
    timeout: Seq<char>,
    detached: Option<bool>,
)
    ensures
        execution::request_frame(argv, cwd, timeout, detached) == frame::be64(argv.len())
            + execution::arguments_frame(argv) + (match cwd {
            Some(directory) => seq![1u8] + frame::text_frame(directory),
            None => seq![0u8],
        }) + frame::text_frame(timeout) + (match detached {
            Some(flag) => if flag {
                seq![1u8]
            } else {
                seq![0u8]
            },
            None => Seq::empty(),
        }),
        execution::arguments_frame(Seq::empty()) == Seq::<u8>::empty(),
        execution::arguments_frame(seq![argument] + argv) == frame::text_frame(argument)
            + execution::arguments_frame(argv),
{
    assert((seq![argument] + argv).skip(1) =~= argv);
    let directory = execution::directory_frame(cwd);
    let mode = execution::mode_frame(detached);
    assert(execution::request_frame(argv, cwd, timeout, detached) =~= frame::be64(argv.len())
        + execution::arguments_frame(argv) + directory + frame::text_frame(timeout) + mode);
}

/// An execution is named by the first thirty-two digits of the digest of its lease's
/// framed UID and its key.
pub proof fn law_execution_is_named_by_a_digest(lease_uid: Seq<char>, key: Seq<char>)
    ensures
        execution::execution_name_text(lease_uid, key) == "sbxe-"@ + digest::sha256_hex(
            frame::be64(encode_utf8(lease_uid).len()) + encode_utf8(lease_uid) + encode_utf8(key),
        ).take(32),
{
    assert(execution::execution_frame(lease_uid, key) =~= frame::be64(
        encode_utf8(lease_uid).len(),
    ) + encode_utf8(lease_uid) + encode_utf8(key));
}

/// The names of a pool's upstream objects, its claim and the fence of an attempt.
pub proof fn law_certification_names(
    pool: k8s::MetaView,
    pool_uid: Seq<char>,
    fingerprint: Seq<char>,
)
    ensures
        names::object_name(pool) == "kobe-"@ + pool.any_name(),
        names::claim_name(pool_uid) == "kobe-cert-"@ + digest::sha256_hex(
            encode_utf8(pool_uid),
        ).take(48),
        is_ascii_chars(fingerprint) && fingerprint.len() == 64 ==> names::fence_name_text(
            fingerprint,
        ) == "kobe-cert-fence-"@ + fingerprint.take(40),
        pool.name is Some && pool.uid is Some <==> names::pool_owner(pool) is Some,
        names::pool_owner(pool) matches Some(owner) ==> {
            &&& owner.api_version == "kobe.kunobi.ninja/v1alpha1"@
            &&& owner.kind == "SandboxPool"@
            &&& owner.name == pool.name->0
            &&& owner.uid == pool.uid->0
            &&& owner.controller == Some(true)
        },
{
    if is_ascii_chars(fingerprint) && fingerprint.len() == 64 {
        names::law_digest_names_a_fence(fingerprint);
    }
}

/// What an attempt's fingerprint is taken of, member by member.
pub proof fn law_fingerprint_evidence_by_member(
    pool: SandboxPool,
    template: k8s::MetaView,
    warm_pool: k8s::MetaView,
    runtime_api_version: Seq<char>,
)
    ensures
        fingerprint::fingerprint(pool, template, warm_pool, runtime_api_version) is Ok
            <==> k8s::nonempty(pool.metadata@.uid) is Some && pool.metadata.generation is Some,
        fingerprint::fingerprint(pool, template, warm_pool, runtime_api_version) matches Ok(print)
            ==> print == digest::sha256_hex(
            encode_utf8(
                json::value_text(
                    fingerprint::evidence(pool, template, warm_pool, runtime_api_version),
                ),
            ),
        ),
        fingerprint::evidence(pool, template, warm_pool, runtime_api_version)
            == json::JsonView::Object(
            seq![
                ("isolation"@, fingerprint::isolation_value(pool.spec.isolation)),
                (
                    "pool"@,
                    json::JsonView::Object(
                        seq![
                            (
                                "generation"@,
                                json::JsonView::Number(
                                    json::NumberView::Integer(
                                        pool.metadata.generation->0 as int,
                                    ),
                                ),
                            ),
                            ("uid"@, fingerprint::uid_value(pool.metadata@.uid)),
                        ],
                    ),
                ),
                (
                    "probe"@,
                    json::JsonView::Object(
                        seq![("canary"@, fingerprint::canary_value(pool.spec.readiness.canary))],
                    ),
                ),
                (
                    "runtime"@,
                    json::JsonView::Object(
                        seq![
                            ("apiVersion"@, json::JsonView::Text(runtime_api_version)),
                            ("release"@, json::JsonView::Text("v0.5.6"@)),
                        ],
                    ),
                ),
                ("template"@, fingerprint::named_value(template)),
                ("templateSpec"@, fingerprint::template_value(pool.spec.template)),
                ("warmPool"@, fingerprint::named_value(warm_pool)),
            ],
        ),
        pool.spec.isolation matches SandboxIsolation::TrustedRunc {  }
            ==> fingerprint::isolation_value(pool.spec.isolation) == json::JsonView::Object(
            seq![("tier"@, json::JsonView::Text("trusted-runc"@))],
        ),
        pool.spec.isolation matches SandboxIsolation::Gvisor { runtime_class_name }
            ==> fingerprint::isolation_value(pool.spec.isolation) == json::JsonView::Object(
            seq![
                ("runtimeClassName"@, json::JsonView::Text(runtime_class_name@)),
                ("tier"@, json::JsonView::Text("gvisor"@)),
            ],
        ),
        pool.spec.isolation matches SandboxIsolation::Kata { runtime_class_name }
            ==> fingerprint::isolation_value(pool.spec.isolation) == json::JsonView::Object(
            seq![
                ("runtimeClassName"@, json::JsonView::Text(runtime_class_name@)),
                ("tier"@, json::JsonView::Text("kata"@)),
            ],
        ),
{
}

/// One text member of an object.
pub open spec fn member(key: Seq<char>, value: Seq<char>) -> (Seq<char>, json::JsonView) {
    (key, json::JsonView::Text(value))
}

/// The JSON of an identity and of a recorded resource or volume, member by member; the
/// namespace is left out where there is none.
pub proof fn law_recorded_json_by_member(
    identity: IdentityView,
    entry: CreationManifestResource,
    volume: StorageVolumeProvenance,
)
    ensures
        identity.namespace matches Some(namespace) ==> identity.value() == json::JsonView::Object(
            seq![
                member("apiVersion"@, identity.api_version),
                member("kind"@, identity.kind),
                member("namespace"@, namespace),
                member("name"@, identity.name),
                member("uid"@, identity.uid),
            ],
        ),
        identity.namespace is None ==> identity.value() == json::JsonView::Object(
            seq![
                member("apiVersion"@, identity.api_version),
                member("kind"@, identity.kind),
                member("name"@, identity.name),
                member("uid"@, identity.uid),
            ],
        ),
        entry.value() == json::JsonView::Object(
            seq![
                member("subject"@, entry.subject.wire_text()),
                ("resource"@, entry.resource@.value()),
                ("controller"@, entry.controller@.value()),
                member("controlRelation"@, entry.control_relation.wire_text()),
            ],
        ),
        volume.value() == json::JsonView::Object(
            seq![
                ("pvc"@, volume.pvc@.value()),
                ("pv"@, volume.pv@.value()),
                ("storageClass"@, volume.storage_class@.value()),
                member("reclaimPolicy"@, volume.reclaim_policy@),
                member("pvReclaimPolicy"@, volume.pv_reclaim_policy@),
            ],
        ),
{
    match identity.namespace {
        Some(namespace) => {
            assert(identity.value()->Object_0 =~= seq![
                member("apiVersion"@, identity.api_version),
                member("kind"@, identity.kind),
                member("namespace"@, namespace),
                member("name"@, identity.name),
                member("uid"@, identity.uid),
            ]);
        },
        None => {
            assert(identity.value()->Object_0 =~= seq![
                member("apiVersion"@, identity.api_version),
                member("kind"@, identity.kind),
                member("name"@, identity.name),
                member("uid"@, identity.uid),
            ]);
        },
    }
}

/// The identities of an external datastore's database and role in words.
pub proof fn law_datastore_identities(datastore: DatastoreProvenance)
    ensures
        datastore matches DatastoreProvenance::ExternalPostgres {
            endpoint_digest,
            system_identifier,
            database,
            database_oid,
            role,
            role_oid,
        } ==> {
            &&& datastore.database_identity() == "postgres:"@ + system_identifier@ + ":"@
                + endpoint_digest@ + ":database:"@ + database@ + ":"@ + database_oid@
            &&& datastore.role_identity() == "postgres:"@ + system_identifier@ + ":"@
                + endpoint_digest@ + ":role:"@ + role@ + ":"@ + role_oid@
            &&& datastore.value() == json::JsonView::Object(
                seq![
                    member("mode"@, "externalPostgres"@),
                    member("endpoint_digest"@, endpoint_digest@),
                    member("system_identifier"@, system_identifier@),
                    member("database"@, database@),
                    member("database_oid"@, database_oid@),
                    member("role"@, role@),
                    member("role_oid"@, role_oid@),
                ],
            )
        },
        datastore is EmbeddedSqlite ==> datastore.value() == json::JsonView::Object(
            seq![member("mode"@, "embeddedSqlite"@)],
        ),
{
}

/// The JSON of a manifest, member by member; the storage is left out where there is
/// none. Its digest is taken of this text.
pub proof fn law_manifest_json_by_member(manifest: TeardownCreationManifest)
    ensures
        manifest.json() == json::value_text(manifest.value()),
        ({
            let head = seq![
                (
                    "schemaVersion"@,
                    json::JsonView::Number(
                        json::NumberView::Integer(manifest.schema_version as int),
                    ),
                ),
                ("instance"@, teardown::reference_value(manifest.instance@)),
                member("namespace"@, manifest.namespace@),
                member("backendType"@, manifest.backend_type.wire_text()),
                member("configDigest"@, manifest.config_digest@),
                member("serviceCidr"@, manifest.service_cidr@),
                member("clusterCidr"@, manifest.cluster_cidr@),
                (
                    "serverReplicas"@,
                    json::JsonView::Number(
                        json::NumberView::Integer(manifest.server_replicas as int),
                    ),
                ),
                (
                    "agentReplicas"@,
                    json::JsonView::Number(
                        json::NumberView::Integer(manifest.agent_replicas as int),
                    ),
                ),
                (
                    "resources"@,
                    json::JsonView::Array(
                        Seq::new(
                            manifest.resources@.len(),
                            |i: int| manifest.resources@[i].value(),
                        ),
                    ),
                ),
            ];
            let storage = seq![
                (
                    "storage"@,
                    json::JsonView::Array(
                        Seq::new(
                            manifest.storage@.len(),
                            |i: int| manifest.storage@[i].value(),
                        ),
                    ),
                ),
            ];
            let tail = seq![
                ("datastore"@, manifest.datastore.value()),
                member("sealedAt"@, manifest.sealed_at@),
            ];
            manifest.value() == json::JsonView::Object(
                if manifest.storage@.len() == 0 {
                    head + tail
                } else {
                    head + storage + tail
                },
            )
        }),
{
    assert(teardown::resource_values(manifest.resources@) =~= Seq::new(
        manifest.resources@.len(),
        |i: int| manifest.resources@[i].value(),
    ));
    assert(teardown::volume_values(manifest.storage@) =~= Seq::new(
        manifest.storage@.len(),
        |i: int| manifest.storage@[i].value(),
    ));
    if manifest.storage@.len() == 0 {
        let members = manifest.value()->Object_0;
        assert(members =~= members.take(10) + members.skip(10));
    }
}

/// The JSON of a check and of a receipt, member by member; a reason, the verified
/// identities and the time of completion are left out where there are none.
pub proof fn law_receipt_json_by_member(check: TeardownCheck, receipt: TeardownReceipt)
    ensures
        check.value() == json::JsonView::Object(
            seq![
                member("subject"@, check.subject.wire_text()),
                member("result"@, check.result.wire_text()),
            ] + (match check.reason {
                Some(reason) => seq![member("reason"@, reason@)],
                None => Seq::empty(),
            }) + (if check.verified@.len() == 0 {
                Seq::empty()
            } else {
                seq![
                    (
                        "verified"@,
                        json::JsonView::Array(
                            Seq::new(
                                check.verified@.len(),
                                |i: int| json::JsonView::Text(check.verified@[i]@),
                            ),
                        ),
                    ),
                ]
            }),
        ),
        receipt.json() == json::value_text(receipt.value()),
        receipt.value() == json::JsonView::Object(
            seq![
                (
                    "schemaVersion"@,
                    json::JsonView::Number(
                        json::NumberView::Integer(receipt.schema_version as int),
                    ),
                ),
                member("attemptId"@, receipt.attempt_id@),
                ("lease"@, teardown::reference_value(receipt.lease@)),
                ("instance"@, teardown::reference_value(receipt.instance@)),
                ("pool"@, teardown::reference_value(receipt.pool@)),
                member("backendType"@, receipt.backend_type@),
                member("configDigest"@, receipt.config_digest@),
                member("instanceSpecDigest"@, receipt.instance_spec_digest@),
                member("creationManifestDigest"@, receipt.creation_manifest_digest@),
                member("cleanupMode"@, receipt.cleanup_mode.wire_text()),
                member("startedAt"@, receipt.started_at@),
            ] + (match receipt.completed_at {
                Some(completed) => seq![member("completedAt"@, completed@)],
                None => Seq::empty(),
            }) + seq![
                (
                    "checks"@,
                    json::JsonView::Array(
                        Seq::new(receipt.checks@.len(), |i: int| receipt.checks@[i].value()),
                    ),
                ),
                (
                    "retryCount"@,
                    json::JsonView::Number(json::NumberView::Integer(receipt.retry_count as int)),
                ),
                member("outcome"@, receipt.outcome.wire_text()),
            ],
        ),
{
    assert(teardown::check_values(receipt.checks@) =~= Seq::new(
        receipt.checks@.len(),
        |i: int| receipt.checks@[i].value(),
    ));
    assert(json::text_views(text::texts(check.verified@)) =~= Seq::new(
        check.verified@.len(),
        |i: int| json::JsonView::Text(check.verified@[i]@),
    ));
}

/// The JSON of a reference has its name, and its UID where there is one.
pub proof fn law_reference_json_by_member(name: Seq<char>, uid: Seq<char>)
    ensures
        teardown::reference_value((name, None)) == json::JsonView::Object(
            seq![member("name"@, name)],
        ),
        teardown::reference_value((name, Some(uid))) == json::JsonView::Object(
            seq![member("name"@, name), member("uid"@, uid)],
        ),
{
    assert(teardown::reference_value((name, None))->Object_0 =~= seq![member("name"@, name)]);
    assert(teardown::reference_value((name, Some(uid)))->Object_0 =~= seq![
        member("name"@, name),
        member("uid"@, uid),
    ]);
}

/// The words under which states, subjects and outcomes are written.
pub proof fn law_written_words()
    ensures
        CleanupMode::Standard.wire_text() == "Standard"@,
        CleanupMode::VerifiedDestroy.wire_text() == "VerifiedDestroy"@,
        CheckResult::Verified.wire_text() == "verified"@,
        CheckResult::NotApplicable.wire_text() == "notApplicable"@,
        CheckResult::Unknown.wire_text() == "unknown"@,
        TeardownOutcome::InProgress.wire_text() == "inProgress"@,
        TeardownOutcome::Verified.wire_text() == "verified"@,
        TeardownOutcome::Quarantined.wire_text() == "quarantined"@,
        CreationControlRelation::ControllerOwner.wire_text() == "controllerOwner"@,
        CreationControlRelation::InstanceUidLabel.wire_text() == "instanceUidLabel"@,
        CreationControlRelation::ClaimRef.wire_text() == "claimRef"@,
        BackendType::K3s.wire_text() == "k3s"@,
        BackendType::K0s.wire_text() == "k0s"@,
        BackendType::Capi.wire_text() == "capi"@,
        BackendType::Vkobe.wire_text() == "vkobe"@,
        BackendType::Vcluster.wire_text() == "vcluster"@,
        TeardownSubject::AgentDeployment.wire_text() == "agentDeployment"@,
        TeardownSubject::ServerStatefulSet.wire_text() == "serverStatefulSet"@,
        TeardownSubject::ServerPods.wire_text() == "serverPods"@,
        TeardownSubject::Service.wire_text() == "service"@,
        TeardownSubject::PodDisruptionBudget.wire_text() == "podDisruptionBudget"@,
        TeardownSubject::PublisherConfigMap.wire_text() == "publisherConfigMap"@,
        TeardownSubject::RegistriesConfigMap.wire_text() == "registriesConfigMap"@,
        TeardownSubject::TokenSecret.wire_text() == "tokenSecret"@,
        TeardownSubject::KubeconfigSecret.wire_text() == "kubeconfigSecret"@,
        TeardownSubject::ConnectTokenSecret.wire_text() == "connectTokenSecret"@,
        TeardownSubject::DatastoreCredentialSecret.wire_text() == "datastoreCredentialSecret"@,
        TeardownSubject::CidrClaim.wire_text() == "cidrClaim"@,
        TeardownSubject::ServerDataPvcs.wire_text() == "serverDataPvcs"@,
        TeardownSubject::ServerDataVolumes.wire_text() == "serverDataVolumes"@,
        TeardownSubject::Database.wire_text() == "database"@,
        TeardownSubject::DatabaseRole.wire_text() == "databaseRole"@,
{
}

/// The words under which phases and states are shown.
pub proof fn law_shown_words()
    ensures
        LeasePhase::Pending.name_text() == "Pending"@,
        LeasePhase::Bound.name_text() == "Bound"@,
        LeasePhase::Released.name_text() == "Released"@,
        LeasePhase::Expired.name_text() == "Expired"@,
        LeasePhase::Recycling.name_text() == "Recycling"@,
        LeasePhase::Quarantined.name_text() == "Quarantined"@,
        ClaimPhase::Pending.name_text() == "Pending"@,
        ClaimPhase::Bound.name_text() == "Bound"@,
        ClaimPhase::Released.name_text() == "Released"@,
        ClaimPhase::Expired.name_text() == "Expired"@,
        ClaimPhase::Recycling.name_text() == "Recycling"@,
        SandboxLeasePhase::Pending.name_text() == "Pending"@,
        SandboxLeasePhase::Provisioning.name_text() == "Provisioning"@,
        SandboxLeasePhase::Ready.name_text() == "Ready"@,
        SandboxLeasePhase::Releasing.name_text() == "Releasing"@,
        SandboxLeasePhase::Released.name_text() == "Released"@,
        SandboxLeasePhase::Expired.name_text() == "Expired"@,
        SandboxLeasePhase::Quarantined.name_text() == "Quarantined"@,
        ExecutionState::Queued.name_text() == "Queued"@,
        ExecutionState::Running.name_text() == "Running"@,
        ExecutionState::Succeeded.name_text() == "Succeeded"@,
        ExecutionState::Failed.name_text() == "Failed"@,
        ExecutionState::Cancelled.name_text() == "Cancelled"@,
        ExecutionState::TimedOut.name_text() == "TimedOut"@,
        ExecutionState::Unknown.name_text() == "Unknown"@,
        TaintEffect::NoSchedule.name_text() == "NoSchedule"@,
        TaintEffect::PreferNoSchedule.name_text() == "PreferNoSchedule"@,
        TaintEffect::NoExecute.name_text() == "NoExecute"@,
{
}

/// A taint is registered by its key, its value behind an equals sign where it has one,
/// and its effect behind a colon.
pub proof fn law_taint_by_parts(taint: NodeTaint)
    ensures
        taint.value matches Some(value) ==> taint.kubelet_text() == taint.key@ + "="@ + value@
            + ":"@ + taint.effect.name_text(),
        taint.value is None ==> taint.kubelet_text() == taint.key@ + ":"@
            + taint.effect.name_text(),
{
}

/// A signed numeral is read as the unsigned numeral behind a minus sign, negated, down
/// to the lowest number there is, and otherwise as an unsigned numeral up to the highest.
pub proof fn law_signed_numerals(value: Seq<char>)
    ensures
        value.len() > 0 && value[0] == '-' ==> {
            &&& number::signed_value(value) is Some <==> value.len() > 1 && number::digits_value(
                value.skip(1),
            ) <= 0x8000_0000_0000_0000 && forall|i: int|
                1 <= i < value.len() ==> '0' <= #[trigger] value[i] <= '9'
            &&& number::signed_value(value) matches Some(found) ==> found
                == -number::digits_value(value.skip(1))
        },
        !(value.len() > 0 && value[0] == '-') ==> {
            &&& number::signed_value(value) is Some <==> number::unsigned_value(
                value,
                0x7fff_ffff_ffff_ffff,
            ) is Some
            &&& number::signed_value(value) matches Some(found) ==> number::unsigned_value(
                value,
                0x7fff_ffff_ffff_ffff,
            ) == Some(found as nat) && found >= 0
        },
{
    if value.len() > 0 && value[0] == '-' {
        let digits = value.skip(1);
        if number::all_digits(digits) {
            assert forall|i: int| 1 <= i < value.len() implies '0' <= #[trigger] value[i]
                <= '9' by {
                assert(number::is_digit(digits[i - 1]));
            }
        }
        if forall|i: int| 1 <= i < value.len() ==> '0' <= #[trigger] value[i] <= '9' {
            assert forall|i: int| 0 <= i < digits.len() implies number::is_digit(
                #[trigger] digits[i],
            ) by {
                assert(digits[i] == value[i + 1]);
            }
            assert(number::all_digits(digits));
        }
    }
}

} // verus!
