//! The fence that keeps a workload from being created anew while it is torn
//! down.

use crate::certification::identity;
use crate::certification::names::{
    self, fence_name, TEARDOWN_FENCE_DENIAL_MESSAGE, TEARDOWN_FENCE_FINALIZER,
    TEARDOWN_FENCE_LABEL,
};
use crate::crd::sandbox::SandboxPoolCertificationStatus;
use crate::k8s::{
    self, ApiError, ConfigMap, Container, ObjectMeta, OwnerReference, Pod, PodSpec,
};
use crate::keyed;
use crate::json::{self, Json};
use crate::text::{
    self, comes_before, concat, contains_substring, holds_text, same_opt_pairs, same_text,
};
use vstd::prelude::*;
use vstd::string::*;

verus! {

/// The UIDs that a fence blocks, in order: the sacrificial claim's and its
/// sandbox's. The warm pool's is never among them: upstream acknowledges a
/// generation only after a pass without errors, so a fenced warm pool could
/// neither acknowledge its drain nor be replenished.
pub open spec fn fenced_uids(status: SandboxPoolCertificationStatus) -> Seq<Seq<char>> {
    match (status.sandbox_claim, status.sandbox) {
        (None, None) => Seq::empty(),
        (Some(claim), None) => seq![claim.uid@],
        (None, Some(sandbox)) => seq![sandbox.uid@],
        (Some(claim), Some(sandbox)) => if claim.uid@ == sandbox.uid@ {
            seq![claim.uid@]
        } else if text::text_less(claim.uid@, sandbox.uid@) {
            seq![claim.uid@, sandbox.uid@]
        } else {
            seq![sandbox.uid@, claim.uid@]
        },
    }
}

/// The contents of a fence.
pub open spec fn fence_data(status: SandboxPoolCertificationStatus) -> Seq<(Seq<char>, Seq<char>)> {
    fenced_uids(status).map_values(|uid: Seq<char>| (uid, "blocked"@))
}

/// The metadata of an attempt's fence.
pub open spec fn fence_meta(
    namespace: Seq<char>,
    status: SandboxPoolCertificationStatus,
) -> k8s::MetaView {
    k8s::MetaView {
        name: Some(names::fence_name_text(status.fingerprint@)),
        namespace: Some(namespace),
        labels: seq![(TEARDOWN_FENCE_LABEL@, "true"@)],
        finalizers: seq![TEARDOWN_FENCE_FINALIZER@],
        ..k8s::empty_meta()
    }
}

proof fn lemma_fence_is_keyed(status: SandboxPoolCertificationStatus)
    ensures
        keyed::in_key_order(fence_data(status)),
{
    if let (Some(claim), Some(sandbox)) = (status.sandbox_claim, status.sandbox) {
        if claim.uid@ != sandbox.uid@ {
            text::lemma_text_less_total(claim.uid@, sandbox.uid@);
        }
    }
}

fn fence_entries(status: &SandboxPoolCertificationStatus) -> (entries: Vec<(String, String)>)
    ensures
        text::pair_texts(entries@) == fence_data(*status),
{
    let mut entries: Vec<(String, String)> = Vec::new();
    match (&status.sandbox_claim, &status.sandbox) {
        (None, None) => {},
        (Some(claim), None) => {
            entries.push((claim.uid.clone(), "blocked".to_owned()));
        },
        (None, Some(sandbox)) => {
            entries.push((sandbox.uid.clone(), "blocked".to_owned()));
        },
        (Some(claim), Some(sandbox)) => {
            if same_text(claim.uid.as_str(), sandbox.uid.as_str()) {
                entries.push((claim.uid.clone(), "blocked".to_owned()));
            } else if comes_before(claim.uid.as_str(), sandbox.uid.as_str()) {
                entries.push((claim.uid.clone(), "blocked".to_owned()));
                entries.push((sandbox.uid.clone(), "blocked".to_owned()));
            } else {
                entries.push((sandbox.uid.clone(), "blocked".to_owned()));
                entries.push((claim.uid.clone(), "blocked".to_owned()));
            }
        },
    }
    assert(text::pair_texts(entries@) =~= fence_data(*status));
    entries
}

/// What the fence of an attempt is.
pub open spec fn certification_fence_gives(
    namespace: Seq<char>,
    status: SandboxPoolCertificationStatus,
    result: Result<ConfigMap, String>,
) -> bool {
    match result {
        Ok(fence) => {
            &&& fenced_uids(status).len() > 0
            &&& fence.metadata@ == fence_meta(namespace, status)
            &&& fence.immutable == Some(true)
            &&& text::opt_pairs(fence.data) == Some(fence_data(status))
            &&& fence.metadata@.is_keyed()
            &&& keyed::opt_in_key_order(text::opt_pairs(fence.data))
        },
        Err(error) => fenced_uids(status).len() == 0 && error@
            == "certification teardown fence has no exact controller owner UID"@,
    }
}

/// The immutable fence of an attempt.
pub fn certification_fence(namespace: &str, status: &SandboxPoolCertificationStatus) -> (result:
    Result<ConfigMap, String>)
    requires
        names::names_a_fence(status.fingerprint@),
    ensures
        certification_fence_gives(namespace@, *status, result),
{
    let entries = fence_entries(status);
    proof {
        lemma_fence_is_keyed(*status);
    }
    assert(text::pair_texts(entries@).len() == fenced_uids(*status).len());
    if entries.len() == 0 {
        return Err("certification teardown fence has no exact controller owner UID".to_owned());
    }
    let owners: Vec<OwnerReference> = Vec::new();
    let labels = vec![(TEARDOWN_FENCE_LABEL.to_owned(), "true".to_owned())];
    let finalizers = vec![TEARDOWN_FENCE_FINALIZER.to_owned()];
    let ghost wanted = fence_meta(namespace@, *status);
    assert(k8s::owner_views(owners@) =~= wanted.owner_references);
    assert(text::pair_texts(labels@) =~= wanted.labels);
    assert(text::texts(finalizers@) =~= wanted.finalizers);
    Ok(
        ConfigMap {
            metadata: ObjectMeta {
                name: Some(fence_name(status.fingerprint.as_str())),
                generate_name: None,
                namespace: Some(namespace.to_owned()),
                uid: None,
                resource_version: None,
                generation: None,
                deletion_timestamp: None,
                owner_references: owners,
                labels,
                finalizers,
            },
            immutable: Some(true),
            data: Some(entries),
        },
    )
}

/// Whether an observed fence is the desired one, intact and staying.
pub open spec fn fence_is_intact(fence: ConfigMap, desired: ConfigMap) -> bool {
    &&& !fence.metadata@.deleting()
    &&& fence.immutable == Some(true)
    &&& text::opt_pairs(fence.data) == text::opt_pairs(desired.data)
    &&& fence.metadata@.label(TEARDOWN_FENCE_LABEL@) == Some("true"@)
    &&& fence.metadata@.finalizers.contains(TEARDOWN_FENCE_FINALIZER@)
}

/// Whether an observed fence is the desired one, intact and staying.
pub fn fence_intact(fence: &ConfigMap, desired: &ConfigMap) -> (intact: bool)
    ensures
        intact == fence_is_intact(*fence, *desired),
{
    let immutable = match fence.immutable {
        Some(value) => value,
        None => false,
    };
    !fence.metadata.is_deleting() && immutable && same_opt_pairs(&fence.data, &desired.data)
        && fence.metadata.has_label(TEARDOWN_FENCE_LABEL, "true") && fence.metadata.has_finalizer(
        TEARDOWN_FENCE_FINALIZER,
    )
}

/// The metadata of the Pod whose creation the fence must deny.
pub open spec fn probe_meta(
    namespace: Seq<char>,
    status: SandboxPoolCertificationStatus,
) -> k8s::MetaView {
    let sandbox = status.sandbox->0;
    k8s::MetaView {
        name: Some(names::fence_name_text(status.fingerprint@) + "-probe"@),
        namespace: Some(namespace),
        owner_references: seq![
            k8s::OwnerView {
                api_version: sandbox.api_version@,
                kind: sandbox.kind@,
                name: sandbox.name@,
                uid: sandbox.uid@,
                controller: Some(true),
                block_owner_deletion: Some(true),
            },
        ],
        ..k8s::empty_meta()
    }
}

/// Whether a container is the probe's: a pause image and nothing else.
pub open spec fn is_probe_container(container: Container) -> bool {
    &&& container.name@ == "probe"@
    &&& text::opt_text(container.image) == Some("registry.k8s.io/pause:3.10"@)
    &&& container.command is None
    &&& container.args is None
    &&& container.ports is None
    &&& container.resources is None
    &&& container.security_context is None
    &&& container.env@.len() == 0
    &&& container.env_from@.len() == 0
    &&& container.volume_mounts@.len() == 0
    &&& container.volume_devices@.len() == 0
}

/// Whether a specification is the probe's: one pause container, never
/// restarted, without a token or service links.
pub open spec fn is_probe_spec(spec: PodSpec) -> bool {
    &&& spec.automount_service_account_token == Some(false)
    &&& spec.enable_service_links == Some(false)
    &&& text::opt_text(spec.restart_policy) == Some("Never"@)
    &&& spec.containers@.len() == 1
    &&& is_probe_container(spec.containers@[0])
    &&& spec.runtime_class_name is None
    &&& spec.node_name is None
    &&& spec.security_context is None
    &&& spec.host_users is None
    &&& spec.host_network is None
    &&& spec.host_pid is None
    &&& spec.host_ipc is None
    &&& spec.share_process_namespace is None
    &&& spec.volumes@.len() == 0
    &&& spec.init_containers@.len() == 0
    &&& spec.ephemeral_containers@.len() == 0
}

/// What the probe of an attempt is.
pub open spec fn fence_probe_gives(
    namespace: Seq<char>,
    status: SandboxPoolCertificationStatus,
    result: Result<Pod, String>,
) -> bool {
    match result {
        Ok(pod) => {
            &&& status.sandbox is Some
            &&& pod.metadata@ == probe_meta(namespace, status)
            &&& pod.spec matches Some(spec) && is_probe_spec(spec)
            &&& pod.conditions@.len() == 0
        },
        Err(error) => status.sandbox is None && error@
            == "teardown fence has no exact Sandbox UID to probe"@,
    }
}

/// The Pod whose dry-run creation the fence must deny: a descendant of the
/// exact recorded sandbox.
pub fn fence_probe(namespace: &str, status: &SandboxPoolCertificationStatus) -> (result: Result<
    Pod,
    String,
>)
    requires
        names::names_a_fence(status.fingerprint@),
    ensures
        fence_probe_gives(namespace@, *status, result),
{
    let sandbox = match &status.sandbox {
        Some(sandbox) => sandbox,
        None => {
            return Err("teardown fence has no exact Sandbox UID to probe".to_owned());
        },
    };
    let owners = vec![
        OwnerReference {
            api_version: sandbox.api_version.clone(),
            kind: sandbox.kind.clone(),
            name: sandbox.name.clone(),
            uid: sandbox.uid.clone(),
            controller: Some(true),
            block_owner_deletion: Some(true),
        },
    ];
    let labels: Vec<(String, String)> = Vec::new();
    let finalizers: Vec<String> = Vec::new();
    let ghost wanted = probe_meta(namespace@, *status);
    assert(k8s::owner_views(owners@) =~= wanted.owner_references);
    assert(text::pair_texts(labels@) =~= wanted.labels);
    assert(text::texts(finalizers@) =~= wanted.finalizers);
    let name = fence_name(status.fingerprint.as_str());
    let container = Container {
        name: "probe".to_owned(),
        image: Some("registry.k8s.io/pause:3.10".to_owned()),
        command: None,
        args: None,
        ports: None,
        resources: None,
        security_context: None,
        env: Vec::new(),
        env_from: Vec::new(),
        volume_mounts: Vec::new(),
        volume_devices: Vec::new(),
    };
    let spec = PodSpec {
        runtime_class_name: None,
        node_name: None,
        automount_service_account_token: Some(false),
        enable_service_links: Some(false),
        security_context: None,
        host_users: None,
        restart_policy: Some("Never".to_owned()),
        host_network: None,
        host_pid: None,
        host_ipc: None,
        share_process_namespace: None,
        volumes: Vec::new(),
        init_containers: Vec::new(),
        ephemeral_containers: Vec::new(),
        containers: vec![container],
    };
    Ok(
        Pod {
            metadata: ObjectMeta {
                name: Some(concat(name.as_str(), "-probe")),
                generate_name: None,
                namespace: Some(namespace.to_owned()),
                uid: None,
                resource_version: None,
                generation: None,
                deletion_timestamp: None,
                owner_references: owners,
                labels,
                finalizers,
            },
            spec: Some(spec),
            conditions: Vec::new(),
        },
    )
}

/// Whether the API server denied a creation because of the fence.
pub open spec fn denied_by_fence(error: ApiError) -> bool {
    error.code == Some(403u16) && exists|at: int|
        text::contains_at(error.message@, TEARDOWN_FENCE_DENIAL_MESSAGE@, at)
}

/// What the answer to the probe gives.
pub open spec fn verify_teardown_fence_enforcement_gives(
    probe: Result<(), ApiError>,
    result: Result<bool, String>,
) -> bool {
    match result {
        Ok(enforced) => match probe {
            Ok(_) => !enforced,
            Err(error) => enforced && denied_by_fence(error),
        },
        Err(message) => probe matches Err(error) && !denied_by_fence(error) && message@
            == "teardown-fence VAP denial could not be proven by dry-run CREATE: "@
            + error.error@,
    }
}

/// What the probe's dry-run creation shows: that the fence holds, that it is
/// not observed yet, or nothing. A creation that went through persisted
/// nothing, since it was a dry run.
pub fn verify_teardown_fence_enforcement(probe: Result<(), ApiError>) -> (result: Result<bool, String>)
    ensures
        verify_teardown_fence_enforcement_gives(probe, result),
{
    match probe {
        Ok(_) => Ok(false),
        Err(error) => {
            let forbidden = match error.code {
                Some(code) => code == 403,
                None => false,
            };
            if forbidden && contains_substring(
                error.message.as_str(),
                TEARDOWN_FENCE_DENIAL_MESSAGE,
            ) {
                Ok(true)
            } else {
                Err(
                    concat(
                        "teardown-fence VAP denial could not be proven by dry-run CREATE: ",
                        error.error.as_str(),
                    ),
                )
            }
        },
    }
}

/// The UID and resource version of the recorded fence, or why it cannot be
/// addressed.
pub open spec fn exact_fence(
    lookup: Result<ConfigMap, ApiError>,
    status: SandboxPoolCertificationStatus,
) -> Result<(Seq<char>, Seq<char>), Seq<char>> {
    match status.teardown_fence {
        None => Err("certification checkpoint has no exact teardown fence reference"@),
        Some(recorded) => match lookup {
            Err(error) => Err("teardown fence lookup failed: "@ + error.error@),
            Ok(fence) => if fence.metadata@.deleting() || fence.metadata@.uid != Some(
                recorded.uid@,
            ) {
                Err("same-named certification teardown fence is deleting or drifted"@)
            } else {
                match (
                    k8s::nonempty(fence.metadata@.uid),
                    k8s::nonempty(fence.metadata@.resource_version),
                ) {
                    (None, _) => Err("teardown fence has no UID"@),
                    (_, None) => Err("teardown fence has no resourceVersion"@),
                    (Some(uid), Some(version)) => Ok((uid, version)),
                }
            },
        },
    }
}

/// The UID and resource version of the recorded fence, once it is proven to be
/// the recorded one and to stay.
pub fn read_fence_exact(
    lookup: Result<ConfigMap, ApiError>,
    status: &SandboxPoolCertificationStatus,
) -> (result: Result<(String, String), String>)
    ensures
        identity::pair_outcome(result) == exact_fence(lookup, *status),
{
    let recorded = match &status.teardown_fence {
        Some(recorded) => recorded,
        None => {
            return Err(
                "certification checkpoint has no exact teardown fence reference".to_owned(),
            );
        },
    };
    let fence = match lookup {
        Ok(fence) => fence,
        Err(error) => {
            return Err(concat("teardown fence lookup failed: ", error.error.as_str()));
        },
    };
    if fence.metadata.is_deleting() || !holds_text(&fence.metadata.uid, recorded.uid.as_str()) {
        return Err(
            "same-named certification teardown fence is deleting or drifted".to_owned(),
        );
    }
    let uid = match fence.metadata.present_uid() {
        Some(uid) => uid,
        None => {
            return Err("teardown fence has no UID".to_owned());
        },
    };
    let resource_version = match k8s::nonempty_text(&fence.metadata.resource_version) {
        Some(version) => version,
        None => {
            return Err("teardown fence has no resourceVersion".to_owned());
        },
    };
    Ok((uid, resource_version))
}

/// An operation of a JSON patch.
pub open spec fn patch_operation(
    op: Seq<char>,
    path: Seq<char>,
    value: json::JsonView,
) -> json::JsonView {
    json::JsonView::Object(
        seq![
            ("op"@, json::JsonView::Text(op)),
            ("path"@, json::JsonView::Text(path)),
            ("value"@, value),
        ],
    )
}

/// An operation of a JSON patch.
pub fn operation(op: &str, path: &str, value: Json) -> (operation: Json)
    ensures
        operation@ == patch_operation(op@, path@, value@),
{
    Json::object3("op", Json::string(op), "path", Json::string(path), "value", value)
}

/// The patch that releases a fence: only this UID, only with its own finalizer
/// alone, loses its finalizers.
pub open spec fn release_patch(uid: Seq<char>) -> json::JsonView {
    json::JsonView::Array(
        seq![
            patch_operation("test"@, "/metadata/uid"@, json::JsonView::Text(uid)),
            patch_operation(
                "test"@,
                "/metadata/finalizers"@,
                json::JsonView::Array(
                    seq![json::JsonView::Text(TEARDOWN_FENCE_FINALIZER@)],
                ),
            ),
            patch_operation(
                "replace"@,
                "/metadata/finalizers"@,
                json::JsonView::Array(Seq::empty()),
            ),
        ],
    )
}

/// The patch that releases a fence: only this UID, only with its own finalizer
/// alone, loses its finalizers.
pub fn fence_release_patch(uid: &str) -> (patch: Json)
    ensures
        patch@ == release_patch(uid@),
{
    let finalizers = vec![Json::string(TEARDOWN_FENCE_FINALIZER)];
    assert(json::views(finalizers@) =~= seq![
        json::JsonView::Text(TEARDOWN_FENCE_FINALIZER@),
    ]);
    let none: Vec<Json> = Vec::new();
    assert(json::views(none@) =~= Seq::empty());
    let operations = vec![
        operation("test", "/metadata/uid", Json::string(uid)),
        operation("test", "/metadata/finalizers", Json::array(finalizers)),
        operation("replace", "/metadata/finalizers", Json::array(none)),
    ];
    assert(json::views(operations@) =~= release_patch(uid@)->Array_0);
    Json::array(operations)
}

/// A fence blocks the recorded claim and the recorded sandbox, and nothing
/// else.
pub proof fn law_fence_blocks_exactly_the_teardown_targets(
    status: SandboxPoolCertificationStatus,
    uid: Seq<char>,
)
    ensures
        text::pair_value(fence_data(status), uid) == (if (status.sandbox_claim matches Some(claim)
            && claim.uid@ == uid) || (status.sandbox matches Some(sandbox) && sandbox.uid@ == uid) {
            Some("blocked"@)
        } else {
            None
        }),
{
    let data = fence_data(status);
    reveal_with_fuel(text::pair_value, 4);
    assert(data.len() == fenced_uids(status).len());
    if data.len() == 1 {
        assert(data.skip(1).len() == 0);
    } else if data.len() == 2 {
        assert(data.skip(1)[0] == data[1]);
        assert(data.skip(1).skip(1).len() == 0);
    }
}

/// A fence never blocks the warm pool, as long as the warm pool is neither the
/// claim nor the sandbox.
pub proof fn law_fence_never_blocks_the_warm_pool(status: SandboxPoolCertificationStatus)
    requires
        status.sandbox_claim matches Some(claim) ==> claim.uid@ != status.sandbox_warm_pool.uid@,
        status.sandbox matches Some(sandbox) ==> sandbox.uid@ != status.sandbox_warm_pool.uid@,
    ensures
        text::pair_value(fence_data(status), status.sandbox_warm_pool.uid@) is None,
{
    law_fence_blocks_exactly_the_teardown_targets(status, status.sandbox_warm_pool.uid@);
}

} // verus!
