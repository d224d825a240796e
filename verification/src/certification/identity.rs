//! Exact identities of upstream objects.

use crate::certification::names::{
    self, management_object_name, SandboxPool, AGENT_SANDBOX_API_VERSION, POOL_API_VERSION,
    POOL_KIND, SANDBOX_TEMPLATE_KIND, SANDBOX_WARM_POOL_KIND,
};
use crate::crd::sandbox::{self, same_generation, SandboxObjectReference};
use crate::json::{self, same_opt_ref, Json};
use crate::k8s::{self, DynamicObject, ObjectMeta};
use crate::text::{self, concat, holds_text, same_text};
use vstd::prelude::*;
use vstd::string::*;

verus! {

/// Whether an object is the one that a reference names, at its generation where
/// the reference has one.
pub open spec fn reference_matches(
    expected: sandbox::ReferenceView,
    object: k8s::MetaView,
    api_version: Seq<char>,
    kind: Seq<char>,
    namespace: Seq<char>,
    name: Seq<char>,
) -> bool {
    &&& expected.api_version == api_version
    &&& expected.kind == kind
    &&& expected.namespace == Some(namespace)
    &&& expected.name == name
    &&& object.uid == Some(expected.uid)
    &&& expected.generation is None || object.generation == expected.generation
}

/// Whether an object is the one that a reference names, at its generation where
/// the reference has one.
pub fn exact_reference_matches(
    expected: &SandboxObjectReference,
    object: &DynamicObject,
    api_version: &str,
    kind: &str,
    namespace: &str,
    name: &str,
) -> (matches: bool)
    ensures
        matches == reference_matches(
            expected@,
            object.metadata@,
            api_version@,
            kind@,
            namespace@,
            name@,
        ),
{
    same_text(expected.api_version.as_str(), api_version) && same_text(expected.kind.as_str(), kind)
        && holds_text(&expected.namespace, namespace) && same_text(expected.name.as_str(), name)
        && holds_text(&object.metadata.uid, expected.uid.as_str()) && (
    expected.generation.is_none() || same_generation(
        object.metadata.generation,
        expected.generation,
    ))
}

/// The UID of one of the pool's upstream objects, or why it is not that object.
pub open spec fn pool_object_identity(
    pool: k8s::MetaView,
    namespace: Seq<char>,
    object: k8s::MetaView,
    kind: Seq<char>,
    expected: Option<sandbox::ReferenceView>,
) -> Result<Seq<char>, Seq<char>> {
    let name = names::object_name(pool);
    match (k8s::nonempty(pool.uid), k8s::nonempty(object.uid)) {
        (None, _) => Err("SandboxPool UID is missing"@),
        (_, None) => Err(kind + " UID is missing"@),
        (Some(pool_uid), Some(uid)) => if object.deleting() || object.namespace != Some(namespace)
            || object.any_name() != name || !object.controlled_by(
            POOL_API_VERSION@,
            POOL_KIND@,
            pool.any_name(),
            pool_uid,
        ) {
            Err(kind + " is deleting, misplaced or not controlled by the exact SandboxPool"@)
        } else if expected matches Some(expected) && !reference_matches(
            expected,
            object,
            AGENT_SANDBOX_API_VERSION@,
            kind,
            namespace,
            name,
        ) {
            Err(kind + " no longer matches the immutable lease provenance"@)
        } else {
            Ok(uid)
        },
    }
}

/// What an optional borrowed reference names.
pub open spec fn opt_reference_view(reference: Option<&SandboxObjectReference>) -> Option<
    sandbox::ReferenceView,
> {
    match reference {
        Some(reference) => Some(reference@),
        None => None,
    }
}

/// Proves that an object is the pool's own of that kind, and gives its UID.
pub fn validate_pool_object_identity(
    pool: &SandboxPool,
    namespace: &str,
    object: &DynamicObject,
    kind: &str,
    expected: Option<&SandboxObjectReference>,
) -> (result: Result<String, String>)
    ensures
        text::outcome(result) == pool_object_identity(
            pool.metadata@,
            namespace@,
            object.metadata@,
            kind@,
            opt_reference_view(expected),
        ),
{
    let pool_uid = match pool.metadata.present_uid() {
        Some(uid) => uid,
        None => {
            return Err("SandboxPool UID is missing".to_owned());
        },
    };
    let name = management_object_name(pool);
    let uid = match object.metadata.present_uid() {
        Some(uid) => uid,
        None => {
            return Err(concat(kind, " UID is missing"));
        },
    };
    let pool_name = pool.metadata.name_any();
    if object.metadata.is_deleting() || !holds_text(&object.metadata.namespace, namespace)
        || !same_text(object.metadata.name_any().as_str(), name.as_str())
        || !object.metadata.is_controlled_by(
        POOL_API_VERSION,
        POOL_KIND,
        pool_name.as_str(),
        pool_uid.as_str(),
    ) {
        return Err(
            concat(kind, " is deleting, misplaced or not controlled by the exact SandboxPool"),
        );
    }
    match expected {
        Some(expected) => {
            if !exact_reference_matches(
                expected,
                object,
                AGENT_SANDBOX_API_VERSION,
                kind,
                namespace,
                name.as_str(),
            ) {
                return Err(concat(kind, " no longer matches the immutable lease provenance"));
            }
        },
        None => {},
    }
    Ok(uid)
}

/// What the operator would make of the pool's upstream objects today: the
/// specification of each, or why there is none.
#[derive(Debug, PartialEq, Eq)]
pub struct PoolProjection {
    pub template: Result<Option<Json>, String>,
    pub warm_pool: Result<Option<Json>, String>,
}

/// What a projected specification holds.
pub open spec fn projected(projection: Result<Option<Json>, String>) -> Result<
    Option<json::JsonView>,
    Seq<char>,
> {
    match projection {
        Ok(spec) => Ok(json::opt_owned(spec)),
        Err(error) => Err(error@),
    }
}

/// The UIDs of the pool's template and warm pool, or why they are not the ones
/// that the pool describes.
pub open spec fn pool_objects(
    pool: k8s::MetaView,
    namespace: Seq<char>,
    template: DynamicObject,
    warm_pool: DynamicObject,
    expected_template: Option<sandbox::ReferenceView>,
    expected_warm_pool: Option<sandbox::ReferenceView>,
    projection: PoolProjection,
) -> Result<(Seq<char>, Seq<char>), Seq<char>> {
    let template_identity = pool_object_identity(
        pool,
        namespace,
        template.metadata@,
        SANDBOX_TEMPLATE_KIND@,
        expected_template,
    );
    let warm_pool_identity = pool_object_identity(
        pool,
        namespace,
        warm_pool.metadata@,
        SANDBOX_WARM_POOL_KIND@,
        expected_warm_pool,
    );
    if pool.namespace != Some(namespace) {
        Err("SandboxPool is outside the certified management namespace"@)
    } else {
        match (template_identity, warm_pool_identity) {
            (Err(error), _) => Err(error),
            (_, Err(error)) => Err(error),
            (Ok(template_uid), Ok(warm_pool_uid)) => if names::pool_owner(pool) is None {
                Err("SandboxPool cannot own its upstream objects"@)
            } else {
                match (projected(projection.template), projected(projection.warm_pool)) {
                    (Err(error), _) => Err("could not project SandboxTemplate: "@ + error),
                    (_, Err(error)) => Err("could not project SandboxWarmPool: "@ + error),
                    (Ok(desired_template), Ok(desired_warm_pool)) => if !json::opt_alike(
                        template.data@.get("spec"@),
                        desired_template,
                    ) {
                        Err("SandboxTemplate spec drifted from the current Pool generation"@)
                    } else if !json::opt_alike(
                        warm_pool.data@.get("spec"@),
                        desired_warm_pool,
                    ) {
                        Err("SandboxWarmPool spec drifted from the current Pool generation"@)
                    } else {
                        Ok((template_uid, warm_pool_uid))
                    },
                }
            },
        }
    }
}

/// What a result of two texts holds.
pub open spec fn pair_outcome(result: Result<(String, String), String>) -> Result<
    (Seq<char>, Seq<char>),
    Seq<char>,
> {
    match result {
        Ok(pair) => Ok((pair.0@, pair.1@)),
        Err(error) => Err(error@),
    }
}

/// Proves that the template and the warm pool are the pool's own and have
/// exactly the projected specifications, and gives their UIDs.
pub fn validate_pool_objects(
    pool: &SandboxPool,
    namespace: &str,
    template: &DynamicObject,
    warm_pool: &DynamicObject,
    expected_template: Option<&SandboxObjectReference>,
    expected_warm_pool: Option<&SandboxObjectReference>,
    projection: &PoolProjection,
) -> (result: Result<(String, String), String>)
    ensures
        pair_outcome(result) == pool_objects(
            pool.metadata@,
            namespace@,
            *template,
            *warm_pool,
            opt_reference_view(expected_template),
            opt_reference_view(expected_warm_pool),
            *projection,
        ),
{
    if !holds_text(&pool.metadata.namespace, namespace) {
        return Err("SandboxPool is outside the certified management namespace".to_owned());
    }
    let template_uid = match validate_pool_object_identity(
        pool,
        namespace,
        template,
        SANDBOX_TEMPLATE_KIND,
        expected_template,
    ) {
        Ok(uid) => uid,
        Err(error) => {
            return Err(error);
        },
    };
    let warm_pool_uid = match validate_pool_object_identity(
        pool,
        namespace,
        warm_pool,
        SANDBOX_WARM_POOL_KIND,
        expected_warm_pool,
    ) {
        Ok(uid) => uid,
        Err(error) => {
            return Err(error);
        },
    };
    if pool.controller_owner_ref().is_none() {
        return Err("SandboxPool cannot own its upstream objects".to_owned());
    }
    let desired_template = match &projection.template {
        Ok(spec) => spec,
        Err(error) => {
            return Err(concat("could not project SandboxTemplate: ", error.as_str()));
        },
    };
    let desired_warm_pool = match &projection.warm_pool {
        Ok(spec) => spec,
        Err(error) => {
            return Err(concat("could not project SandboxWarmPool: ", error.as_str()));
        },
    };
    if !same_opt_ref(template.data.get("spec"), desired_template.as_ref()) {
        return Err("SandboxTemplate spec drifted from the current Pool generation".to_owned());
    }
    if !same_opt_ref(warm_pool.data.get("spec"), desired_warm_pool.as_ref()) {
        return Err("SandboxWarmPool spec drifted from the current Pool generation".to_owned());
    }
    Ok((template_uid, warm_pool_uid))
}

/// What a reference to an object says, or why there is none.
pub open spec fn reference_to(
    object: k8s::MetaView,
    api_version: Seq<char>,
    kind: Seq<char>,
) -> Result<sandbox::ReferenceView, Seq<char>> {
    match k8s::nonempty(object.uid) {
        Some(uid) => Ok(
            sandbox::ReferenceView {
                api_version,
                kind,
                namespace: object.namespace,
                name: object.any_name(),
                uid,
                generation: object.generation,
            },
        ),
        None => Err(kind + " UID is missing"@),
    }
}

/// What a result that holds a reference says.
pub open spec fn reference_outcome(result: Result<SandboxObjectReference, String>) -> Result<
    sandbox::ReferenceView,
    Seq<char>,
> {
    match result {
        Ok(reference) => Ok(reference@),
        Err(error) => Err(error@),
    }
}

/// The exact reference to an object with this metadata.
pub fn typed_reference(object: &ObjectMeta, api_version: &str, kind: &str) -> (result: Result<
    SandboxObjectReference,
    String,
>)
    ensures
        reference_outcome(result) == reference_to(object@, api_version@, kind@),
{
    match object.present_uid() {
        Some(uid) => {
            let namespace = match &object.namespace {
                Some(namespace) => Some(namespace.clone()),
                None => None,
            };
            Ok(
                SandboxObjectReference {
                    api_version: api_version.to_owned(),
                    kind: kind.to_owned(),
                    namespace,
                    name: object.name_any(),
                    uid,
                    generation: object.generation,
                },
            )
        },
        None => Err(concat(kind, " UID is missing")),
    }
}

/// The exact reference to an object.
pub fn dynamic_reference(object: &DynamicObject, api_version: &str, kind: &str) -> (result: Result<
    SandboxObjectReference,
    String,
>)
    ensures
        reference_outcome(result) == reference_to(object.metadata@, api_version@, kind@),
{
    typed_reference(&object.metadata, api_version, kind)
}

/// A reference that was taken of an object matches that object, as long as it
/// stays where it is, keeps its UID and its generation.
pub proof fn law_reference_matches_its_object(
    object: k8s::MetaView,
    api_version: Seq<char>,
    kind: Seq<char>,
    namespace: Seq<char>,
)
    requires
        reference_to(object, api_version, kind) is Ok,
        object.namespace == Some(namespace),
    ensures
        reference_matches(
            reference_to(object, api_version, kind)->Ok_0,
            object,
            api_version,
            kind,
            namespace,
            object.any_name(),
        ),
{
}

/// An object of the same name with another UID never matches, nor passes for
/// the pool's recorded object.
pub proof fn law_replacement_never_matches(
    pool: k8s::MetaView,
    expected: sandbox::ReferenceView,
    object: k8s::MetaView,
    api_version: Seq<char>,
    kind: Seq<char>,
    namespace: Seq<char>,
    name: Seq<char>,
)
    requires
        object.uid != Some(expected.uid),
    ensures
        !reference_matches(expected, object, api_version, kind, namespace, name),
        pool_object_identity(pool, namespace, object, kind, Some(expected)) is Err,
{
}

} // verus!
