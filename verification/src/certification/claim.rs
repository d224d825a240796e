//! The sacrificial claim of a certification attempt.

use crate::certification::names::{
    self, certification_claim_name, SandboxPool, AGENT_SANDBOX_API_VERSION,
    CERTIFICATION_POOL_GENERATION_LABEL, CERTIFICATION_POOL_UID_LABEL, MANAGED_BY_LABEL,
    POOL_API_VERSION, POOL_KIND, SANDBOX_CLAIM_KIND,
};
use crate::json::{self, Json};
use crate::k8s::{self, DynamicObject, ObjectMeta, TypeMeta};
use crate::keyed;
use crate::number::{self, parse_signed, signed_decimal_text};
use crate::text::{self, concat, concat3, same_text};
use vstd::prelude::*;
use vstd::string::*;

verus! {

/// Why a pool can have no certification claim.
pub open spec fn claim_error(pool: k8s::MetaView) -> Option<Seq<char>> {
    if k8s::nonempty(pool.uid) is None {
        Some("SandboxPool UID is missing"@)
    } else if pool.generation is None {
        Some("SandboxPool generation is missing"@)
    } else if names::pool_owner(pool) is None {
        Some("SandboxPool cannot own its certification Claim"@)
    } else {
        None
    }
}

/// The metadata of a pool's certification claim.
pub open spec fn claim_meta(
    pool: k8s::MetaView,
    namespace: Seq<char>,
    managed_by: Seq<char>,
) -> k8s::MetaView {
    let pool_uid = pool.uid->0;
    k8s::MetaView {
        name: Some(names::claim_name(pool_uid)),
        namespace: Some(namespace),
        owner_references: seq![names::pool_owner(pool)->0],
        labels: seq![
            (MANAGED_BY_LABEL@, managed_by),
            (
                CERTIFICATION_POOL_GENERATION_LABEL@,
                number::signed_decimal(pool.generation->0 as int),
            ),
            (CERTIFICATION_POOL_UID_LABEL@, pool_uid),
        ],
        ..k8s::empty_meta()
    }
}

/// The payload of a certification claim: it takes from the warm pool, and its
/// workload goes with it.
pub open spec fn claim_data(warm_pool_name: Seq<char>) -> json::JsonView {
    json::JsonView::Object(
        seq![
            (
                "spec"@,
                json::JsonView::Object(
                    seq![
                        (
                            "lifecycle"@,
                            json::JsonView::Object(
                                seq![
                                    (
                                        "shutdownPolicy"@,
                                        json::JsonView::Text("DeleteForeground"@),
                                    ),
                                ],
                            ),
                        ),
                        (
                            "warmPoolRef"@,
                            json::JsonView::Object(
                                seq![("name"@, json::JsonView::Text(warm_pool_name))],
                            ),
                        ),
                    ],
                ),
            ),
        ],
    )
}

proof fn lemma_claim_is_keyed(
    pool: k8s::MetaView,
    namespace: Seq<char>,
    managed_by: Seq<char>,
    warm_pool_name: Seq<char>,
)
    ensures
        claim_meta(pool, namespace, managed_by).is_keyed(),
        keyed::well_keyed(claim_data(warm_pool_name)),
{
    reveal_strlit("app.kubernetes.io/managed-by");
    reveal_strlit("kobe.kunobi.ninja/sandbox-pool-generation");
    reveal_strlit("kobe.kunobi.ninja/sandbox-pool-uid");
    text::lemma_text_less_at(MANAGED_BY_LABEL@, CERTIFICATION_POOL_GENERATION_LABEL@, 0);
    text::lemma_text_less_at(MANAGED_BY_LABEL@, CERTIFICATION_POOL_UID_LABEL@, 0);
    text::lemma_text_less_at(
        CERTIFICATION_POOL_GENERATION_LABEL@,
        CERTIFICATION_POOL_UID_LABEL@,
        31,
    );
    reveal_strlit("lifecycle");
    reveal_strlit("warmPoolRef");
    text::lemma_text_less_at("lifecycle"@, "warmPoolRef"@, 0);
    reveal_with_fuel(keyed::well_keyed, 5);
}

/// Whether a result is the pool's certification claim, or why there is none. What
/// it maps is in key order.
pub open spec fn certification_claim_gives(
    pool: k8s::MetaView,
    namespace: Seq<char>,
    warm_pool_name: Seq<char>,
    managed_by: Seq<char>,
    result: Result<DynamicObject, String>,
) -> bool {
    match result {
        Ok(claim) => {
            &&& claim_error(pool) is None
            &&& claim.types matches Some(types) && types.api_version@ == AGENT_SANDBOX_API_VERSION@
                && types.kind@ == SANDBOX_CLAIM_KIND@
            &&& claim.metadata@ == claim_meta(pool, namespace, managed_by)
            &&& claim.data@ == claim_data(warm_pool_name)
            &&& claim.metadata@.is_keyed()
            &&& keyed::well_keyed(claim.data@)
        },
        Err(error) => claim_error(pool) == Some(error@),
    }
}

/// The pool's sacrificial claim on its warm pool. `managed_by` is the label
/// value of the operator's own objects.
pub fn certification_claim(
    pool: &SandboxPool,
    namespace: &str,
    warm_pool_name: &str,
    managed_by: &str,
) -> (result: Result<DynamicObject, String>)
    ensures
        certification_claim_gives(
            pool.metadata@,
            namespace@,
            warm_pool_name@,
            managed_by@,
            result,
        ),
{
    let pool_uid = match pool.metadata.present_uid() {
        Some(uid) => uid,
        None => {
            return Err("SandboxPool UID is missing".to_owned());
        },
    };
    let pool_generation: i64 = match pool.metadata.generation {
        Some(generation) => generation,
        None => {
            return Err("SandboxPool generation is missing".to_owned());
        },
    };
    let owner = match pool.controller_owner_ref() {
        Some(owner) => owner,
        None => {
            return Err("SandboxPool cannot own its certification Claim".to_owned());
        },
    };
    let name = certification_claim_name(pool_uid.as_str());
    let owners = vec![owner];
    let labels = vec![
        (MANAGED_BY_LABEL.to_owned(), managed_by.to_owned()),
        (
            CERTIFICATION_POOL_GENERATION_LABEL.to_owned(),
            signed_decimal_text(pool_generation),
        ),
        (CERTIFICATION_POOL_UID_LABEL.to_owned(), pool_uid),
    ];
    let ghost wanted = claim_meta(pool.metadata@, namespace@, managed_by@);
    assert(k8s::owner_views(owners@) =~= wanted.owner_references);
    assert(text::pair_texts(labels@) =~= wanted.labels);
    let finalizers: Vec<String> = Vec::new();
    assert(text::texts(finalizers@) =~= wanted.finalizers);
    let metadata = ObjectMeta {
        name: Some(name),
        generate_name: None,
        namespace: Some(namespace.to_owned()),
        uid: None,
        resource_version: None,
        generation: None,
        deletion_timestamp: None,
        owner_references: owners,
        labels,
        finalizers,
    };
    proof {
        lemma_claim_is_keyed(pool.metadata@, namespace@, managed_by@, warm_pool_name@);
    }
    let spec = Json::object2(
        "lifecycle",
        Json::object1("shutdownPolicy", Json::string("DeleteForeground")),
        "warmPoolRef",
        Json::object1("name", Json::string(warm_pool_name)),
    );
    Ok(
        DynamicObject {
            types: Some(
                TypeMeta {
                    api_version: AGENT_SANDBOX_API_VERSION.to_owned(),
                    kind: SANDBOX_CLAIM_KIND.to_owned(),
                },
            ),
            metadata,
            data: Json::object1("spec", spec),
        },
    )
}

/// A claim's specification without the empty objects in it.
pub open spec fn normalized(spec: Option<json::JsonView>) -> json::JsonView {
    match spec {
        Some(spec) => match json::pruned(spec) {
            Some(kept) => kept,
            None => json::JsonView::Object(Seq::empty()),
        },
        None => json::JsonView::Object(Seq::empty()),
    }
}

/// A claim's specification without the empty objects in it. The upstream
/// runtime stores objects that were defaulted but hold nothing; whatever holds
/// anything still counts.
pub fn normalize_claim_spec(spec: Option<&Json>) -> (value: Json)
    ensures
        value@ == normalized(json::opt_model(spec)),
{
    let kept = match spec {
        Some(spec) => spec.prune(),
        None => None,
    };
    match kept {
        Some(kept) => kept,
        None => {
            let value = Json::Object(Vec::new());
            assert(value@->Object_0 =~= Seq::empty());
            value
        },
    }
}

/// How Rust's `Debug` shows a text.
pub uninterp spec fn debug_text(text: Seq<char>) -> Seq<char>;

/// Calls `<str as core::fmt::Debug>::fmt`, through `format!`. Trusted: how a
/// text is shown depends on the text alone. Which characters are escaped is
/// left unsaid.
#[verifier::external_body]
pub(crate) fn debug(text: &str) -> (shown: String)
    ensures
        shown@ == debug_text(text@),
{
    format!("{text:?}")
}

/// The report of a label that is not as expected, the texts as they are shown.
pub open spec fn label_drift_text(key: Seq<char>, found: Seq<char>, expected: Seq<char>) -> Seq<
    char,
> {
    "certification Claim metadata drifted from the exact Pool: label "@ + key + " is "@ + found
        + ", expected "@ + expected
}

/// The report of a label that is not as expected, the texts as they are shown.
pub fn label_drift(key: &str, found: &str, expected: &str) -> (report: String)
    ensures
        report@ == label_drift_text(key@, found@, expected@),
{
    let mut report = concat3(
        "certification Claim metadata drifted from the exact Pool: label ",
        key,
        " is ",
    );
    report.append(found);
    report.append(", expected ");
    report.append(expected);
    report
}

/// What is wrong with one of a claim's labels.
pub open spec fn label_error(
    claim: k8s::MetaView,
    key: Seq<char>,
    expected: Seq<char>,
) -> Option<Seq<char>> {
    match claim.label(key) {
        Some(found) => if found == expected {
            None
        } else {
            Some(label_drift_text(key, debug_text(found), debug_text(expected)))
        },
        None => Some(label_drift_text(key, debug_text("<absent>"@), debug_text(expected))),
    }
}

fn check_label(claim: &DynamicObject, key: &str, expected: &str) -> (result: Result<(), String>)
    ensures
        text::reported(result) == label_error(claim.metadata@, key@, expected@),
{
    match claim.metadata.label(key) {
        Some(found) => {
            if same_text(found, expected) {
                Ok(())
            } else {
                Err(label_drift(key, debug(found).as_str(), debug(expected).as_str()))
            }
        },
        None => Err(label_drift(key, debug("<absent>").as_str(), debug(expected).as_str())),
    }
}

/// The generation that a claim's label names.
pub open spec fn labelled_generation(claim: k8s::MetaView) -> Option<int> {
    match claim.label(CERTIFICATION_POOL_GENERATION_LABEL@) {
        Some(value) => number::signed_value(value),
        None => None,
    }
}

/// What is wrong with a claim's specification.
pub open spec fn claim_spec_error(
    observed: Option<json::JsonView>,
    desired: Option<json::JsonView>,
) -> Option<Seq<char>> {
    if json::alike(normalized(observed), normalized(desired)) {
        None
    } else {
        Some(
            "certification Claim spec drifted from the exact Pool: observed "@ + json::value_text(
                normalized(observed),
            ) + ", desired "@ + json::value_text(normalized(desired)),
        )
    }
}

/// What is wrong with an observed certification claim.
pub open spec fn observed_claim_error(
    pool: k8s::MetaView,
    desired: json::JsonView,
    claim: DynamicObject,
    managed_by: Seq<char>,
) -> Option<Seq<char>> {
    let meta = claim.metadata@;
    match (k8s::nonempty(pool.uid), pool.generation) {
        (None, _) => Some("SandboxPool UID is missing"@),
        (_, None) => Some("SandboxPool generation is missing"@),
        (Some(pool_uid), Some(generation)) => if !meta.controlled_by(
            POOL_API_VERSION@,
            POOL_KIND@,
            pool.any_name(),
            pool_uid,
        ) {
            Some("certification Claim is not controlled by the exact SandboxPool"@)
        } else if meta.deleting() {
            Some("certification Claim is already deleting"@)
        } else if labelled_generation(meta) != Some(generation as int) {
            Some("same-named certification Claim belongs to another Pool generation"@)
        } else if label_error(meta, MANAGED_BY_LABEL@, managed_by) is Some {
            label_error(meta, MANAGED_BY_LABEL@, managed_by)
        } else if label_error(meta, CERTIFICATION_POOL_UID_LABEL@, pool_uid) is Some {
            label_error(meta, CERTIFICATION_POOL_UID_LABEL@, pool_uid)
        } else if label_error(
            meta,
            CERTIFICATION_POOL_GENERATION_LABEL@,
            number::signed_decimal(generation as int),
        ) is Some {
            label_error(
                meta,
                CERTIFICATION_POOL_GENERATION_LABEL@,
                number::signed_decimal(generation as int),
            )
        } else {
            claim_spec_error(claim.data@.get("spec"@), desired.get("spec"@))
        },
    }
}

/// Proves that an observed claim is the pool's sacrificial claim of this
/// generation, with nothing asked of it beyond what was desired.
pub fn validate_certification_claim(
    pool: &SandboxPool,
    desired: &DynamicObject,
    claim: &DynamicObject,
    managed_by: &str,
) -> (result: Result<(), String>)
    ensures
        text::reported(result) == observed_claim_error(
            pool.metadata@,
            desired.data@,
            *claim,
            managed_by@,
        ),
{
    let pool_uid = match pool.metadata.present_uid() {
        Some(uid) => uid,
        None => {
            return Err("SandboxPool UID is missing".to_owned());
        },
    };
    let pool_generation: i64 = match pool.metadata.generation {
        Some(generation) => generation,
        None => {
            return Err("SandboxPool generation is missing".to_owned());
        },
    };
    let pool_name = pool.metadata.name_any();
    if !claim.metadata.is_controlled_by(
        POOL_API_VERSION,
        POOL_KIND,
        pool_name.as_str(),
        pool_uid.as_str(),
    ) {
        return Err(
            "certification Claim is not controlled by the exact SandboxPool".to_owned(),
        );
    }
    if claim.metadata.is_deleting() {
        return Err("certification Claim is already deleting".to_owned());
    }
    let observed_generation = match claim.metadata.label(CERTIFICATION_POOL_GENERATION_LABEL) {
        Some(value) => parse_signed(value),
        None => None,
    };
    let current = match observed_generation {
        Some(observed) => observed == pool_generation,
        None => false,
    };
    if !current {
        return Err(
            "same-named certification Claim belongs to another Pool generation".to_owned(),
        );
    }
    let managed = check_label(claim, MANAGED_BY_LABEL, managed_by);
    if managed.is_err() {
        return managed;
    }
    let owned = check_label(claim, CERTIFICATION_POOL_UID_LABEL, pool_uid.as_str());
    if owned.is_err() {
        return owned;
    }
    let numeral = signed_decimal_text(pool_generation);
    let generation = check_label(claim, CERTIFICATION_POOL_GENERATION_LABEL, numeral.as_str());
    if generation.is_err() {
        return generation;
    }
    let observed_spec = normalize_claim_spec(claim.data.get("spec"));
    let desired_spec = normalize_claim_spec(desired.data.get("spec"));
    if !observed_spec.same(&desired_spec) {
        let head = concat3(
            "certification Claim spec drifted from the exact Pool: observed ",
            observed_spec.to_text().as_str(),
            ", desired ",
        );
        return Err(concat(head.as_str(), desired_spec.to_text().as_str()));
    }
    Ok(())
}

} // verus!
