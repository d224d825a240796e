//! Fenced reads and writes of recorded objects.

use crate::certification::fence::{self, operation};
use crate::crd::sandbox::{self, SandboxObjectReference, SandboxPoolCertificationStatus};
use crate::certification::names::{SANDBOX_CLAIM_KIND, SANDBOX_KIND};
use crate::json::{self, Json, JsonNumber};
use crate::k8s::{ApiError, DynamicObject};
use crate::text::{concat, concat3, holds_text, same_text};
use vstd::prelude::*;
use vstd::string::*;

verus! {

/// Whether the API server answered with this status code.
pub fn answered(error: &ApiError, code: u16) -> (result: bool)
    ensures
        result == (error.code == Some(code)),
{
    match error.code {
        Some(found) => found == code,
        None => false,
    }
}

/// Why a recorded object cannot be read. The next pass tries again.
pub open spec fn read_error(error: ApiError, recorded: sandbox::ReferenceView) -> Seq<char> {
    if error.code == Some(404u16) || error.code == Some(403u16) {
        "recorded "@ + recorded.kind + " cannot be proven: "@ + error.response@
    } else {
        "recorded "@ + recorded.kind + " lookup failed: "@ + error.error@
    }
}

/// Whether an object that was found is not the recorded one, or does not stay: it
/// is deleting, misplaced or replaced.
pub open spec fn is_drifted(
    object: DynamicObject,
    namespace: Seq<char>,
    recorded: sandbox::ReferenceView,
) -> bool {
    ||| object.metadata@.deleting()
    ||| object.metadata@.namespace != Some(namespace)
    ||| object.metadata@.uid != Some(recorded.uid)
}

/// What is said of a recorded object that is drifted.
pub open spec fn drift_message(recorded: sandbox::ReferenceView) -> Seq<char> {
    "recorded "@ + recorded.kind + " is deleting or no longer matches its checkpointed identity"@
}

/// What an exact read of a recorded object found.
#[derive(Debug, Clone, PartialEq, Eq)]
pub enum ExactRead {
    /// The recorded object, which stays.
    Exact(DynamicObject),
    /// A deleting, misplaced or replaced object: nothing can be proven any more.
    Drifted(String),
}

/// What a lookup of a recorded object gives.
pub open spec fn read_dynamic_exact_gives(
    lookup: Result<DynamicObject, ApiError>,
    namespace: Seq<char>,
    recorded: sandbox::ReferenceView,
    result: Result<ExactRead, String>,
) -> bool {
    match lookup {
        Err(error) => result matches Err(message) && message@ == read_error(error, recorded),
        Ok(object) => if is_drifted(object, namespace, recorded) {
            result matches Ok(ExactRead::Drifted(message)) && message@ == drift_message(recorded)
        } else {
            result == Ok::<ExactRead, String>(ExactRead::Exact(object))
        },
    }
}

/// Holds what a lookup of a recorded object found to the recorded identity. A
/// lookup that fails may be tried again; drift is definitive.
pub fn read_dynamic_exact(
    lookup: Result<DynamicObject, ApiError>,
    namespace: &str,
    recorded: &SandboxObjectReference,
) -> (result: Result<ExactRead, String>)
    ensures
        read_dynamic_exact_gives(lookup, namespace@, recorded@, result),
{
    let object = match lookup {
        Ok(object) => object,
        Err(error) => {
            if answered(&error, 404) || answered(&error, 403) {
                let head = concat3("recorded ", recorded.kind.as_str(), " cannot be proven: ");
                return Err(concat(head.as_str(), error.response.as_str()));
            }
            let head = concat3("recorded ", recorded.kind.as_str(), " lookup failed: ");
            return Err(concat(head.as_str(), error.error.as_str()));
        },
    };
    if object.metadata.is_deleting() || !holds_text(&object.metadata.namespace, namespace)
        || !holds_text(&object.metadata.uid, recorded.uid.as_str()) {
        return Ok(
            ExactRead::Drifted(
                concat3(
                    "recorded ",
                    recorded.kind.as_str(),
                    " is deleting or no longer matches its checkpointed identity",
                ),
            ),
        );
    }
    Ok(ExactRead::Exact(object))
}

/// Whether a recorded object is provably absent.
#[derive(Debug, Clone, PartialEq, Eq)]
pub enum Absence {
    Proven,
    /// Its deletion has not completed.
    Present,
    /// Absence cannot be proven, or a replacement appeared.
    Blocked(String),
}

/// What a proof of absence says.
pub enum AbsenceView {
    Proven,
    Present,
    Blocked(Seq<char>),
}

impl View for Absence {
    type V = AbsenceView;

    open spec fn view(&self) -> AbsenceView {
        match *self {
            Absence::Proven => AbsenceView::Proven,
            Absence::Present => AbsenceView::Present,
            Absence::Blocked(message) => AbsenceView::Blocked(message@),
        }
    }
}

/// What a lookup of a recorded object says of its absence. An object of the
/// same name with another UID is a replacement, which the fence is there to
/// prevent.
pub open spec fn absence(
    lookup: Result<DynamicObject, ApiError>,
    recorded: sandbox::ReferenceView,
) -> Result<AbsenceView, Seq<char>> {
    match lookup {
        Err(error) => if error.code == Some(404u16) {
            Ok(AbsenceView::Proven)
        } else if error.code == Some(403u16) {
            Ok(
                AbsenceView::Blocked(
                    "recorded "@ + recorded.kind + " absence cannot be proven: "@ + error.response@,
                ),
            )
        } else {
            Err("recorded "@ + recorded.kind + " absence check failed: "@ + error.error@)
        },
        Ok(object) => if object.metadata@.uid == Some(recorded.uid) {
            Ok(AbsenceView::Present)
        } else {
            let found = match object.metadata@.uid {
                Some(uid) => uid,
                None => "<none>"@,
            };
            Ok(
                AbsenceView::Blocked(
                    "recorded "@ + recorded.kind + " was replaced by same-named UID "@ + found
                        + " before absence was proven"@,
                ),
            )
        },
    }
}

/// What a result that holds a proof of absence says.
pub open spec fn absence_outcome(result: Result<Absence, String>) -> Result<
    AbsenceView,
    Seq<char>,
> {
    match result {
        Ok(absence) => Ok(absence@),
        Err(error) => Err(error@),
    }
}

/// Whether a recorded object is provably absent, from a lookup of its name.
pub fn reference_absent(
    lookup: Result<DynamicObject, ApiError>,
    recorded: &SandboxObjectReference,
) -> (result: Result<Absence, String>)
    ensures
        absence_outcome(result) == absence(lookup, recorded@),
{
    match lookup {
        Err(error) => {
            if answered(&error, 404) {
                return Ok(Absence::Proven);
            }
            if answered(&error, 403) {
                let head = concat3(
                    "recorded ",
                    recorded.kind.as_str(),
                    " absence cannot be proven: ",
                );
                return Ok(Absence::Blocked(concat(head.as_str(), error.response.as_str())));
            }
            let head = concat3("recorded ", recorded.kind.as_str(), " absence check failed: ");
            Err(concat(head.as_str(), error.error.as_str()))
        },
        Ok(object) => {
            if holds_text(&object.metadata.uid, recorded.uid.as_str()) {
                return Ok(Absence::Present);
            }
            let found = match &object.metadata.uid {
                Some(uid) => uid.clone(),
                None => "<none>".to_owned(),
            };
            let head = concat3(
                "recorded ",
                recorded.kind.as_str(),
                " was replaced by same-named UID ",
            );
            Ok(
                Absence::Blocked(
                    concat3(head.as_str(), found.as_str(), " before absence was proven"),
                ),
            )
        },
    }
}

/// What a recorded object's kind stands for in an attempt.
pub open spec fn recorded_of_kind(
    status: SandboxPoolCertificationStatus,
    kind: Seq<char>,
) -> Option<SandboxObjectReference> {
    if kind == SANDBOX_CLAIM_KIND@ {
        status.sandbox_claim
    } else if kind == SANDBOX_KIND@ {
        status.sandbox
    } else {
        None
    }
}

/// The identity that an attempt recorded for a kind.
pub fn identity_for_kind<'a>(status: &'a SandboxPoolCertificationStatus, kind: &str) -> (recorded:
    Option<&'a SandboxObjectReference>)
    ensures
        match recorded {
            Some(recorded) => recorded_of_kind(*status, kind@) == Some(*recorded),
            None => recorded_of_kind(*status, kind@) is None,
        },
{
    if same_text(kind, SANDBOX_CLAIM_KIND) {
        status.sandbox_claim.as_ref()
    } else if same_text(kind, SANDBOX_KIND) {
        status.sandbox.as_ref()
    } else {
        None
    }
}

/// How many replicas a warm pool asks for, as it stands in the object.
pub open spec fn current_replicas(data: json::JsonView) -> json::JsonView {
    match json::member_at(Some(data), "spec"@, "replicas"@) {
        Some(value) => value,
        None => json::JsonView::Null,
    }
}

/// The patch that scales a warm pool: only this UID at this resource version
/// and with these replicas is scaled.
pub open spec fn scale_patch(
    uid: Seq<char>,
    resource_version: Seq<char>,
    current: json::JsonView,
    replicas: u32,
) -> json::JsonView {
    json::JsonView::Array(
        seq![
            fence::patch_operation("test"@, "/metadata/uid"@, json::JsonView::Text(uid)),
            fence::patch_operation(
                "test"@,
                "/metadata/resourceVersion"@,
                json::JsonView::Text(resource_version),
            ),
            fence::patch_operation("test"@, "/spec/replicas"@, current),
            fence::patch_operation(
                "replace"@,
                "/spec/replicas"@,
                json::JsonView::Number(json::NumberView::Integer(replicas as int)),
            ),
        ],
    )
}

/// How a warm pool is scaled.
#[derive(Debug, Clone, PartialEq, Eq)]
pub enum ScalePlan {
    /// By this JSON patch.
    Patch(Json),
    /// Not at all: the object is drifted, or there is nothing to fence the write
    /// with.
    Blocked(String),
}

/// What a look at the warm pool that is to be scaled gives.
pub open spec fn plan_scale_gives(
    lookup: Result<DynamicObject, ApiError>,
    namespace: Seq<char>,
    recorded_warm_pool: SandboxObjectReference,
    replicas: u32,
    result: Result<ScalePlan, String>,
) -> bool {
    match lookup {
        Err(error) => result matches Err(message) && message@ == read_error(
            error,
            recorded_warm_pool@,
        ),
        Ok(object) => if is_drifted(object, namespace, recorded_warm_pool@) {
            result matches Ok(ScalePlan::Blocked(message)) && message@ == drift_message(
                recorded_warm_pool@,
            )
        } else {
            match object.metadata@.resource_version {
                None => result matches Ok(ScalePlan::Blocked(message)) && message@
                    == "recorded certification WarmPool has no UID/resourceVersion to fence"@,
                Some(resource_version) => result matches Ok(ScalePlan::Patch(patch)) && patch@
                    == scale_patch(
                    recorded_warm_pool@.uid,
                    resource_version,
                    current_replicas(object.data@),
                    replicas,
                ),
            }
        },
    }
}

/// Plans the write that scales the exact recorded warm pool. A same-named
/// replacement is never scaled: it blocks the attempt.
pub fn plan_scale(
    lookup: Result<DynamicObject, ApiError>,
    namespace: &str,
    recorded_warm_pool: &SandboxObjectReference,
    replicas: u32,
) -> (result: Result<ScalePlan, String>)
    ensures
        plan_scale_gives(lookup, namespace@, *recorded_warm_pool, replicas, result),
{
    let current = match read_dynamic_exact(lookup, namespace, recorded_warm_pool) {
        Ok(ExactRead::Exact(current)) => current,
        Ok(ExactRead::Drifted(message)) => {
            return Ok(ScalePlan::Blocked(message));
        },
        Err(error) => {
            return Err(error);
        },
    };
    match (&current.metadata.uid, &current.metadata.resource_version) {
        (Some(uid), Some(resource_version)) => {
            let replicas_now = match current.data.get("spec") {
                Some(spec) => match spec.get("replicas") {
                    Some(value) => value.duplicate(),
                    None => Json::Null,
                },
                None => Json::Null,
            };
            let operations = vec![
                operation("test", "/metadata/uid", Json::string(uid.as_str())),
                operation(
                    "test",
                    "/metadata/resourceVersion",
                    Json::string(resource_version.as_str()),
                ),
                operation("test", "/spec/replicas", replicas_now),
                operation(
                    "replace",
                    "/spec/replicas",
                    Json::Number(JsonNumber::Unsigned(replicas as u64)),
                ),
            ];
            assert(json::views(operations@) =~= scale_patch(
                uid@,
                resource_version@,
                current_replicas(current.data@),
                replicas,
            )->Array_0);
            Ok(ScalePlan::Patch(Json::array(operations)))
        },
        _ => Ok(
            ScalePlan::Blocked(
                "recorded certification WarmPool has no UID/resourceVersion to fence".to_owned(),
            ),
        ),
    }
}

/// What became of a write that was fenced by a test on the object's state.
#[derive(Debug, Clone, PartialEq, Eq)]
pub enum Written {
    Accepted(DynamicObject),
    /// The object had changed.
    Conflicted,
    Failed(ApiError),
}

/// What a fenced write means for the attempt.
#[derive(Debug, Clone, PartialEq, Eq)]
pub enum FencedWrite {
    Updated(DynamicObject),
    /// The object changed underneath; the next pass reads it again.
    Contended,
    /// Nothing can be proven any more: the object is drifted or cannot be written.
    Blocked(String),
}

/// What a write to the warm pool gives.
pub open spec fn scale_outcome_gives(
    written: Written,
    result: Result<FencedWrite, String>,
) -> bool {
    match written {
        Written::Accepted(updated) => result == Ok::<FencedWrite, String>(
            FencedWrite::Updated(updated),
        ),
        Written::Conflicted => result == Ok::<FencedWrite, String>(FencedWrite::Contended),
        Written::Failed(error) => if error.code == Some(404u16) || error.code == Some(403u16) {
            result matches Ok(FencedWrite::Blocked(message)) && message@
                == "recorded certification WarmPool cannot be scaled: "@ + error.response@
        } else {
            result matches Err(message) && message@ == "certification WarmPool scale failed: "@
                + error.error@
        },
    }
}

/// What a write to the warm pool means for the attempt.
pub fn scale_outcome(written: Written) -> (result: Result<FencedWrite, String>)
    ensures
        scale_outcome_gives(written, result),
{
    match written {
        Written::Accepted(updated) => Ok(FencedWrite::Updated(updated)),
        Written::Conflicted => Ok(FencedWrite::Contended),
        Written::Failed(error) => {
            if answered(&error, 404) || answered(&error, 403) {
                Ok(
                    FencedWrite::Blocked(
                        concat(
                            "recorded certification WarmPool cannot be scaled: ",
                            error.response.as_str(),
                        ),
                    ),
                )
            } else {
                Err(concat("certification WarmPool scale failed: ", error.error.as_str()))
            }
        },
    }
}

/// Absence is proven only where the API server says that there is no such
/// object, and a replacement always blocks.
pub proof fn law_absence_needs_not_found(
    lookup: Result<DynamicObject, ApiError>,
    recorded: sandbox::ReferenceView,
)
    ensures
        absence(lookup, recorded) == Ok::<AbsenceView, Seq<char>>(AbsenceView::Proven) <==> (
        lookup matches Err(error) && error.code == Some(404u16)),
        lookup matches Ok(object) && object.metadata@.uid != Some(recorded.uid) ==> absence(
            lookup,
            recorded,
        ) matches Ok(AbsenceView::Blocked(_)),
{
}

} // verus!
