//! Proof that a captured workload is still the one that was captured. The claim
//! may stay ready while its sandbox, Pod or Service is replaced; any doubt
//! blocks cleanup, so that absence is never proven of an obsolete UID.

use crate::certification::identity::{self, exact_reference_matches};
use crate::certification::names::{
    AGENT_SANDBOX_API_VERSION, SANDBOX_API_VERSION, SANDBOX_CLAIM_KIND, SANDBOX_KIND,
};
use crate::certification::population::{self, ResolvedSandboxPod};
use crate::certification::workload::{self, dynamic_ready_at_generation};
use crate::crd::sandbox::{
    self, same_references, SandboxObjectReference, SandboxPoolCertificationStatus,
};
use crate::k8s::{ApiError, DynamicObject};
use crate::text::{self, concat, holds_text, same_text};
use vstd::prelude::*;
use vstd::string::*;

verus! {

/// Whether an attempt recorded its claim, sandbox and Pod.
pub open spec fn workload_recorded(status: SandboxPoolCertificationStatus) -> bool {
    status.sandbox_claim is Some && status.sandbox is Some && status.pod is Some
}

/// The recorded claim, sandbox and Pod of an attempt.
pub fn captured_references(status: &SandboxPoolCertificationStatus) -> (result: Result<
    (&SandboxObjectReference, &SandboxObjectReference, &SandboxObjectReference),
    String,
>)
    ensures
        match result {
            Ok(references) => status.sandbox_claim == Some(*references.0) && status.sandbox == Some(
                *references.1,
            ) && status.pod == Some(*references.2),
            Err(error) => !workload_recorded(*status) && error@
                == "captured certification workload is missing an exact Claim, Sandbox or Pod reference"@,
        },
{
    match (&status.sandbox_claim, &status.sandbox, &status.pod) {
        (Some(claim), Some(sandbox), Some(pod)) => Ok((claim, sandbox, pod)),
        _ => Err(
            "captured certification workload is missing an exact Claim, Sandbox or Pod reference".to_owned(),
        ),
    }
}

/// What a result that holds an object says.
pub open spec fn object_outcome(result: Result<DynamicObject, String>) -> Result<
    DynamicObject,
    Seq<char>,
> {
    match result {
        Ok(object) => Ok(object),
        Err(error) => Err(error@),
    }
}

/// The captured claim, where it is the recorded one and ready.
pub open spec fn captured_claim(
    recorded: sandbox::ReferenceView,
    namespace: Seq<char>,
    lookup: Result<DynamicObject, ApiError>,
) -> Result<DynamicObject, Seq<char>> {
    match lookup {
        Err(error) => Err("captured certification Claim cannot be proven: "@ + error.error@),
        Ok(claim) => if identity::reference_matches(
            recorded,
            claim.metadata@,
            AGENT_SANDBOX_API_VERSION@,
            SANDBOX_CLAIM_KIND@,
            namespace,
            recorded.name,
        ) && workload::ready_at_generation(claim) {
            Ok(claim)
        } else {
            Err("captured certification Claim changed or is no longer current Ready"@)
        },
    }
}

/// Proves that the captured claim is the recorded one and ready.
pub fn validate_captured_claim(
    recorded: &SandboxObjectReference,
    namespace: &str,
    lookup: Result<DynamicObject, ApiError>,
) -> (result: Result<DynamicObject, String>)
    ensures
        object_outcome(result) == captured_claim(recorded@, namespace@, lookup),
{
    let claim = match lookup {
        Ok(claim) => claim,
        Err(error) => {
            return Err(
                concat("captured certification Claim cannot be proven: ", error.error.as_str()),
            );
        },
    };
    if !exact_reference_matches(
        recorded,
        &claim,
        AGENT_SANDBOX_API_VERSION,
        SANDBOX_CLAIM_KIND,
        namespace,
        recorded.name.as_str(),
    ) || !dynamic_ready_at_generation(&claim) {
        return Err(
            "captured certification Claim changed or is no longer current Ready".to_owned(),
        );
    }
    Ok(claim)
}

/// The captured sandbox, where it is the recorded one.
pub open spec fn captured_sandbox(
    recorded: sandbox::ReferenceView,
    namespace: Seq<char>,
    lookup: Result<DynamicObject, ApiError>,
) -> Result<DynamicObject, Seq<char>> {
    match lookup {
        Err(error) => Err("captured certification Sandbox cannot be proven: "@ + error.error@),
        Ok(object) => if identity::reference_matches(
            recorded,
            object.metadata@,
            SANDBOX_API_VERSION@,
            SANDBOX_KIND@,
            namespace,
            recorded.name,
        ) {
            Ok(object)
        } else {
            Err("captured certification Sandbox was replaced"@)
        },
    }
}

/// Proves that the captured sandbox is the recorded one.
pub fn validate_captured_sandbox(
    recorded: &SandboxObjectReference,
    namespace: &str,
    lookup: Result<DynamicObject, ApiError>,
) -> (result: Result<DynamicObject, String>)
    ensures
        object_outcome(result) == captured_sandbox(recorded@, namespace@, lookup),
{
    let object = match lookup {
        Ok(object) => object,
        Err(error) => {
            return Err(
                concat("captured certification Sandbox cannot be proven: ", error.error.as_str()),
            );
        },
    };
    if !exact_reference_matches(
        recorded,
        &object,
        SANDBOX_API_VERSION,
        SANDBOX_KIND,
        namespace,
        recorded.name.as_str(),
    ) {
        return Err("captured certification Sandbox was replaced".to_owned());
    }
    Ok(object)
}

/// Whether a workload resolves to the recorded sandbox and Pod.
pub open spec fn resolves_as_recorded(
    resolved: population::ResolvedView,
    recorded_sandbox: sandbox::ReferenceView,
    recorded_pod: sandbox::ReferenceView,
) -> bool {
    &&& resolved.sandbox_name == recorded_sandbox.name
    &&& resolved.sandbox_uid == recorded_sandbox.uid
    &&& resolved.pod_name == recorded_pod.name
    &&& resolved.pod_uid == recorded_pod.uid
}

/// Whether a workload resolves to the recorded Service, or to none where none
/// was recorded.
pub open spec fn service_as_recorded(
    resolved: population::ResolvedView,
    recorded: Option<sandbox::ReferenceView>,
) -> bool {
    match recorded {
        None => resolved.service_name is None && resolved.service_uid is None,
        Some(recorded) => resolved.service_name == Some(recorded.name) && resolved.service_uid
            == Some(recorded.uid),
    }
}

/// What the claim's workload resolves to, where it is what was recorded.
pub open spec fn captured_identity(
    resolution: Result<Option<ResolvedSandboxPod>, String>,
    recorded_sandbox: sandbox::ReferenceView,
    recorded_pod: sandbox::ReferenceView,
    recorded_service: Option<sandbox::ReferenceView>,
) -> Result<population::ResolvedView, Seq<char>> {
    match resolution {
        Err(error) => Err(error@),
        Ok(None) => Err("captured certification Claim has no exact Ready workload"@),
        Ok(Some(resolved)) => if !resolves_as_recorded(resolved@, recorded_sandbox, recorded_pod) {
            Err("captured certification Sandbox or Pod identity changed"@)
        } else if !service_as_recorded(resolved@, recorded_service) {
            Err("captured certification Service identity changed"@)
        } else {
            Ok(resolved@)
        },
    }
}

/// Proves that the claim's workload resolves to what was recorded.
pub fn validate_captured_identity(
    resolution: Result<Option<ResolvedSandboxPod>, String>,
    recorded_sandbox: &SandboxObjectReference,
    recorded_pod: &SandboxObjectReference,
    recorded_service: &Option<SandboxObjectReference>,
) -> (result: Result<ResolvedSandboxPod, String>)
    ensures
        population::resolved_outcome(result) == captured_identity(
            resolution,
            recorded_sandbox@,
            recorded_pod@,
            sandbox::opt_reference(*recorded_service),
        ),
{
    let resolved = match resolution {
        Ok(Some(resolved)) => resolved,
        Ok(None) => {
            return Err("captured certification Claim has no exact Ready workload".to_owned());
        },
        Err(error) => {
            return Err(error);
        },
    };
    if !same_text(resolved.sandbox_name.as_str(), recorded_sandbox.name.as_str()) || !same_text(
        resolved.sandbox_uid.as_str(),
        recorded_sandbox.uid.as_str(),
    ) || !same_text(resolved.pod_name.as_str(), recorded_pod.name.as_str()) || !same_text(
        resolved.pod_uid.as_str(),
        recorded_pod.uid.as_str(),
    ) {
        return Err("captured certification Sandbox or Pod identity changed".to_owned());
    }
    let same_service = match recorded_service {
        None => resolved.service_name.is_none() && resolved.service_uid.is_none(),
        Some(recorded) => holds_text(&resolved.service_name, recorded.name.as_str()) && holds_text(
            &resolved.service_uid,
            recorded.uid.as_str(),
        ),
    };
    if !same_service {
        return Err("captured certification Service identity changed".to_owned());
    }
    Ok(resolved)
}

/// What is wrong with the storage that was found, held against the recorded.
pub open spec fn captured_storage_error(
    claims: Seq<sandbox::ReferenceView>,
    volumes: Seq<sandbox::ReferenceView>,
    status: SandboxPoolCertificationStatus,
) -> Option<Seq<char>> {
    if claims == sandbox::reference_views(status.persistent_volume_claims@) && volumes
        == sandbox::reference_views(status.persistent_volumes@) {
        None
    } else {
        Some("captured certification PVC/PV identity manifest changed"@)
    }
}

/// Proves that the workload's storage is what was recorded.
pub fn validate_captured_storage(
    claims: &Vec<SandboxObjectReference>,
    volumes: &Vec<SandboxObjectReference>,
    status: &SandboxPoolCertificationStatus,
) -> (result: Result<(), String>)
    ensures
        text::reported(result) == captured_storage_error(
            sandbox::reference_views(claims@),
            sandbox::reference_views(volumes@),
            *status,
        ),
{
    if !same_references(claims, &status.persistent_volume_claims) || !same_references(
        volumes,
        &status.persistent_volumes,
    ) {
        return Err("captured certification PVC/PV identity manifest changed".to_owned());
    }
    Ok(())
}

} // verus!
