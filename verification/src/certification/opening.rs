//! How a pass opens: what has to be known of the pool first, and the record that
//! the attempt is held against.

use crate::certification::attempt::{
    self, check_release, initialized_status, reduced_validation, validate_teardown_population,
};
use crate::certification::claim::{self, certification_claim};
use crate::certification::fingerprint::{self, certification_fingerprint};
use crate::certification::names::SandboxPool;
use crate::certification::pass::{self, begin_pass, PassStep, PassSubject};
use crate::certification::population::{self, check_isolation, check_runtime};
use crate::crd::sandbox::SandboxPoolCertificationStatus;
use crate::k8s::DynamicObject;
use vstd::prelude::*;

verus! {

/// What has to be proven of a pool before a pass.
#[derive(Debug, Clone, Copy, PartialEq, Eq, Structural)]
pub enum Survey {
    /// The runtime, and the identities of the pool's objects.
    Identities,
    /// The whole population.
    Census,
}

/// The survey that a pool needs, or why it is not certified at all. A pool in
/// teardown has no population to prove.
pub open spec fn needed_survey(
    pool: SandboxPool,
    existing: Option<SandboxPoolCertificationStatus>,
    release: Seq<char>,
) -> Result<Survey, Seq<char>> {
    match attempt::release_error(release) {
        Some(error) => Err(error),
        None => if existing matches Some(status) && attempt::in_teardown(status.phase) {
            match population::isolation_error(pool) {
                Some(error) => Err(error),
                None => Ok(Survey::Identities),
            }
        } else {
            Ok(Survey::Census)
        },
    }
}

/// Decides what has to be proven of a pool before a pass. `release` is the
/// upstream release that is installed.
pub fn plan_survey(
    pool: &SandboxPool,
    existing: &Option<SandboxPoolCertificationStatus>,
    release: &str,
) -> (result: Result<Survey, String>)
    ensures
        match result {
            Ok(survey) => needed_survey(*pool, *existing, release@) == Ok::<Survey, Seq<char>>(
                survey,
            ),
            Err(error) => needed_survey(*pool, *existing, release@) == Err::<Survey, Seq<char>>(
                error@,
            ),
        },
{
    match check_release(release) {
        Ok(_) => {},
        Err(error) => {
            return Err(error);
        },
    }
    if !reduced_validation(existing) {
        return Ok(Survey::Census);
    }
    match check_isolation(pool) {
        Ok(_) => Ok(Survey::Identities),
        Err(error) => Err(error),
    }
}

/// The number of ready idle sandboxes of a pool in teardown, or what is wrong
/// with the runtime or the pool's objects.
pub open spec fn identities_surveyed(
    pool: SandboxPool,
    namespace: Seq<char>,
    template: DynamicObject,
    warm_pool: DynamicObject,
    status: SandboxPoolCertificationStatus,
    runtime: Result<(), String>,
) -> Result<int, Seq<char>> {
    match population::runtime_error(runtime) {
        Some(error) => Err(error),
        None => attempt::teardown_population(pool, namespace, template, warm_pool, status),
    }
}

/// Proves the identities of a pool in teardown, from what the validation of the
/// runtime said.
pub fn survey_identities(
    pool: &SandboxPool,
    namespace: &str,
    template: &DynamicObject,
    warm_pool: &DynamicObject,
    status: &SandboxPoolCertificationStatus,
    runtime: Result<(), String>,
) -> (result: Result<u32, String>)
    ensures
        attempt::count_outcome(result) == identities_surveyed(
            *pool,
            namespace@,
            *template,
            *warm_pool,
            *status,
            runtime,
        ),
{
    match check_runtime(runtime) {
        Ok(_) => validate_teardown_population(pool, namespace, template, warm_pool, status),
        Err(error) => Err(error),
    }
}

/// Whether a pass opens like this: its pool has a fingerprint and its objects have
/// identities, and the pass begins with the record that an attempt on them would
/// begin with, and with the claim that the pool describes.
pub open spec fn opens_with(
    subject: pass::PassSubjectView,
    template: DynamicObject,
    warm_pool: DynamicObject,
    runtime_api_version: Seq<char>,
    existing: Option<SandboxPoolCertificationStatus>,
    baseline_idle_sandbox_uids: Vec<String>,
    result: Result<PassStep, String>,
) -> bool {
    let pool = subject.validation.pool;
    match fingerprint::fingerprint(
        pool,
        template.metadata@,
        warm_pool.metadata@,
        runtime_api_version,
    ) {
        Err(error) => pass::fails(result, error),
        Ok(fingerprint) => match attempt::initial_error(pool, template, warm_pool) {
            Some(error) => pass::fails(result, error),
            None => exists|
                fresh: SandboxPoolCertificationStatus,
                claim: Result<DynamicObject, String>,
            | #[trigger]
                pass::begins_with(subject, existing, fresh, claim, result) && attempt::just_begun(
                    fresh,
                    pool,
                    template,
                    warm_pool,
                ) && fresh.fingerprint@ == fingerprint && fresh.baseline_idle_sandbox_uids
                    == baseline_idle_sandbox_uids && claim::certification_claim_gives(
                    pool.metadata@,
                    subject.namespace,
                    warm_pool.metadata@.any_name(),
                    subject.managed_by,
                    claim,
                ),
        },
    }
}

/// Opens a pass over a surveyed pool: takes its fingerprint, makes the record and
/// the claim of an attempt on it, and begins with them. `existing` is the recorded
/// attempt, and `runtime_api_version` the upstream API that the build needs.
pub fn open_pass(
    subject: &PassSubject<'_>,
    template: &DynamicObject,
    warm_pool: &DynamicObject,
    runtime_api_version: &str,
    existing: Option<SandboxPoolCertificationStatus>,
    baseline_idle_sandbox_uids: Vec<String>,
) -> (result: Result<PassStep, String>)
    ensures
        opens_with(
            subject@,
            *template,
            *warm_pool,
            runtime_api_version@,
            existing,
            baseline_idle_sandbox_uids,
            result,
        ),
        result matches Ok(PassStep::Ask(next)) ==> next.is_coherent(),
{
    let pool = subject.validation.pool;
    let fingerprint = match certification_fingerprint(
        pool,
        template,
        warm_pool,
        runtime_api_version,
    ) {
        Ok(fingerprint) => fingerprint,
        Err(error) => {
            return Err(error);
        },
    };
    let fresh = match initialized_status(
        pool,
        template,
        warm_pool,
        fingerprint,
        baseline_idle_sandbox_uids,
    ) {
        Ok(fresh) => fresh,
        Err(error) => {
            return Err(error);
        },
    };
    let claim = certification_claim(
        pool,
        subject.namespace,
        warm_pool.metadata.name_any().as_str(),
        subject.managed_by,
    );
    let result = begin_pass(subject, existing, fresh, claim);
    assert(pass::begins_with(subject@, existing, fresh, claim, result));
    result
}

} // verus!
