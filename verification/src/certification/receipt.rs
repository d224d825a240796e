//! A pool's certificate: a tenant's claim is served only while it is current.

use crate::certification::attempt::ManagementPoolCertification;
use crate::certification::fingerprint::{self, certification_fingerprint};
use crate::certification::identity;
use crate::certification::names::SandboxPool;
use crate::crd::sandbox::{
    self, SandboxObjectReference, SandboxPoolCertificationPhase, SandboxPoolCertificationStatus,
};
use crate::k8s::DynamicObject;
use crate::text::same_text;
use vstd::prelude::*;
use vstd::string::*;

verus! {

/// The certificate that a pool carries.
pub open spec fn certificate(pool: SandboxPool) -> Option<SandboxPoolCertificationStatus> {
    match pool.status {
        Some(status) => status.certification,
        None => None,
    }
}

/// Why a pool's certificate does not let a claim pass.
pub open spec fn certificate_error(
    pool: SandboxPool,
    template: DynamicObject,
    warm_pool: DynamicObject,
    runtime_api_version: Seq<char>,
) -> Option<Seq<char>> {
    match certificate(pool) {
        None => Some("SandboxPool has no durable certification receipt"@),
        Some(receipt) => {
            let generation = match pool.metadata.generation {
                Some(generation) => generation,
                None => 0,
            };
            if !(receipt.phase is Certified) || receipt.observed_generation != generation {
                Some("SandboxPool certification receipt is not current and Certified"@)
            } else {
                match fingerprint::fingerprint(
                    pool,
                    template.metadata@,
                    warm_pool.metadata@,
                    runtime_api_version,
                ) {
                    Err(error) => Some(error),
                    Ok(current) => if receipt.fingerprint@ != current {
                        Some("SandboxPool certification receipt is not current and Certified"@)
                    } else {
                        None
                    },
                }
            }
        },
    }
}

/// The template that the population is then proven against.
pub open spec fn certified_template(
    receipt: SandboxPoolCertificationStatus,
    expected: Option<sandbox::ReferenceView>,
) -> sandbox::ReferenceView {
    match expected {
        Some(expected) => expected,
        None => receipt.sandbox_template@,
    }
}

/// The warm pool that the population is then proven against. Certification
/// itself moves the warm pool's generation, by the drain and the restored
/// capacity; the last one that it recorded is the one that counts.
pub open spec fn certified_warm_pool(
    receipt: SandboxPoolCertificationStatus,
    expected: Option<sandbox::ReferenceView>,
) -> sandbox::ReferenceView {
    let reference = match expected {
        Some(expected) => expected,
        None => receipt.sandbox_warm_pool@,
    };
    match receipt.replenish_generation {
        Some(generation) => sandbox::ReferenceView { generation: Some(generation), ..reference },
        None => reference,
    }
}

/// Judges a pool's certificate at the last gate before a tenant's claim, and
/// gives the template and the warm pool that the live population is proven
/// against. Nothing is created and no canary runs.
pub fn revalidate_certified_management_pool(
    pool: &SandboxPool,
    template: &DynamicObject,
    warm_pool: &DynamicObject,
    runtime_api_version: &str,
    expected_template: Option<&SandboxObjectReference>,
    expected_warm_pool: Option<&SandboxObjectReference>,
) -> (result: Result<(SandboxObjectReference, SandboxObjectReference), String>)
    ensures
        match result {
            Ok(references) => {
                &&& certificate_error(*pool, *template, *warm_pool, runtime_api_version@) is None
                &&& references.0@ == certified_template(
                    certificate(*pool)->0,
                    identity::opt_reference_view(expected_template),
                )
                &&& references.1@ == certified_warm_pool(
                    certificate(*pool)->0,
                    identity::opt_reference_view(expected_warm_pool),
                )
            },
            Err(error) => certificate_error(*pool, *template, *warm_pool, runtime_api_version@)
                == Some(error@),
        },
{
    let receipt = match &pool.status {
        Some(status) => match &status.certification {
            Some(receipt) => receipt,
            None => {
                return Err("SandboxPool has no durable certification receipt".to_owned());
            },
        },
        None => {
            return Err("SandboxPool has no durable certification receipt".to_owned());
        },
    };
    let generation: i64 = match pool.metadata.generation {
        Some(generation) => generation,
        None => 0,
    };
    let certified = match receipt.phase {
        SandboxPoolCertificationPhase::Certified => true,
        _ => false,
    };
    if !certified || receipt.observed_generation != generation {
        return Err("SandboxPool certification receipt is not current and Certified".to_owned());
    }
    let current = match certification_fingerprint(pool, template, warm_pool, runtime_api_version) {
        Ok(current) => current,
        Err(error) => {
            return Err(error);
        },
    };
    if !same_text(receipt.fingerprint.as_str(), current.as_str()) {
        return Err("SandboxPool certification receipt is not current and Certified".to_owned());
    }
    let template_reference = match expected_template {
        Some(expected) => expected.duplicate(),
        None => receipt.sandbox_template.duplicate(),
    };
    let mut warm_pool_reference = match expected_warm_pool {
        Some(expected) => expected.duplicate(),
        None => receipt.sandbox_warm_pool.duplicate(),
    };
    if receipt.replenish_generation.is_some() {
        warm_pool_reference.generation = receipt.replenish_generation;
    }
    Ok((template_reference, warm_pool_reference))
}

/// The certification that a proven live population stands for.
pub fn certified_population(ready: u32) -> (certification: ManagementPoolCertification)
    ensures
        certification.ready == ready,
{
    ManagementPoolCertification { ready }
}

/// A claim only passes where the certificate is complete, is for the pool's
/// current generation, and was given for exactly what there is now.
pub proof fn law_only_a_current_certificate_passes(
    pool: SandboxPool,
    template: DynamicObject,
    warm_pool: DynamicObject,
    runtime_api_version: Seq<char>,
)
    ensures
        certificate_error(pool, template, warm_pool, runtime_api_version) is None ==> (certificate(
            pool,
        ) matches Some(receipt) && receipt.phase is Certified && pool.metadata.generation == Some(
            receipt.observed_generation,
        ) && Ok::<Seq<char>, Seq<char>>(receipt.fingerprint@) == fingerprint::fingerprint(
            pool,
            template.metadata@,
            warm_pool.metadata@,
            runtime_api_version,
        )),
{
}

} // verus!
