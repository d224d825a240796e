//! Live certification of a management pool's sandbox capacity.
//!
//! A count of ready replicas proves little by itself. Before a pool is reported
//! ready, its count is resolved to the exact sandboxes that the warm pool owns,
//! their scheduled Pods, the strict network policy and the administrator's
//! canary, and one sacrificial claim is taken through its whole life. Each
//! decision is a function of what was recorded and of what the cluster answered.

pub mod attempt;
pub mod capacity;
pub mod capture;
pub mod captured;
pub mod census;
pub mod census_laws;
pub mod claim;
pub mod evidence_laws;
pub mod fence;
pub mod fingerprint;
pub mod fingerprint_laws;
pub mod identity;
pub mod laws;
pub mod model_laws;
pub mod names;
pub mod opening;
pub mod pass;
pub mod pass_laws;
pub mod population;
pub mod receipt;
pub mod refusal_laws;
pub mod report_laws;
pub mod revalidation;
pub mod revalidation_laws;
pub mod step_laws;
pub mod steps;
pub mod storage;
pub mod turn_laws;
pub mod validation;
pub mod workload;
pub mod workload_laws;
