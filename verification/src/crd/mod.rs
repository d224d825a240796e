//! Custom resources of the operator and the rules that belong to them.

pub mod access_policy;
pub mod auth_policy;
pub mod bootstrap_config;
pub mod cidr;
pub mod claim;
pub mod datastore;
pub mod decision_laws;
pub mod execution;
pub mod instance;
pub mod lease;
pub mod manifest_laws;
pub mod profile;
pub mod receipt;
pub mod release_laws;
pub mod sandbox;
pub mod sandbox_laws;
pub mod teardown;
pub mod teardown_laws;
pub mod teardown_text;
