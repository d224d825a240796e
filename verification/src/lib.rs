//! The rules by which the Kobe operator leases, certifies and destroys cluster capacity.
//!
//! The modules under [`crd`] hold the resources that the operator keeps in the
//! cluster's API together with the decisions that are made from them.
//! [`certification`] takes a sandbox pool through its certification, one
//! decision at a time, and [`diagnostics`] collects what a failed instance
//! leaves behind. The rest are the pieces those decisions share: the plain
//! Kubernetes objects, text and JSON handling, digests and timestamps.

pub mod base_laws;
pub mod certification;
pub mod crd;
pub mod diagnostics;
pub mod digest;
pub mod frame;
pub mod json;
pub mod json_laws;
pub mod k8s;
pub mod keyed;
pub mod number;
pub mod text;
pub mod time;
pub mod wire_laws;
