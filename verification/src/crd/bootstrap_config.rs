//! Reusable bootstrap bundles.

use crate::keyed;
use crate::text;
use vstd::prelude::*;

verus! {

/// A bootstrap bundle kept in the host cluster.
#[derive(Debug, Clone, PartialEq, Eq)]
pub struct BootstrapConfigSpec {
    /// Bundle files by name.
    pub files: Vec<(String, String)>,
    /// Job that runs against the leased cluster.
    pub job: Option<BootstrapJobSpec>,
}

/// A bootstrap runner job.
#[derive(Debug, Clone, PartialEq, Eq)]
pub struct BootstrapJobSpec {
    pub image: String,
    pub image_pull_policy: Option<String>,
    pub command: Vec<String>,
    pub args: Vec<String>,
    /// Environment of the runner, by variable.
    pub env: Vec<(String, String)>,
}

impl BootstrapConfigSpec {
    /// Whether the files and the runner's environment are in the order of their
    /// names, each name once.
    pub open spec fn is_keyed(self) -> bool {
        &&& keyed::in_key_order(text::pair_texts(self.files@))
        &&& self.job matches Some(job) ==> keyed::in_key_order(text::pair_texts(job.env@))
    }
}

} // verus!
