//! Storage backends that virtual clusters connect to.

use crate::text::{self, concat3, same_text};
use crate::time::{self, is_strictly_after, parse_rfc3339};
use vstd::prelude::*;

verus! {

/// Storage driver.
#[derive(Debug, Clone, Copy, PartialEq, Eq, Structural)]
pub enum KobeStoreDriver {
    /// An etcd cluster.
    Etcd,
    /// Kine on SQLite, on a single node.
    KineSqlite,
}

/// TLS credentials for a store.
#[derive(Debug, Clone, PartialEq, Eq)]
pub struct KobeStoreTls {
    pub secret_ref: String,
}

/// How much a store may serve.
#[derive(Debug, Clone, Copy, PartialEq, Eq, Structural)]
pub struct KobeStoreCapacity {
    pub max_clusters: u32,
}

/// A virtual cluster that uses a store.
#[derive(Debug, Clone, PartialEq, Eq)]
pub struct KobeStoreUser {
    pub namespace: String,
    pub name: String,
}

/// A storage backend.
#[derive(Debug, Clone, PartialEq, Eq)]
pub struct KobeStoreSpec {
    pub driver: KobeStoreDriver,
    pub endpoints: Vec<String>,
    pub tls: Option<KobeStoreTls>,
    pub capacity: KobeStoreCapacity,
    pub replicas: Option<u32>,
}

/// Runtime status of a store.
#[derive(Debug, Clone, PartialEq, Eq)]
pub struct KobeStoreStatus {
    /// Whether the store is reachable.
    pub ready: bool,
    pub current_clusters: u32,
    pub used_by: Vec<KobeStoreUser>,
    /// Health conditions of the backing workload.
    pub conditions: Vec<KobeStoreCondition>,
}

impl Default for KobeStoreStatus {
    fn default() -> (status: Self)
        ensures
            !status.ready,
            status.current_clusters == 0,
            status.used_by@.len() == 0,
            status.conditions@.len() == 0,
    {
        KobeStoreStatus {
            ready: false,
            current_clusters: 0,
            used_by: Vec::new(),
            conditions: Vec::new(),
        }
    }
}

/// One status condition of a store.
#[derive(Debug, Clone, PartialEq, Eq)]
pub struct KobeStoreCondition {
    pub condition_type: String,
    /// `True`, `False` or `Unknown`.
    pub status: String,
    pub reason: String,
    pub message: String,
    pub last_transition_time: Option<String>,
}

/// Whether a change at `a` is more recent than one at `b`. A known time is more
/// recent than an unknown one.
pub open spec fn more_recent(a: Option<(i64, u32)>, b: Option<(i64, u32)>) -> bool {
    match (a, b) {
        (Some(_), None) => true,
        _ => time::strictly_after(a, b),
    }
}

fn is_more_recent(a: Option<(i64, u32)>, b: Option<(i64, u32)>) -> (result: bool)
    ensures
        result == more_recent(a, b),
{
    match (a, b) {
        (Some(_), None) => true,
        _ => is_strictly_after(a, b),
    }
}

impl KobeStoreStatus {
    /// Whether condition `i` is of type `Healthy`.
    pub open spec fn is_of_health(self, i: int) -> bool {
        0 <= i < self.conditions@.len() && self.conditions@[i].condition_type@ == "Healthy"@
    }

    /// When condition `i` last changed, where that is known.
    pub open spec fn transition(self, i: int) -> Option<(i64, u32)> {
        match self.conditions@[i].last_transition_time {
            Some(text) => time::rfc3339_instant(text@),
            None => None,
        }
    }

    /// Whether condition `i` is the most recent of type `Healthy`; of several that
    /// changed at the same time, or at no known time, the first.
    pub open spec fn is_healthy_condition(self, i: int) -> bool {
        &&& self.is_of_health(i)
        &&& forall|k: int| #[trigger]
            self.is_of_health(k) ==> !more_recent(self.transition(k), self.transition(i))
        &&& forall|k: int| #[trigger]
            self.is_of_health(k) && k < i ==> more_recent(self.transition(i), self.transition(k))
    }

    /// Whether there is a condition of type `Healthy`.
    pub open spec fn has_healthy_condition(self) -> bool {
        exists|i: int| self.is_of_health(i)
    }

    /// The most recent condition of type `Healthy`.
    pub open spec fn the_healthy_condition(self) -> KobeStoreCondition {
        self.conditions@[choose|i: int| self.is_healthy_condition(i)]
    }

    /// The most recent `Healthy` condition, if one was written. A condition whose
    /// last change is not known counts as older than any other; of equally recent
    /// ones the first is taken.
    pub fn healthy_condition(&self) -> (condition: Option<&KobeStoreCondition>)
        ensures
            condition is Some <==> self.has_healthy_condition(),
            condition matches Some(condition) ==> *condition == self.the_healthy_condition(),
            condition is Some ==> exists|i: int| self.is_healthy_condition(i),
    {
        let mut found: Option<usize> = None;
        let mut latest: Option<(i64, u32)> = None;
        let mut i: usize = 0;
        while i < self.conditions.len()
            invariant
                i <= self.conditions@.len(),
                match found {
                    None => forall|k: int| 0 <= k < i ==> !#[trigger] self.is_of_health(k),
                    Some(best) => {
                        &&& best < i
                        &&& self.is_of_health(best as int)
                        &&& latest == self.transition(best as int)
                        &&& forall|k: int|
                            k < i && #[trigger] self.is_of_health(k) ==> !more_recent(
                                self.transition(k),
                                latest,
                            )
                        &&& forall|k: int|
                            k < best && #[trigger] self.is_of_health(k) ==> more_recent(
                                latest,
                                self.transition(k),
                            )
                    },
                },
            decreases self.conditions@.len() - i,
        {
            if same_text(self.conditions[i].condition_type.as_str(), "Healthy") {
                assert(self.is_of_health(i as int));
                let changed = match &self.conditions[i].last_transition_time {
                    Some(text) => parse_rfc3339(text.as_str()),
                    None => None,
                };
                if found.is_none() || is_more_recent(changed, latest) {
                    found = Some(i);
                    latest = changed;
                }
            } else {
                assert(!self.is_of_health(i as int));
            }
            i = i + 1;
        }
        match found {
            None => None,
            Some(best) => {
                proof {
                    assert(self.is_healthy_condition(best as int));
                    let chosen = choose|j: int| self.is_healthy_condition(j);
                    assert(self.is_healthy_condition(chosen));
                    assert(self.is_of_health(chosen) && self.is_of_health(best as int));
                }
                Some(&self.conditions[best])
            },
        }
    }

    /// Why creates against this store should be held back, where they should.
    pub open spec fn held_back(self) -> Option<Seq<char>> {
        if self.has_healthy_condition() && self.the_healthy_condition().status@ == "False"@ {
            Some(
                self.the_healthy_condition().reason@ + ": "@ + self.the_healthy_condition().message@,
            )
        } else {
            None
        }
    }

    /// Why creates against this store should be held back: the reason and the
    /// message of a `Healthy` condition that is `False`. A store without such a
    /// condition, healthy or not observable is not held back.
    pub fn unhealthy_reason(&self) -> (reason: Option<String>)
        ensures
            text::opt_text(reason) == self.held_back(),
            reason is Some <==> self.has_healthy_condition() && self.the_healthy_condition().status@
                == "False"@,
            reason matches Some(reason) ==> reason@ == self.the_healthy_condition().reason@ + ": "@
                + self.the_healthy_condition().message@,
    {
        match self.healthy_condition() {
            Some(condition) => {
                if same_text(condition.status.as_str(), "False") {
                    Some(concat3(condition.reason.as_str(), ": ", condition.message.as_str()))
                } else {
                    None
                }
            },
            None => None,
        }
    }
}

} // verus!
