//! What certification promises as a whole.

use crate::certification::claim;
use crate::certification::identity;
use crate::certification::names::{
    self, CERTIFICATION_POOL_GENERATION_LABEL, CERTIFICATION_POOL_UID_LABEL, MANAGED_BY_LABEL,
    POOL_API_VERSION, POOL_KIND,
};
use crate::certification::storage;
use crate::crd::sandbox;
use crate::json;
use crate::k8s::{self, DynamicObject};
use crate::number;
use crate::text;
use vstd::prelude::*;

verus! {

/// The claim that is asked for is accepted as it is found, whatever the server
/// added to its metadata besides a deletion: its UID, version and generation.
pub proof fn law_own_claim_is_accepted(
    pool: k8s::MetaView,
    namespace: Seq<char>,
    warm_pool_name: Seq<char>,
    managed_by: Seq<char>,
    found: DynamicObject,
)
    requires
        claim::claim_error(pool) is None,
        found.metadata@.owner_references == claim::claim_meta(
            pool,
            namespace,
            managed_by,
        ).owner_references,
        found.metadata@.labels == claim::claim_meta(pool, namespace, managed_by).labels,
        !found.metadata@.deleting(),
        found.data@ == claim::claim_data(warm_pool_name),
    ensures
        claim::observed_claim_error(
            pool,
            claim::claim_data(warm_pool_name),
            found,
            managed_by,
        ) is None,
{
    let meta = found.metadata@;
    let labels = meta.labels;
    reveal_strlit("app.kubernetes.io/managed-by");
    reveal_strlit("kobe.kunobi.ninja/sandbox-pool-generation");
    reveal_strlit("kobe.kunobi.ninja/sandbox-pool-uid");
    assert(MANAGED_BY_LABEL@[0] == 'a');
    assert(CERTIFICATION_POOL_GENERATION_LABEL@[0] == 'k');
    assert(CERTIFICATION_POOL_UID_LABEL@[0] == 'k');
    assert(CERTIFICATION_POOL_GENERATION_LABEL@.len() != CERTIFICATION_POOL_UID_LABEL@.len());
    reveal_with_fuel(text::pair_value, 4);
    assert(labels.skip(1)[0] == labels[1]);
    assert(labels.skip(1).skip(1)[0] == labels[2]);
    assert(meta.label(MANAGED_BY_LABEL@) == Some(managed_by));
    number::law_numeral_reads_back(pool.generation->0);
    let owner = meta.owner_references[0];
    assert(owner == names::pool_owner(pool)->0);
    assert(meta.controlled_by(POOL_API_VERSION@, POOL_KIND@, pool.any_name(), pool.uid->0));
}

proof fn lemma_pruned_members_concat(
    a: Seq<(Seq<char>, json::JsonView)>,
    b: Seq<(Seq<char>, json::JsonView)>,
)
    ensures
        json::pruned_members(a + b) == json::pruned_members(a) + json::pruned_members(b),
    decreases b.len(),
{
    if b.len() == 0 {
        assert(a + b =~= a);
        assert(json::pruned_members(a) + json::pruned_members(b) =~= json::pruned_members(a));
    } else {
        lemma_pruned_members_concat(a, b.drop_last());
        assert((a + b).drop_last() =~= a + b.drop_last());
        assert(json::pruned_members(a + b) =~= json::pruned_members(a) + json::pruned_members(b));
    }
}

proof fn lemma_pruned_single(key: Seq<char>, value: json::JsonView)
    ensures
        json::pruned_members(seq![(key, value)]) == (match json::pruned(value) {
            Some(kept) => seq![(key, kept)],
            None => Seq::empty(),
        }),
{
    reveal_with_fuel(json::pruned_members, 2);
    assert(seq![(key, value)].drop_last() =~= Seq::empty());
    assert(json::pruned_members(seq![(key, value)]) =~= (match json::pruned(value) {
        Some(kept) => seq![(key, kept)],
        None => Seq::empty(),
    }));
}

/// A member that holds nothing but empty objects may be anywhere in a claim's
/// specification: the claim still counts as the desired one.
pub proof fn law_empty_defaults_are_tolerated(
    before: Seq<(Seq<char>, json::JsonView)>,
    key: Seq<char>,
    value: json::JsonView,
    after: Seq<(Seq<char>, json::JsonView)>,
)
    requires
        json::pruned(value) is None,
    ensures
        claim::normalized(Some(json::JsonView::Object(before + seq![(key, value)] + after)))
            == claim::normalized(Some(json::JsonView::Object(before + after))),
{
    lemma_pruned_members_concat(before + seq![(key, value)], after);
    lemma_pruned_members_concat(before, seq![(key, value)]);
    lemma_pruned_members_concat(before, after);
    lemma_pruned_single(key, value);
    assert(json::pruned_members(before) + Seq::empty() =~= json::pruned_members(before));
}

/// Any member that holds more than empty objects is noticed: a claim with it is
/// never taken for the one without it.
pub proof fn law_payload_is_never_tolerated(
    before: Seq<(Seq<char>, json::JsonView)>,
    key: Seq<char>,
    value: json::JsonView,
    after: Seq<(Seq<char>, json::JsonView)>,
)
    requires
        json::pruned(value) is Some,
    ensures
        claim::claim_spec_error(
            Some(json::JsonView::Object(before + seq![(key, value)] + after)),
            Some(json::JsonView::Object(before + after)),
        ) is Some,
{
    lemma_pruned_members_concat(before + seq![(key, value)], after);
    lemma_pruned_members_concat(before, seq![(key, value)]);
    lemma_pruned_members_concat(before, after);
    lemma_pruned_single(key, value);
    let with = json::pruned_members(before + seq![(key, value)] + after);
    let without = json::pruned_members(before + after);
    assert(with.len() == without.len() + 1);
    assert(json::compared(json::JsonView::Object(with))->Object_0.len() == with.len());
    assert(json::compared(json::JsonView::Object(without))->Object_0.len() == without.len());
}

proof fn lemma_pruned_members_settled(members: Seq<(Seq<char>, json::JsonView)>)
    ensures
        json::pruned_members(json::pruned_members(members)) == json::pruned_members(members),
    decreases members, 0int,
{
    if members.len() > 0 {
        let rest = json::pruned_members(members.drop_last());
        lemma_pruned_members_settled(members.drop_last());
        law_pruning_settles(members.last().1);
        match json::pruned(members.last().1) {
            Some(kept) => {
                assert(rest.push((members.last().0, kept)).drop_last() =~= rest);
            },
            None => {},
        }
    }
}

/// Pruning a value twice is pruning it once.
pub proof fn law_pruning_settles(value: json::JsonView)
    ensures
        json::pruned(value) matches Some(kept) ==> json::pruned(kept) == Some(kept),
    decreases value, 1int,
{
    match value {
        json::JsonView::Object(members) => {
            lemma_pruned_members_settled(members);
        },
        _ => {},
    }
}

/// Whether references are in the order of their UIDs.
pub open spec fn in_uid_order(references: Seq<sandbox::ReferenceView>) -> bool {
    forall|i: int, j: int|
        0 <= i < j < references.len() ==> !text::text_less(
            (#[trigger] references[j]).uid,
            (#[trigger] references[i]).uid,
        )
}

proof fn lemma_with_reference(
    references: Seq<sandbox::ReferenceView>,
    reference: sandbox::ReferenceView,
)
    requires
        in_uid_order(references),
    ensures
        in_uid_order(storage::with_reference(references, reference)),
        storage::with_reference(references, reference).to_multiset()
            == references.to_multiset().insert(reference),
    decreases references.len(),
{
    broadcast use vstd::seq_lib::group_to_multiset_ensures;

    if references.len() == 0 {
        assert(seq![reference] =~= Seq::<sandbox::ReferenceView>::empty().push(reference));
        assert(references =~= Seq::<sandbox::ReferenceView>::empty());
    } else if text::text_less(reference.uid, references.last().uid) {
        let less = references.drop_last();
        let last = references.last();
        lemma_with_reference(less, reference);
        let head = storage::with_reference(less, reference);
        assert(references =~= less.push(last));
        assert(head.push(last).to_multiset() =~= references.to_multiset().insert(reference));
        assert forall|i: int| 0 <= i < head.len() implies !text::text_less(
            last.uid,
            (#[trigger] head[i]).uid,
        ) by {
            assert(head.to_multiset().count(head[i]) > 0);
            if head[i] == reference {
                if text::text_less(last.uid, reference.uid) {
                    text::lemma_text_less_transitive(reference.uid, last.uid, reference.uid);
                    text::lemma_text_less_irreflexive(reference.uid);
                }
            } else {
                assert(less.to_multiset().count(head[i]) > 0);
                assert(less.contains(head[i]));
                let k = choose|k: int| 0 <= k < less.len() && less[k] == head[i];
                assert(references[k] == head[i] && references[references.len() - 1] == last);
            }
        }
    } else {
        let result = references.push(reference);
        assert forall|i: int, j: int| 0 <= i < j < result.len() implies !text::text_less(
            (#[trigger] result[j]).uid,
            (#[trigger] result[i]).uid,
        ) by {
            if j == references.len() && i < references.len() - 1 {
                let last = references.last();
                assert(references[references.len() - 1] == last && references[i] == result[i]);
                if text::text_less(reference.uid, result[i].uid) {
                    if last.uid != result[i].uid {
                        text::lemma_text_less_total(last.uid, result[i].uid);
                        text::lemma_text_less_transitive(reference.uid, result[i].uid, last.uid);
                    }
                }
            }
        }
    }
}

/// Whether a reference to an object is in a manifest.
pub open spec fn is_listed(
    references: Seq<sandbox::ReferenceView>,
    object: k8s::MetaView,
    kind: Seq<char>,
) -> bool {
    identity::reference_to(object, "v1"@, kind) matches Ok(reference) && references.contains(
        reference,
    )
}

/// A storage manifest is in the order of its UIDs, whatever order the server
/// listed the objects in, and it holds a reference to each object that belongs
/// to the workload.
pub proof fn law_manifest_is_ordered_and_complete(
    objects: Seq<k8s::MetaView>,
    belongs: spec_fn(int) -> bool,
    kind: Seq<char>,
)
    ensures
        storage::manifest(objects, belongs, kind) matches Ok(references) ==> in_uid_order(
            references,
        ) && forall|i: int|
            0 <= i < objects.len() && #[trigger] belongs(i)
                ==> is_listed(references, objects[i], kind),
    decreases objects.len(),
{
    broadcast use vstd::seq_lib::group_to_multiset_ensures;

    if objects.len() > 0 {
        let less = objects.drop_last();
        law_manifest_is_ordered_and_complete(less, belongs, kind);
        match storage::manifest(objects, belongs, kind) {
            Ok(references) => {
                let before = storage::manifest(less, belongs, kind)->Ok_0;
                if belongs(objects.len() - 1) {
                    let added = identity::reference_to(
                        objects.last(),
                        "v1"@,
                        kind,
                    )->Ok_0;
                    lemma_with_reference(before, added);
                    assert(references.to_multiset().count(added) > 0);
                    assert forall|i: int| 0 <= i < objects.len() && #[trigger] belongs(
                        i,
                    ) implies is_listed(references, objects[i], kind) by {
                        if i < less.len() {
                            assert(less[i] == objects[i]);
                            let reference = identity::reference_to(
                                objects[i],
                                "v1"@,
                                kind,
                            )->Ok_0;
                            assert(before.contains(reference));
                            assert(before.to_multiset().count(reference) > 0);
                            assert(references.to_multiset().count(reference) > 0);
                        }
                    }
                } else {
                    assert forall|i: int| 0 <= i < objects.len() && #[trigger] belongs(
                        i,
                    ) implies is_listed(references, objects[i], kind) by {
                        assert(less[i] == objects[i]);
                    }
                }
            },
            Err(_) => {},
        }
    }
}

} // verus!
