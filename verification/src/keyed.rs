//! Maps as lists of pairs: in the order of their keys, each key once.

use crate::json;
use crate::text;
use vstd::prelude::*;

verus! {

/// Whether pairs stand in the order of their keys, each key once.
pub open spec fn in_key_order<V>(pairs: Seq<(Seq<char>, V)>) -> bool {
    forall|i: int, j: int|
        0 <= i < j < pairs.len() ==> text::text_less(
            (#[trigger] pairs[i]).0,
            (#[trigger] pairs[j]).0,
        )
}

/// Whether pairs, where there are any, stand in the order of their keys.
pub open spec fn opt_in_key_order<V>(pairs: Option<Seq<(Seq<char>, V)>>) -> bool {
    pairs matches Some(pairs) ==> in_key_order(pairs)
}

/// Whether each key stands among the pairs once, in whatever order.
pub open spec fn keys_are_distinct<V>(pairs: Seq<(Seq<char>, V)>) -> bool {
    forall|i: int, j: int|
        0 <= i < j < pairs.len() ==> (#[trigger] pairs[i]).0 != (#[trigger] pairs[j]).0
}

/// Whether a key is among the pairs.
pub open spec fn has_key<V>(pairs: Seq<(Seq<char>, V)>, key: Seq<char>) -> bool {
    exists|i: int| 0 <= i < pairs.len() && (#[trigger] pairs[i]).0 == key
}

/// Where a key stands among the pairs.
pub open spec fn key_index<V>(pairs: Seq<(Seq<char>, V)>, key: Seq<char>) -> int {
    choose|i: int| 0 <= i < pairs.len() && (#[trigger] pairs[i]).0 == key
}

/// The map that a list of pairs stands for.
pub open spec fn map_of<V>(pairs: Seq<(Seq<char>, V)>) -> Map<Seq<char>, V> {
    Map::new(
        |key: Seq<char>| has_key(pairs, key),
        |key: Seq<char>| pairs[key_index(pairs, key)].1,
    )
}

/// Whether the objects in a value hold their members in the order of their keys,
/// each key once.
pub open spec fn well_keyed(value: json::JsonView) -> bool
    decreases value,
{
    match value {
        json::JsonView::Array(items) => forall|i: int|
            0 <= i < items.len() ==> well_keyed(#[trigger] items[i]),
        json::JsonView::Object(members) => in_key_order(members) && forall|i: int|
            0 <= i < members.len() ==> well_keyed((#[trigger] members[i]).1),
        _ => true,
    }
}

/// Whether two maps hold the same keys, and under each of them values that stand
/// for the same.
pub open spec fn maps_alike(
    a: Map<Seq<char>, json::JsonView>,
    b: Map<Seq<char>, json::JsonView>,
) -> bool {
    a.dom() == b.dom() && forall|key: Seq<char>| #[trigger]
        a.dom().contains(key) ==> json::alike(a[key], b[key])
}

/// Pairs in key order hold each key once.
pub proof fn law_keys_in_order_are_distinct<V>(pairs: Seq<(Seq<char>, V)>)
    requires
        in_key_order(pairs),
    ensures
        keys_are_distinct(pairs),
{
    assert forall|i: int, j: int| 0 <= i < j < pairs.len() implies (#[trigger] pairs[i]).0 != (
    #[trigger] pairs[j]).0 by {
        lemma_keys_differ(pairs, i, j);
    }
}

proof fn lemma_keys_differ<V>(pairs: Seq<(Seq<char>, V)>, i: int, j: int)
    requires
        in_key_order(pairs),
        0 <= i < pairs.len(),
        0 <= j < pairs.len(),
        i != j,
    ensures
        pairs[i].0 != pairs[j].0,
{
    text::lemma_text_less_irreflexive(pairs[i].0);
}

/// The map holds each pair.
proof fn lemma_map_holds<V>(pairs: Seq<(Seq<char>, V)>, i: int)
    requires
        in_key_order(pairs),
        0 <= i < pairs.len(),
    ensures
        map_of(pairs).dom().contains(pairs[i].0),
        map_of(pairs)[pairs[i].0] == pairs[i].1,
{
    let key = pairs[i].0;
    assert(has_key(pairs, key));
    let found = key_index(pairs, key);
    if found != i {
        lemma_keys_differ(pairs, found, i);
    }
}

proof fn lemma_same_pairs<V>(a: Seq<(Seq<char>, V)>, b: Seq<(Seq<char>, V)>)
    requires
        in_key_order(a),
        in_key_order(b),
        forall|i: int| 0 <= i < a.len() ==> b.contains(#[trigger] a[i]),
        forall|i: int| 0 <= i < b.len() ==> a.contains(#[trigger] b[i]),
    ensures
        a == b,
    decreases a.len(),
{
    if a.len() == 0 {
        if b.len() > 0 {
            assert(a.contains(b[0]));
        }
        assert(a =~= b);
    } else {
        assert(b.contains(a[a.len() - 1]));
        let at = choose|k: int| 0 <= k < b.len() && b[k] == a.last();
        assert(a.contains(b[b.len() - 1]));
        let back = choose|k: int| 0 <= k < a.len() && a[k] == b.last();
        if at != b.len() - 1 {
            assert(text::text_less(b[at].0, b[b.len() - 1].0));
            if back != a.len() - 1 {
                assert(text::text_less(a[back].0, a[a.len() - 1].0));
                text::lemma_text_less_transitive(a.last().0, b.last().0, a.last().0);
            }
            text::lemma_text_less_irreflexive(a.last().0);
        }
        let x = a.drop_last();
        let y = b.drop_last();
        assert forall|i: int| 0 <= i < x.len() implies y.contains(#[trigger] x[i]) by {
            assert(b.contains(a[i]));
            let k = choose|k: int| 0 <= k < b.len() && b[k] == a[i];
            lemma_keys_differ(a, i, a.len() - 1);
            assert(y[k] == x[i]);
        }
        assert forall|i: int| 0 <= i < y.len() implies x.contains(#[trigger] y[i]) by {
            assert(a.contains(b[i]));
            let k = choose|k: int| 0 <= k < a.len() && a[k] == b[i];
            lemma_keys_differ(b, i, b.len() - 1);
            assert(x[k] == y[i]);
        }
        lemma_same_pairs(x, y);
        assert(a =~= x.push(a.last()));
        assert(b =~= y.push(b.last()));
    }
}

proof fn lemma_map_gives_pairs<V>(a: Seq<(Seq<char>, V)>, b: Seq<(Seq<char>, V)>)
    requires
        in_key_order(a),
        in_key_order(b),
        map_of(a) == map_of(b),
    ensures
        forall|i: int| 0 <= i < a.len() ==> b.contains(#[trigger] a[i]),
{
    assert forall|i: int| 0 <= i < a.len() implies b.contains(#[trigger] a[i]) by {
        lemma_map_holds(a, i);
        assert(map_of(b).dom().contains(a[i].0));
        let k = choose|k: int| 0 <= k < b.len() && (#[trigger] b[k]).0 == a[i].0;
        lemma_map_holds(b, k);
        assert(b[k] == a[i]);
    }
}

/// Pairs in key order are the same list exactly where they are the same map.
pub proof fn law_pairs_compare_as_maps<V>(a: Seq<(Seq<char>, V)>, b: Seq<(Seq<char>, V)>)
    requires
        in_key_order(a),
        in_key_order(b),
    ensures
        a == b <==> map_of(a) == map_of(b),
{
    if map_of(a) == map_of(b) {
        lemma_map_gives_pairs(a, b);
        lemma_map_gives_pairs(b, a);
        lemma_same_pairs(a, b);
    }
}

/// A key is looked up in pairs in key order as it is in their map.
pub proof fn law_pairs_are_looked_up_as_a_map(pairs: Seq<(Seq<char>, Seq<char>)>, key: Seq<char>)
    requires
        in_key_order(pairs),
    ensures
        text::pair_value(pairs, key) == (if map_of(pairs).dom().contains(key) {
            Some(map_of(pairs)[key])
        } else {
            None
        }),
{
    lemma_pair_value(pairs, key);
    if map_of(pairs).dom().contains(key) {
        let i = choose|i: int| 0 <= i < pairs.len() && (#[trigger] pairs[i]).0 == key;
        lemma_map_holds(pairs, i);
        let k = choose|k: int|
            0 <= k < pairs.len() && (#[trigger] pairs[k]).0 == key && text::pair_value(pairs, key)
                == Some(pairs[k].1);
        if i != k {
            lemma_keys_differ(pairs, i, k);
        }
    }
}

proof fn lemma_pair_value(pairs: Seq<(Seq<char>, Seq<char>)>, key: Seq<char>)
    ensures
        text::pair_value(pairs, key) is None <==> !has_key(pairs, key),
        has_key(pairs, key) ==> exists|k: int|
            0 <= k < pairs.len() && (#[trigger] pairs[k]).0 == key && text::pair_value(pairs, key)
                == Some(pairs[k].1),
    decreases pairs.len(),
{
    if pairs.len() > 0 {
        let rest = pairs.skip(1);
        lemma_pair_value(rest, key);
        if pairs[0].0 != key {
            if has_key(pairs, key) {
                let i = choose|i: int| 0 <= i < pairs.len() && (#[trigger] pairs[i]).0 == key;
                assert(rest[i - 1] == pairs[i]);
                assert(has_key(rest, key));
            }
            if has_key(rest, key) {
                let k = choose|k: int|
                    0 <= k < rest.len() && (#[trigger] rest[k]).0 == key && text::pair_value(
                        rest,
                        key,
                    ) == Some(rest[k].1);
                assert(pairs[k + 1] == rest[k]);
            }
        } else {
            assert(pairs[0].0 == key);
        }
    }
}

/// Two objects whose members stand in key order stand for the same exactly where
/// they do as maps.
pub proof fn law_objects_compare_as_maps(
    a: Seq<(Seq<char>, json::JsonView)>,
    b: Seq<(Seq<char>, json::JsonView)>,
)
    requires
        in_key_order(a),
        in_key_order(b),
    ensures
        json::alike(json::JsonView::Object(a), json::JsonView::Object(b)) <==> maps_alike(
            map_of(a),
            map_of(b),
        ),
{
    let x = json::compared(json::JsonView::Object(a))->Object_0;
    let y = json::compared(json::JsonView::Object(b))->Object_0;
    lemma_compared(a);
    lemma_compared(b);
    law_pairs_compare_as_maps(x, y);
    if x == y {
        assert(map_of(a).dom() =~= map_of(x).dom());
        assert(map_of(b).dom() =~= map_of(y).dom());
        assert forall|key: Seq<char>| #[trigger]
            map_of(a).dom().contains(key) implies json::alike(map_of(a)[key], map_of(b)[key]) by {
            assert(map_of(x).dom().contains(key));
            assert(map_of(y).dom().contains(key));
            assert(map_of(b).dom().contains(key));
        }
    }
    if maps_alike(map_of(a), map_of(b)) {
        assert forall|key: Seq<char>| #[trigger]
            map_of(x).dom().contains(key) <==> map_of(y).dom().contains(key) by {
            assert(map_of(a).dom().contains(key) <==> map_of(b).dom().contains(key));
        }
        assert forall|key: Seq<char>| #[trigger]
            map_of(x).dom().contains(key) implies map_of(x)[key] == map_of(y)[key] by {
            assert(map_of(a).dom().contains(key));
            assert(map_of(b).dom().contains(key));
            assert(map_of(y).dom().contains(key));
        }
        assert(map_of(x) =~= map_of(y));
    }
}

/// A member is looked up in an object in key order as it is in its map.
pub proof fn law_members_are_looked_up_as_a_map(
    members: Seq<(Seq<char>, json::JsonView)>,
    key: Seq<char>,
)
    requires
        in_key_order(members),
    ensures
        json::JsonView::Object(members).get(key) == (if map_of(members).dom().contains(key) {
            Some(map_of(members)[key])
        } else {
            None
        }),
    decreases members.len(),
{
    if members.len() > 0 {
        let rest = members.skip(1);
        assert(in_key_order(rest)) by {
            assert forall|i: int, j: int| 0 <= i < j < rest.len() implies text::text_less(
                (#[trigger] rest[i]).0,
                (#[trigger] rest[j]).0,
            ) by {
                assert(rest[i] == members[i + 1] && rest[j] == members[j + 1]);
            }
        }
        law_members_are_looked_up_as_a_map(rest, key);
        if members[0].0 == key {
            lemma_map_holds(members, 0);
        } else {
            if has_key(members, key) {
                let i = key_index(members, key);
                assert(rest[i - 1] == members[i]);
                lemma_map_holds(rest, i - 1);
            }
            if has_key(rest, key) {
                let i = key_index(rest, key);
                assert(members[i + 1] == rest[i]);
                lemma_map_holds(members, i + 1);
                lemma_map_holds(rest, i);
            }
        }
    }
}

proof fn lemma_pruned_members_keyed(members: Seq<(Seq<char>, json::JsonView)>)
    requires
        well_keyed(json::JsonView::Object(members)),
    ensures
        well_keyed(json::JsonView::Object(json::pruned_members(members))),
        forall|i: int|
            0 <= i < json::pruned_members(members).len() ==> has_key(
                members,
                (#[trigger] json::pruned_members(members)[i]).0,
            ),
    decreases members, 0int,
{
    if members.len() > 0 {
        let head = members.drop_last();
        let kept = json::pruned_members(members);
        let before = json::pruned_members(head);
        assert forall|i: int| 0 <= i < head.len() implies well_keyed((#[trigger] head[i]).1) by {
            assert(head[i] == members[i]);
        }
        assert forall|i: int, j: int| 0 <= i < j < head.len() implies text::text_less(
            (#[trigger] head[i]).0,
            (#[trigger] head[j]).0,
        ) by {
            assert(head[i] == members[i] && head[j] == members[j]);
        }
        lemma_pruned_members_keyed(head);
        assert(decreases_to!(members => members[members.len() - 1].1));
        assert(well_keyed(members[members.len() - 1].1));
        law_pruning_keeps_key_order(members.last().1);
        assert forall|i: int| 0 <= i < before.len() implies text::text_less(
            (#[trigger] before[i]).0,
            members.last().0,
        ) by {
            assert(has_key(head, before[i].0));
            let k = key_index(head, before[i].0);
            assert(head[k] == members[k]);
        }
        assert forall|i: int| 0 <= i < kept.len() implies has_key(
            members,
            (#[trigger] kept[i]).0,
        ) && well_keyed(kept[i].1) by {
            if i < before.len() {
                assert(kept[i] == before[i]);
                assert(has_key(head, before[i].0));
                let k = key_index(head, before[i].0);
                assert(members[k].0 == kept[i].0);
            } else {
                assert(members[members.len() - 1].0 == kept[i].0);
            }
        }
        assert forall|i: int, j: int| 0 <= i < j < kept.len() implies text::text_less(
            (#[trigger] kept[i]).0,
            (#[trigger] kept[j]).0,
        ) by {
            assert(kept[i] == before[i]);
            if j < before.len() {
                assert(kept[j] == before[j]);
            }
        }
    }
}

/// Pruning keeps the members of every object in key order.
pub proof fn law_pruning_keeps_key_order(value: json::JsonView)
    requires
        well_keyed(value),
    ensures
        json::pruned(value) matches Some(kept) ==> well_keyed(kept),
    decreases value, 1int,
{
    if let json::JsonView::Object(members) = value {
        assert(decreases_to!(value => value->Object_0));
        lemma_pruned_members_keyed(members);
    }
}

proof fn lemma_compared(members: Seq<(Seq<char>, json::JsonView)>)
    requires
        in_key_order(members),
    ensures
        in_key_order(json::compared(json::JsonView::Object(members))->Object_0),
        forall|key: Seq<char>| #[trigger]
            map_of(json::compared(json::JsonView::Object(members))->Object_0).dom().contains(key)
                <==> map_of(members).dom().contains(key),
        forall|key: Seq<char>| #[trigger]
            map_of(members).dom().contains(key) ==> map_of(
                json::compared(json::JsonView::Object(members))->Object_0,
            )[key] == json::compared(map_of(members)[key]),
{
    let x = json::compared(json::JsonView::Object(members))->Object_0;
    assert forall|i: int, j: int| 0 <= i < j < x.len() implies text::text_less(
        (#[trigger] x[i]).0,
        (#[trigger] x[j]).0,
    ) by {
        assert(x[i].0 == members[i].0 && x[j].0 == members[j].0);
    }
    assert forall|key: Seq<char>| #[trigger]
        map_of(x).dom().contains(key) <==> map_of(members).dom().contains(key) by {
        if has_key(x, key) {
            let i = choose|i: int| 0 <= i < x.len() && (#[trigger] x[i]).0 == key;
            assert(members[i].0 == key);
        }
        if has_key(members, key) {
            let i = choose|i: int| 0 <= i < members.len() && (#[trigger] members[i]).0 == key;
            assert(x[i].0 == key);
        }
    }
    assert forall|key: Seq<char>| #[trigger] map_of(members).dom().contains(key) implies map_of(
        x,
    )[key] == json::compared(map_of(members)[key]) by {
        let i = choose|i: int| 0 <= i < members.len() && (#[trigger] members[i]).0 == key;
        lemma_map_holds(members, i);
        assert(x[i].0 == key);
        lemma_map_holds(x, i);
    }
}

} // verus!
