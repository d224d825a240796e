//! What the shared readings of texts, numerals, JSON values and object metadata
//! come to, said of their characters, members and fields.

use crate::json::{self, Json, JsonNumber};
use crate::k8s::{self, Condition, ObjectMeta};
use crate::number;
use crate::text;
use crate::time;
use vstd::prelude::*;

verus! {

/// A text is blank exactly where every character is one of the Unicode white-space
/// characters; the empty text is blank, and a text with any printable ASCII
/// character is not.
pub proof fn law_blank_is_white_space_alone(value: Seq<char>)
    ensures
        text::is_blank(value) <==> forall|i: int|
            0 <= i < value.len() ==> {
                let code = #[trigger] value[i] as u32;
                code == 9 || code == 10 || code == 11 || code == 12 || code == 13 || code == 32
                    || code == 0x85 || code == 0xa0 || code == 0x1680 || 0x2000 <= code <= 0x200a
                    || code == 0x2028 || code == 0x2029 || code == 0x202f || code == 0x205f || code
                    == 0x3000
            },
        value.len() == 0 ==> text::is_blank(value),
        forall|i: int| 0 <= i < value.len() && '!' <= #[trigger] value[i] <= '~' ==> !text::is_blank(value),
{
    assert forall|i: int| 0 <= i < value.len() && '!' <= #[trigger] value[i]
        <= '~' implies !text::is_blank(value) by {
        assert(!text::is_white_space(value[i]));
    }
    if text::is_blank(value) {
        assert forall|i: int| 0 <= i < value.len() implies {
            let code = #[trigger] value[i] as u32;
            code == 9 || code == 10 || code == 11 || code == 12 || code == 13 || code == 32 || code
                == 0x85 || code == 0xa0 || code == 0x1680 || 0x2000 <= code <= 0x200a || code
                == 0x2028 || code == 0x2029 || code == 0x202f || code == 0x205f || code == 0x3000
        } by {
            assert(text::is_white_space(value[i]));
        }
    } else {
        let i = choose|i: int| 0 <= i < value.len() && !text::is_white_space(#[trigger] value[i]);
        assert(!text::is_white_space(value[i]));
    }
}

/// A digest is sixty-four characters, each of them a digit or a letter from `a` to
/// `f` in either case.
pub proof fn law_digest_text_is_64_hexadecimal_digits(value: Seq<char>)
    ensures
        text::is_digest_text(value) <==> value.len() == 64 && forall|i: int|
            0 <= i < 64 ==> ('0' <= #[trigger] value[i] <= '9' || 'a' <= value[i] <= 'f' || 'A'
                <= value[i] <= 'F'),
{
}

/// Equality up to ASCII case: as many characters, and at every place the same one,
/// or an upper-case ASCII letter against its lower-case form.
pub proof fn law_ascii_case_is_ignored(a: Seq<char>, b: Seq<char>)
    ensures
        text::same_ignoring_ascii_case(a, b) <==> a.len() == b.len() && forall|i: int|
            0 <= i < a.len() ==> (#[trigger] a[i] == b[i] || ('A' <= a[i] <= 'Z' && b[i] as int
                == a[i] as int + 32) || ('A' <= b[i] <= 'Z' && a[i] as int == b[i] as int + 32)),
{
    let left = a.map_values(|c: char| text::ascii_lower(c));
    let right = b.map_values(|c: char| text::ascii_lower(c));
    if left == right {
        assert(left.len() == right.len());
        assert forall|i: int| 0 <= i < a.len() implies (#[trigger] a[i] == b[i] || ('A' <= a[i]
            <= 'Z' && b[i] as int == a[i] as int + 32) || ('A' <= b[i] <= 'Z' && a[i] as int
            == b[i] as int + 32)) by {
            assert(left[i] == right[i]);
        }
    } else if a.len() == b.len() {
        let i = choose|i: int| 0 <= i < left.len() && left[i] != right[i];
        if !(exists|i: int| 0 <= i < left.len() && left[i] != right[i]) {
            assert(left =~= right);
        }
        assert(text::ascii_lower(a[i]) != text::ascii_lower(b[i]));
        assert(a[i] != b[i]);
    }
}

/// A text starts with another exactly where it is that one and something more.
pub proof fn law_prefix(value: Seq<char>, prefix: Seq<char>)
    ensures
        text::starts_with(value, prefix) <==> exists|rest: Seq<char>| value == prefix + rest,
        forall|rest: Seq<char>|
            value == #[trigger] (prefix + rest) ==> rest == value.skip(prefix.len() as int),
{
    if text::starts_with(value, prefix) {
        assert(value =~= prefix + value.skip(prefix.len() as int));
    }
    assert forall|rest: Seq<char>| value == #[trigger] (prefix + rest) implies rest == value.skip(
        prefix.len() as int,
    ) && text::starts_with(value, prefix) by {
        assert(value.take(prefix.len() as int) =~= prefix);
        assert(rest =~= value.skip(prefix.len() as int));
    }
}

/// What is looked up among pairs is the value of the first pair with the key, and
/// nothing where no pair has it.
pub proof fn law_first_pair_is_found(pairs: Seq<(Seq<char>, Seq<char>)>, key: Seq<char>)
    ensures
        text::pair_value(pairs, key) is None <==> forall|i: int|
            0 <= i < pairs.len() ==> (#[trigger] pairs[i]).0 != key,
        forall|i: int|
            0 <= i < pairs.len() && (#[trigger] pairs[i]).0 == key && (forall|j: int|
                0 <= j < i ==> (#[trigger] pairs[j]).0 != key) ==> text::pair_value(pairs, key)
                == Some(pairs[i].1),
    decreases pairs.len(),
{
    if pairs.len() > 0 {
        let rest = pairs.skip(1);
        law_first_pair_is_found(rest, key);
        if pairs[0].0 != key {
            assert forall|i: int|
                0 <= i < pairs.len() && (#[trigger] pairs[i]).0 == key && (forall|j: int|
                    0 <= j < i ==> (#[trigger] pairs[j]).0 != key) implies text::pair_value(
                pairs,
                key,
            ) == Some(pairs[i].1) by {
                assert(rest[i - 1] == pairs[i]);
                assert forall|j: int| 0 <= j < i - 1 implies (#[trigger] rest[j]).0 != key by {
                    assert(rest[j] == pairs[j + 1]);
                }
            }
            if text::pair_value(pairs, key) is None {
                assert forall|i: int| 0 <= i < pairs.len() implies (#[trigger] pairs[i]).0
                    != key by {
                    if i > 0 {
                        assert(rest[i - 1] == pairs[i]);
                    }
                }
            } else {
                let i = choose|i: int| 0 <= i < rest.len() && (#[trigger] rest[i]).0 == key;
                assert(pairs[i + 1] == rest[i]);
            }
        } else {
            assert(pairs[0].0 == key);
        }
    }
}

/// What is looked up in a JSON value is the first member with the key of an object,
/// and nothing where there is none or the value is no object.
pub proof fn law_first_member_is_found(value: json::JsonView, key: Seq<char>)
    ensures
        !(value is Object) ==> value.get(key) is None,
        value matches json::JsonView::Object(members) ==> {
            &&& value.get(key) is None <==> forall|i: int|
                0 <= i < members.len() ==> (#[trigger] members[i]).0 != key
            &&& forall|i: int|
                0 <= i < members.len() && (#[trigger] members[i]).0 == key && (forall|j: int|
                    0 <= j < i ==> (#[trigger] members[j]).0 != key) ==> value.get(key) == Some(
                    members[i].1,
                )
        },
{
    if let json::JsonView::Object(members) = value {
        lemma_first_member(members, key);
    }
}

proof fn lemma_first_member(members: Seq<(Seq<char>, json::JsonView)>, key: Seq<char>)
    ensures
        json::member_of(members, key) is None <==> forall|i: int|
            0 <= i < members.len() ==> (#[trigger] members[i]).0 != key,
        forall|i: int|
            0 <= i < members.len() && (#[trigger] members[i]).0 == key && (forall|j: int|
                0 <= j < i ==> (#[trigger] members[j]).0 != key) ==> json::member_of(members, key)
                == Some(members[i].1),
    decreases members.len(),
{
    if members.len() > 0 {
        let rest = members.skip(1);
        lemma_first_member(rest, key);
        if members[0].0 != key {
            assert forall|i: int|
                0 <= i < members.len() && (#[trigger] members[i]).0 == key && (forall|j: int|
                    0 <= j < i ==> (#[trigger] members[j]).0 != key) implies json::member_of(
                members,
                key,
            ) == Some(members[i].1) by {
                assert(rest[i - 1] == members[i]);
                assert forall|j: int| 0 <= j < i - 1 implies (#[trigger] rest[j]).0 != key by {
                    assert(rest[j] == members[j + 1]);
                }
            }
            if json::member_of(members, key) is None {
                assert forall|i: int| 0 <= i < members.len() implies (#[trigger] members[i]).0
                    != key by {
                    if i > 0 {
                        assert(rest[i - 1] == members[i]);
                    }
                }
            } else {
                let i = choose|i: int| 0 <= i < rest.len() && (#[trigger] rest[i]).0 == key;
                assert(members[i + 1] == rest[i]);
            }
        } else {
            assert(members[0].0 == key);
        }
    }
}

/// What the parts of a JSON value stand for: texts for their characters, integers
/// for their value, whichever of the two forms holds them, lists for their items in
/// order and objects for their members in order.
pub proof fn law_json_stands_for_its_parts(value: Json)
    ensures
        value is Null ==> value@ == json::JsonView::Null,
        value matches Json::Bool(flag) ==> value@ == json::JsonView::Bool(flag),
        value matches Json::Text(characters) ==> value@ == json::JsonView::Text(characters@),
        value matches Json::Number(JsonNumber::Unsigned(number)) ==> value@
            == json::JsonView::Number(json::NumberView::Integer(number as int)),
        value matches Json::Number(JsonNumber::Negative(number)) ==> value@
            == json::JsonView::Number(json::NumberView::Integer(number as int)),
        value matches Json::Number(JsonNumber::Float(digits)) ==> value@ == json::JsonView::Number(
            json::NumberView::Float(digits@),
        ),
        value matches Json::Array(items) ==> value@ matches json::JsonView::Array(views) && {
            &&& views.len() == items@.len()
            &&& forall|i: int| 0 <= i < items@.len() ==> #[trigger] views[i] == items@[i]@
        },
        value matches Json::Object(members) ==> value@ matches json::JsonView::Object(views) && {
            &&& views.len() == members@.len()
            &&& forall|i: int|
                0 <= i < members@.len() ==> #[trigger] views[i] == (
                    members@[i].0@,
                    members@[i].1@,
                )
        },
{
}

/// A JSON value reads as a text exactly where it is a string, and as an integer of a
/// range exactly where it is an integer of that range.
pub proof fn law_json_scalars(value: json::JsonView, low: int, high: int)
    ensures
        value matches json::JsonView::Text(characters) ==> value.text() == Some(characters),
        !(value is Text) ==> value.text() is None,
        value matches json::JsonView::Number(json::NumberView::Integer(number)) ==> {
            &&& low <= number <= high ==> value.integer_within(low, high) == Some(number)
            &&& number < low || number > high ==> value.integer_within(low, high) is None
        },
        !(value is Number) ==> value.integer_within(low, high) is None,
        value matches json::JsonView::Number(json::NumberView::Float(_)) ==> value.integer_within(
            low,
            high,
        ) is None,
{
}

/// Whether two JSON values are alike, part by part: a value is alike to one of its
/// own kind only; the two float zeros are alike, and otherwise scalars are alike
/// where they are equal; lists are alike item by item, and objects key by key and
/// value by value, in their order.
pub proof fn law_alike_part_by_part(a: json::JsonView, b: json::JsonView)
    ensures
        json::alike(a, b) <==> match (a, b) {
            (json::JsonView::Null, json::JsonView::Null) => true,
            (json::JsonView::Bool(x), json::JsonView::Bool(y)) => x == y,
            (json::JsonView::Text(x), json::JsonView::Text(y)) => x == y,
            (
                json::JsonView::Number(json::NumberView::Integer(x)),
                json::JsonView::Number(json::NumberView::Integer(y)),
            ) => x == y,
            (
                json::JsonView::Number(json::NumberView::Float(x)),
                json::JsonView::Number(json::NumberView::Float(y)),
            ) => x == y || (x == "0.0"@ && y == "-0.0"@) || (x == "-0.0"@ && y == "0.0"@),
            (json::JsonView::Array(x), json::JsonView::Array(y)) => x.len() == y.len() && forall|
                i: int,
            |
                0 <= i < x.len() ==> json::alike(#[trigger] x[i], y[i]),
            (json::JsonView::Object(x), json::JsonView::Object(y)) => x.len() == y.len() && forall|
                i: int,
            |
                0 <= i < x.len() ==> (#[trigger] x[i]).0 == y[i].0 && json::alike(x[i].1, y[i].1),
            _ => false,
        },
{
    match (a, b) {
        (json::JsonView::Array(x), json::JsonView::Array(y)) => {
            let left = json::compared(a)->Array_0;
            let right = json::compared(b)->Array_0;
            if x.len() == y.len() && forall|i: int|
                0 <= i < x.len() ==> json::alike(#[trigger] x[i], y[i]) {
                assert forall|i: int| 0 <= i < left.len() implies left[i] == right[i] by {
                    assert(json::alike(x[i], y[i]));
                }
                assert(left =~= right);
            }
            if left == right {
                assert(left.len() == right.len());
                assert forall|i: int| 0 <= i < x.len() implies json::alike(
                    #[trigger] x[i],
                    y[i],
                ) by {
                    assert(left[i] == right[i]);
                }
            }
        },
        (json::JsonView::Object(x), json::JsonView::Object(y)) => {
            let left = json::compared(a)->Object_0;
            let right = json::compared(b)->Object_0;
            if x.len() == y.len() && forall|i: int|
                0 <= i < x.len() ==> (#[trigger] x[i]).0 == y[i].0 && json::alike(x[i].1, y[i].1) {
                assert forall|i: int| 0 <= i < left.len() implies left[i] == right[i] by {
                    assert(x[i].0 == y[i].0);
                }
                assert(left =~= right);
            }
            if left == right {
                assert(left.len() == right.len());
                assert forall|i: int| 0 <= i < x.len() implies (#[trigger] x[i]).0 == y[i].0
                    && json::alike(x[i].1, y[i].1) by {
                    assert(left[i] == right[i]);
                }
            }
        },
        _ => {},
    }
}

/// What an object's metadata says, field by field: deletion has begun where there
/// is a deletion timestamp; a label has the value of the first label of its key; an
/// owner controls where its `controller` flag is set and every part of it is the
/// one that was asked for.
pub proof fn law_metadata_reads_its_fields(meta: ObjectMeta)
    ensures
        meta@.deleting() <==> meta.deletion_timestamp is Some,
        meta@.generation == meta.generation,
        meta.uid matches Some(uid) ==> meta@.uid == Some(uid@),
        meta.uid is None ==> meta@.uid is None,
        meta.namespace matches Some(namespace) ==> meta@.namespace == Some(namespace@),
        meta.namespace is None ==> meta@.namespace is None,
        meta.resource_version matches Some(version) ==> meta@.resource_version == Some(version@),
        meta.resource_version is None ==> meta@.resource_version is None,
        meta@.finalizers.len() == meta.finalizers@.len(),
        forall|i: int|
            0 <= i < meta.finalizers@.len() ==> #[trigger] meta@.finalizers[i]
                == meta.finalizers@[i]@,
        meta.name matches Some(name) ==> meta@.any_name() == name@,
        meta.name is None ==> (meta.generate_name matches Some(prefix) ==> meta@.any_name()
            == prefix@),
        meta.name is None && meta.generate_name is None ==> meta@.any_name().len() == 0,
        forall|api_version: Seq<char>, kind: Seq<char>, name: Seq<char>, uid: Seq<char>|
            #[trigger] meta@.controlled_by(api_version, kind, name, uid) <==> exists|i: int|
                0 <= i < meta.owner_references@.len() && {
                    let owner = #[trigger] meta.owner_references@[i];
                    owner.controller == Some(true) && owner.api_version@ == api_version
                        && owner.kind@ == kind && owner.name@ == name && owner.uid@ == uid
                },
        forall|uid: Seq<char>| #[trigger]
            meta@.controlled_by_uid(uid) <==> exists|i: int|
                0 <= i < meta.owner_references@.len() && {
                    let owner = #[trigger] meta.owner_references@[i];
                    owner.controller == Some(true) && owner.uid@ == uid
                },
        forall|key: Seq<char>, i: int|
            0 <= i < meta.labels@.len() && (#[trigger] meta.labels@[i]).0@ == key && (forall|j: int|
                0 <= j < i ==> (#[trigger] meta.labels@[j]).0@ != key) ==> #[trigger] meta@.label(
                key,
            ) == Some(meta.labels@[i].1@),
        forall|key: Seq<char>|
            #[trigger] meta@.label(key) is None <==> forall|i: int|
                0 <= i < meta.labels@.len() ==> (#[trigger] meta.labels@[i]).0@ != key,
{
    assert forall|api_version: Seq<char>, kind: Seq<char>, name: Seq<char>, uid: Seq<char>|
        #[trigger] meta@.controlled_by(api_version, kind, name, uid) <==> exists|i: int|
            0 <= i < meta.owner_references@.len() && {
                let owner = #[trigger] meta.owner_references@[i];
                owner.controller == Some(true) && owner.api_version@ == api_version && owner.kind@
                    == kind && owner.name@ == name && owner.uid@ == uid
            } by {
        let views = meta@.owner_references;
        if meta@.controlled_by(api_version, kind, name, uid) {
            let i = choose|i: int|
                0 <= i < views.len() && {
                    let owner = #[trigger] views[i];
                    owner.controller == Some(true) && owner.api_version == api_version
                        && owner.kind == kind && owner.name == name && owner.uid == uid
                };
            assert(views[i] == meta.owner_references@[i]@);
        }
        if exists|i: int|
            0 <= i < meta.owner_references@.len() && {
                let owner = #[trigger] meta.owner_references@[i];
                owner.controller == Some(true) && owner.api_version@ == api_version && owner.kind@
                    == kind && owner.name@ == name && owner.uid@ == uid
            } {
            let i = choose|i: int|
                0 <= i < meta.owner_references@.len() && {
                    let owner = #[trigger] meta.owner_references@[i];
                    owner.controller == Some(true) && owner.api_version@ == api_version
                        && owner.kind@ == kind && owner.name@ == name && owner.uid@ == uid
                };
            assert(views[i] == meta.owner_references@[i]@);
        }
    }
    assert forall|uid: Seq<char>| #[trigger]
        meta@.controlled_by_uid(uid) <==> exists|i: int|
            0 <= i < meta.owner_references@.len() && {
                let owner = #[trigger] meta.owner_references@[i];
                owner.controller == Some(true) && owner.uid@ == uid
            } by {
        let views = meta@.owner_references;
        if meta@.controlled_by_uid(uid) {
            let i = choose|i: int|
                0 <= i < views.len() && {
                    let owner = #[trigger] views[i];
                    owner.controller == Some(true) && owner.uid == uid
                };
            assert(views[i] == meta.owner_references@[i]@);
        }
        if exists|i: int|
            0 <= i < meta.owner_references@.len() && {
                let owner = #[trigger] meta.owner_references@[i];
                owner.controller == Some(true) && owner.uid@ == uid
            } {
            let i = choose|i: int|
                0 <= i < meta.owner_references@.len() && {
                    let owner = #[trigger] meta.owner_references@[i];
                    owner.controller == Some(true) && owner.uid@ == uid
                };
            assert(views[i] == meta.owner_references@[i]@);
        }
    }
    assert forall|key: Seq<char>, i: int|
        0 <= i < meta.labels@.len() && (#[trigger] meta.labels@[i]).0@ == key && (forall|j: int|
            0 <= j < i ==> (#[trigger] meta.labels@[j]).0@ != key) implies #[trigger] meta@.label(
        key,
    ) == Some(meta.labels@[i].1@) by {
        law_first_pair_is_found(meta@.labels, key);
        assert(meta@.labels[i] == (meta.labels@[i].0@, meta.labels@[i].1@));
        assert forall|j: int| 0 <= j < i implies (#[trigger] meta@.labels[j]).0 != key by {
            assert(meta.labels@[j].0@ != key);
        }
    }
    assert forall|key: Seq<char>|
        #[trigger] meta@.label(key) is None <==> forall|i: int|
            0 <= i < meta.labels@.len() ==> (#[trigger] meta.labels@[i]).0@ != key by {
        law_first_pair_is_found(meta@.labels, key);
        assert forall|i: int| 0 <= i < meta.labels@.len() implies #[trigger] meta@.labels[i] == (
            meta.labels@[i].0@,
            meta.labels@[i].1@,
        ) by {}
        if meta@.label(key) is None {
            assert forall|i: int| 0 <= i < meta.labels@.len() implies (
            #[trigger] meta.labels@[i]).0@ != key by {
                assert(meta@.labels[i].0 != key);
            }
        }
    }
}

/// A condition holds exactly where one of that type has that status.
pub proof fn law_condition_holds(
    conditions: Seq<Condition>,
    condition_type: Seq<char>,
    status: Seq<char>,
)
    ensures
        k8s::condition_holds(conditions, condition_type, status) <==> !(forall|i: int|
            0 <= i < conditions.len() ==> (#[trigger] conditions[i]).condition_type@
                != condition_type || conditions[i].status@ != status),
{
}

/// A text counts as present exactly where it is there and not empty, and then it is
/// that text.
pub proof fn law_present_text(value: Option<Seq<char>>)
    ensures
        k8s::nonempty(value) is Some <==> value is Some && value->0.len() > 0,
        k8s::nonempty(value) is Some ==> k8s::nonempty(value) == value,
{
}

/// Of two known instants the one with more seconds is after the other, and among
/// equal seconds the one with more nanoseconds. An instant that is not known is
/// neither before nor after any.
pub proof fn law_instants_are_ordered(a: (i64, u32), b: (i64, u32))
    ensures
        a.0 > b.0 ==> time::strictly_after(Some(a), Some(b)),
        a.0 < b.0 ==> !time::strictly_after(Some(a), Some(b)),
        a.0 == b.0 ==> (time::strictly_after(Some(a), Some(b)) <==> a.1 > b.1),
        !time::strictly_after(None, Some(b)),
        !time::strictly_after(Some(a), None),
        !time::strictly_after(None, None),
{
}

/// An unsigned numeral is read exactly where it is a row of at least one decimal
/// digit, after at most one plus sign, for a number within the bound. The numeral of
/// a number within the bound is read as that number.
pub proof fn law_unsigned_numerals(value: Seq<char>, max: nat)
    ensures
        !(value.len() > 0 && value[0] == '+') ==> {
            &&& number::unsigned_value(value, max) is Some <==> value.len() > 0
                && number::digits_value(value) <= max && forall|i: int|
                0 <= i < value.len() ==> '0' <= #[trigger] value[i] <= '9'
            &&& number::unsigned_value(value, max) matches Some(found) ==> found
                == number::digits_value(value)
        },
        value.len() > 0 && value[0] == '+' ==> {
            &&& number::unsigned_value(value, max) is Some <==> value.len() > 1
                && number::digits_value(value.skip(1)) <= max && forall|i: int|
                1 <= i < value.len() ==> '0' <= #[trigger] value[i] <= '9'
            &&& number::unsigned_value(value, max) matches Some(found) ==> found
                == number::digits_value(value.skip(1))
        },
        forall|expected: nat|
            expected <= max ==> number::unsigned_value(#[trigger] number::decimal(expected), max)
                == Some(expected),
{
    if value.len() > 0 && value[0] == '+' {
        let digits = value.skip(1);
        if number::all_digits(digits) {
            assert forall|i: int| 1 <= i < value.len() implies '0' <= #[trigger] value[i]
                <= '9' by {
                assert(number::is_digit(digits[i - 1]));
            }
        }
        if forall|i: int| 1 <= i < value.len() ==> '0' <= #[trigger] value[i] <= '9' {
            assert forall|i: int| 0 <= i < digits.len() implies number::is_digit(
                #[trigger] digits[i],
            ) by {
                assert(digits[i] == value[i + 1]);
            }
            assert(number::all_digits(digits));
        }
    } else {
        if number::all_digits(value) {
            assert forall|i: int| 0 <= i < value.len() implies '0' <= #[trigger] value[i]
                <= '9' by {
                assert(number::is_digit(value[i]));
            }
        }
        if forall|i: int| 0 <= i < value.len() ==> '0' <= #[trigger] value[i] <= '9' {
            assert(number::all_digits(value));
        }
    }
    assert forall|expected: nat| expected <= max implies number::unsigned_value(
        #[trigger] number::decimal(expected),
        max,
    ) == Some(expected) by {
        number::lemma_decimal(expected);
        assert(number::is_digit(number::decimal(expected)[0]));
    }
}

/// The value of a row of digits, one digit at a time: none is zero, and a further
/// digit makes ten times what was there and that digit.
pub proof fn law_digits_are_decimal(digits: Seq<char>, digit: char)
    requires
        '0' <= digit <= '9',
    ensures
        number::digits_value(Seq::empty()) == 0,
        number::digits_value(digits.push(digit)) == 10 * number::digits_value(digits) + (
        digit as int - '0' as int),
{
    assert(digits.push(digit).drop_last() =~= digits);
}

/// The decimal numeral of a number below ten is its digit, and that of a larger one
/// is the numeral of its tens and then the digit of its ones.
pub proof fn law_decimal_numerals(value: nat)
    ensures
        value < 10 ==> number::decimal(value).len() == 1 && number::decimal(value)[0] as int == 48
            + value,
        value >= 10 ==> number::decimal(value).drop_last() == number::decimal(value / 10)
            && number::decimal(value).last() as int == 48 + value % 10,
        number::signed_decimal(value as int) == number::decimal(value),
        value > 0 ==> number::signed_decimal(-(value as int)) == seq!['-'] + number::decimal(value),
{
    reveal_strlit("-");
    assert("-"@ =~= seq!['-']);
    if value >= 10 {
        assert(number::decimal(value).drop_last() =~= number::decimal(value / 10));
    }
}

} // verus!
